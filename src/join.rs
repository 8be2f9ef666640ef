//! Resolution of a join-type token to a join type.
use vstd::prelude::*;

use crate::error::PlanError;

verus! {

/// The join types that a plan can ask for.
#[derive(Clone, Copy, Debug, PartialEq, Eq, Structural)]
pub enum JoinKind {
    Inner,
    Left,
    Right,
    Full,
    LeftSemi,
    LeftAnti,
    RightSemi,
}

/// The join type that a token names, if it names one.
pub open spec fn join_kind_of(token: Seq<char>) -> Option<JoinKind> {
    if token == "inner"@ {
        Some(JoinKind::Inner)
    } else if token == "left"@ {
        Some(JoinKind::Left)
    } else if token == "right"@ {
        Some(JoinKind::Right)
    } else if token == "full"@ {
        Some(JoinKind::Full)
    } else if token == "semi"@ {
        Some(JoinKind::LeftSemi)
    } else if token == "anti"@ {
        Some(JoinKind::LeftAnti)
    } else if token == "right_semi"@ {
        Some(JoinKind::RightSemi)
    } else {
        None
    }
}

/// Maps a join-type token to its join type; an unknown token is reported
/// with the token itself.
pub fn resolve_join_type(how: &str) -> (r: Result<JoinKind, PlanError>)
    ensures
        match join_kind_of(how@) {
            Some(k) => r == Ok::<JoinKind, PlanError>(k),
            None => r matches Err(PlanError::UnknownJoinType(t)) && t@ == how@,
        },
{
    let token = how.to_owned();
    if token == "inner".to_owned() {
        Ok(JoinKind::Inner)
    } else if token == "left".to_owned() {
        Ok(JoinKind::Left)
    } else if token == "right".to_owned() {
        Ok(JoinKind::Right)
    } else if token == "full".to_owned() {
        Ok(JoinKind::Full)
    } else if token == "semi".to_owned() {
        Ok(JoinKind::LeftSemi)
    } else if token == "anti".to_owned() {
        Ok(JoinKind::LeftAnti)
    } else if token == "right_semi".to_owned() {
        Ok(JoinKind::RightSemi)
    } else {
        Err(PlanError::UnknownJoinType(token))
    }
}

} // verus!
