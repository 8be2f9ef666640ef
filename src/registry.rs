//! The registry of named functions: which host-facing names the builder
//! offers, and the engine function that each of them calls.
use vstd::prelude::*;

use crate::engine::{self, window_function_known};
use crate::error::PlanError;
use crate::expr::{AggregateKind, Expr};

verus! {

/// The scalar functions, as pairs of the name that callers use and the
/// identifier of the engine function it calls.
pub open spec fn scalar_registry() -> Seq<(Seq<char>, Seq<char>)> {
    seq![
        ("abs"@, "abs"@),
        ("acos"@, "acos"@),
        ("ascii"@, "ascii"@),
        ("asin"@, "asin"@),
        ("atan"@, "atan"@),
        ("atan2"@, "atan2"@),
        ("bit_length"@, "bit_length"@),
        ("btrim"@, "btrim"@),
        ("ceil"@, "ceil"@),
        ("character_length"@, "character_length"@),
        ("length"@, "character_length"@),
        ("char_length"@, "character_length"@),
        ("chr"@, "chr"@),
        ("coalesce"@, "coalesce"@),
        ("cos"@, "cos"@),
        ("exp"@, "exp"@),
        ("floor"@, "floor"@),
        ("initcap"@, "initcap"@),
        ("left"@, "left"@),
        ("ln"@, "ln"@),
        ("log"@, "log"@),
        ("log10"@, "log10"@),
        ("log2"@, "log2"@),
        ("lower"@, "lower"@),
        ("lpad"@, "lpad"@),
        ("ltrim"@, "ltrim"@),
        ("md5"@, "md5"@),
        ("octet_length"@, "octet_length"@),
        ("power"@, "power"@),
        ("pow"@, "power"@),
        ("regexp_match"@, "regexp_match"@),
        ("regexp_replace"@, "regexp_replace"@),
        ("repeat"@, "repeat"@),
        ("replace"@, "replace"@),
        ("reverse"@, "reverse"@),
        ("right"@, "right"@),
        ("round"@, "round"@),
        ("rpad"@, "rpad"@),
        ("rtrim"@, "rtrim"@),
        ("sha224"@, "sha224"@),
        ("sha256"@, "sha256"@),
        ("sha384"@, "sha384"@),
        ("sha512"@, "sha512"@),
        ("signum"@, "signum"@),
        ("sin"@, "sin"@),
        ("split_part"@, "split_part"@),
        ("sqrt"@, "sqrt"@),
        ("starts_with"@, "starts_with"@),
        ("strpos"@, "strpos"@),
        ("substr"@, "substr"@),
        ("tan"@, "tan"@),
        ("to_hex"@, "to_hex"@),
        ("now"@, "now"@),
        ("to_timestamp"@, "to_timestamp"@),
        ("to_timestamp_millis"@, "to_timestamp_millis"@),
        ("to_timestamp_micros"@, "to_timestamp_micros"@),
        ("to_timestamp_seconds"@, "to_timestamp_seconds"@),
        ("current_date"@, "current_date"@),
        ("current_time"@, "current_time"@),
        ("datepart"@, "date_part"@),
        ("date_part"@, "date_part"@),
        ("date_trunc"@, "date_trunc"@),
        ("datetrunc"@, "date_trunc"@),
        ("date_bin"@, "date_bin"@),
        ("translate"@, "translate"@),
        ("trim"@, "trim"@),
        ("trunc"@, "trunc"@),
        ("upper"@, "upper"@),
        ("make_array"@, "make_array"@),
        ("array"@, "make_array"@),
        ("nullif"@, "nullif"@),
        ("from_unixtime"@, "from_unixtime"@),
        ("arrow_typeof"@, "arrow_typeof"@),
        ("random"@, "random"@)
    ]
}

/// The engine identifier that the first entry named `name` gives, if any.
pub open spec fn lookup(table: Seq<(Seq<char>, Seq<char>)>, name: Seq<char>) -> Option<Seq<char>>
    decreases table.len(),
{
    if table.len() == 0 {
        None
    } else if table[0].0 == name {
        Some(table[0].1)
    } else {
        lookup(table.drop_first(), name)
    }
}

fn scalar_table() -> (r: Vec<(&'static str, &'static str)>)
    ensures
        r@.map_values(|e: (&str, &str)| (e.0@, e.1@)) == scalar_registry(),
{
    let t: Vec<(&'static str, &'static str)> = vec![
        ("abs", "abs"),
        ("acos", "acos"),
        ("ascii", "ascii"),
        ("asin", "asin"),
        ("atan", "atan"),
        ("atan2", "atan2"),
        ("bit_length", "bit_length"),
        ("btrim", "btrim"),
        ("ceil", "ceil"),
        ("character_length", "character_length"),
        ("length", "character_length"),
        ("char_length", "character_length"),
        ("chr", "chr"),
        ("coalesce", "coalesce"),
        ("cos", "cos"),
        ("exp", "exp"),
        ("floor", "floor"),
        ("initcap", "initcap"),
        ("left", "left"),
        ("ln", "ln"),
        ("log", "log"),
        ("log10", "log10"),
        ("log2", "log2"),
        ("lower", "lower"),
        ("lpad", "lpad"),
        ("ltrim", "ltrim"),
        ("md5", "md5"),
        ("octet_length", "octet_length"),
        ("power", "power"),
        ("pow", "power"),
        ("regexp_match", "regexp_match"),
        ("regexp_replace", "regexp_replace"),
        ("repeat", "repeat"),
        ("replace", "replace"),
        ("reverse", "reverse"),
        ("right", "right"),
        ("round", "round"),
        ("rpad", "rpad"),
        ("rtrim", "rtrim"),
        ("sha224", "sha224"),
        ("sha256", "sha256"),
        ("sha384", "sha384"),
        ("sha512", "sha512"),
        ("signum", "signum"),
        ("sin", "sin"),
        ("split_part", "split_part"),
        ("sqrt", "sqrt"),
        ("starts_with", "starts_with"),
        ("strpos", "strpos"),
        ("substr", "substr"),
        ("tan", "tan"),
        ("to_hex", "to_hex"),
        ("now", "now"),
        ("to_timestamp", "to_timestamp"),
        ("to_timestamp_millis", "to_timestamp_millis"),
        ("to_timestamp_micros", "to_timestamp_micros"),
        ("to_timestamp_seconds", "to_timestamp_seconds"),
        ("current_date", "current_date"),
        ("current_time", "current_time"),
        ("datepart", "date_part"),
        ("date_part", "date_part"),
        ("date_trunc", "date_trunc"),
        ("datetrunc", "date_trunc"),
        ("date_bin", "date_bin"),
        ("translate", "translate"),
        ("trim", "trim"),
        ("trunc", "trunc"),
        ("upper", "upper"),
        ("make_array", "make_array"),
        ("array", "make_array"),
        ("nullif", "nullif"),
        ("from_unixtime", "from_unixtime"),
        ("arrow_typeof", "arrow_typeof"),
        ("random", "random")
    ];
    assert(t@.map_values(|e: (&str, &str)| (e.0@, e.1@)) =~= scalar_registry());
    t
}

/// Unfolds `lookup` one entry into a suffix of a table.
proof fn lemma_lookup_step(table: Seq<(Seq<char>, Seq<char>)>, i: int, name: Seq<char>)
    requires
        0 <= i < table.len(),
        table[i].0 != name,
    ensures
        lookup(table.subrange(i, table.len() as int), name) == lookup(
            table.subrange(i + 1, table.len() as int),
            name,
        ),
{
    let rest = table.subrange(i, table.len() as int);
    assert(rest.drop_first() =~= table.subrange(i + 1, table.len() as int));
}

/// The engine identifier of the scalar function that callers name `name`.
fn engine_scalar_name(name: &str) -> (r: Option<&'static str>)
    ensures
        match lookup(scalar_registry(), name@) {
            Some(e) => r matches Some(x) && x@ == e,
            None => r is None,
        },
{
    let table = scalar_table();
    let key = name.to_owned();
    let ghost t = table@.map_values(|e: (&str, &str)| (e.0@, e.1@));
    assert(t.subrange(0, t.len() as int) =~= t);
    let mut i: usize = 0;
    while i < table.len()
        invariant
            0 <= i <= table.len(),
            t == table@.map_values(|e: (&str, &str)| (e.0@, e.1@)),
            t == scalar_registry(),
            key@ == name@,
            lookup(t, name@) == lookup(t.subrange(i as int, t.len() as int), name@),
        decreases table.len() - i,
    {
        let entry = table[i];
        let host = entry.0.to_owned();
        if host == key {
            let ghost rest = t.subrange(i as int, t.len() as int);
            assert(rest[0] == t[i as int]);
            return Some(entry.1);
        }
        proof {
            lemma_lookup_step(t, i as int, name@);
        }
        i = i + 1;
    }
    assert(t.subrange(i as int, t.len() as int) =~= Seq::<(Seq<char>, Seq<char>)>::empty());
    None
}

/// A call of the registered scalar function that callers name `name`; a name
/// outside the registry is reported with the name itself.
pub fn scalar_function(name: &str, args: Vec<Expr>) -> (r: Result<Expr, PlanError>)
    ensures
        match lookup(scalar_registry(), name@) {
            Some(e) => r matches Ok(Expr::ScalarFunction { fun, args: a }) && fun@ == e && a == args,
            None => r matches Err(PlanError::UnknownFunction(n)) && n@ == name@,
        },
{
    match engine_scalar_name(name) {
        Some(e) => Ok(Expr::ScalarFunction { fun: e.to_owned(), args }),
        None => Err(PlanError::UnknownFunction(name.to_owned())),
    }
}

/// The aggregate function that a name calls, if it names one.
pub open spec fn aggregate_kind_of(name: Seq<char>) -> Option<AggregateKind> {
    if name == "avg"@ {
        Some(AggregateKind::Avg)
    } else if name == "count"@ {
        Some(AggregateKind::Count)
    } else if name == "max"@ {
        Some(AggregateKind::Max)
    } else if name == "min"@ {
        Some(AggregateKind::Min)
    } else if name == "sum"@ {
        Some(AggregateKind::Sum)
    } else if name == "approx_distinct"@ {
        Some(AggregateKind::ApproxDistinct)
    } else {
        None
    }
}

/// A call of the aggregate function that `name` names, over `args`, on
/// distinct values only when `distinct`.
pub fn aggregate_function(name: &str, args: Vec<Expr>, distinct: bool) -> (r: Result<Expr, PlanError>)
    ensures
        match aggregate_kind_of(name@) {
            Some(k) => r matches Ok(Expr::AggregateFunction { fun, args: a, distinct: d })
                && fun == k && a == args && d == distinct,
            None => r matches Err(PlanError::UnknownFunction(n)) && n@ == name@,
        },
{
    let key = name.to_owned();
    let fun = if key == "avg".to_owned() {
        AggregateKind::Avg
    } else if key == "count".to_owned() {
        AggregateKind::Count
    } else if key == "max".to_owned() {
        AggregateKind::Max
    } else if key == "min".to_owned() {
        AggregateKind::Min
    } else if key == "sum".to_owned() {
        AggregateKind::Sum
    } else if key == "approx_distinct".to_owned() {
        AggregateKind::ApproxDistinct
    } else {
        return Err(PlanError::UnknownFunction(key));
    };
    Ok(Expr::AggregateFunction { fun, args, distinct })
}

/// The partition or order keys that an optional list gives: none when absent.
pub open spec fn keys_or_none(keys: Option<Vec<Expr>>, got: Vec<Expr>) -> bool {
    match keys {
        Some(k) => got == k,
        None => got@.len() == 0,
    }
}

/// The window expression for `name`, given whether the engine knows a window
/// function of that name; an unknown name is reported with the name itself.
pub fn resolved_window(
    known: bool,
    name: &str,
    args: Vec<Expr>,
    partition_by: Option<Vec<Expr>>,
    order_by: Option<Vec<Expr>>,
) -> (r: Result<Expr, PlanError>)
    ensures
        known ==> (r matches Ok(Expr::WindowFunction { fun, args: a, partition_by: p, order_by: o, ordered })
            && fun@ == name@ && a == args && keys_or_none(partition_by, p) && keys_or_none(order_by, o)
            && ordered == (order_by is Some)),
        !known ==> (r matches Err(PlanError::UnresolvedWindowFunction(n)) && n@ == name@),
{
    if !known {
        return Err(PlanError::UnresolvedWindowFunction(name.to_owned()));
    }
    let partition_by = match partition_by {
        Some(p) => p,
        None => Vec::new(),
    };
    let ordered = order_by.is_some();
    let order_by = match order_by {
        Some(o) => o,
        None => Vec::new(),
    };
    Ok(Expr::WindowFunction { fun: name.to_owned(), args, partition_by, order_by, ordered })
}

/// A call of the window function `name` over `args`, partitioned and ordered
/// by the given keys; fails when the engine knows no window function of that
/// name.
pub fn window(
    name: &str,
    args: Vec<Expr>,
    partition_by: Option<Vec<Expr>>,
    order_by: Option<Vec<Expr>>,
) -> (r: Result<Expr, PlanError>)
    ensures
        window_function_known(name@) ==> (r matches Ok(
            Expr::WindowFunction { fun, args: a, partition_by: p, order_by: o, ordered },
        ) && fun@ == name@ && a == args && keys_or_none(partition_by, p) && keys_or_none(order_by, o)
            && ordered == (order_by is Some)),
        !window_function_known(name@) ==> (r matches Err(PlanError::UnresolvedWindowFunction(n))
            && n@ == name@),
{
    let known = engine::is_window_function(name);
    resolved_window(known, name, args, partition_by, order_by)
}

} // verus!
