use std::sync::Arc;

use ballista_frames::error::PlanError;
use ballista_frames::expr;
use ballista_frames::expr::{
    alias, binary, col, concat_ws, digest, in_list, lit, order_by, AggregateKind, Expr, Literal,
    Operator,
};
use ballista_frames::lower::{aggregate_name, expr_to_engine, exprs_to_engine};
use ballista_frames::plan::PlanBuilder;
use ballista_frames::registry::{aggregate_function, resolved_window, scalar_function, window};
use datafusion::arrow::array::{Array, Int32Array, Int64Array, StringArray};
use datafusion::arrow::datatypes::{DataType, Field, Schema};
use datafusion::arrow::record_batch::RecordBatch;
use datafusion::prelude::SessionContext;

fn s(x: &str) -> String {
    x.to_string()
}

fn r() -> PlanBuilder {
    let schema = Schema::new(vec![
        Field::new("id", DataType::Int32, false),
        Field::new("name", DataType::Utf8, false),
    ]);
    let batch = RecordBatch::try_new(
        Arc::new(schema),
        vec![
            Arc::new(Int32Array::from(vec![1, 2, 3])),
            Arc::new(StringArray::from(vec!["a", "b", "c"])),
        ],
    )
    .unwrap();
    PlanBuilder::from_shared(SessionContext::new().read_batch(batch).unwrap())
}

fn collect(p: &PlanBuilder) -> Vec<RecordBatch> {
    let df = p.to_data_frame().unwrap();
    tokio::runtime::Runtime::new().unwrap().block_on(df.collect()).unwrap()
}

fn strings(p: &PlanBuilder) -> Vec<String> {
    let mut out = Vec::new();
    for b in collect(p) {
        let c = b.column(0).as_any().downcast_ref::<StringArray>().unwrap();
        for i in 0..c.len() {
            out.push(c.value(i).to_string());
        }
    }
    out
}

#[test]
fn order_by_defaults_to_ascending_nulls_first() {
    match order_by(col(s("x")), None, None) {
        Expr::Sort { asc, nulls_first, .. } => {
            assert!(asc);
            assert!(nulls_first);
        }
        other => panic!("unexpected {:?}", other),
    }
}

#[test]
fn order_by_takes_given_options() {
    match order_by(col(s("x")), Some(false), Some(false)) {
        Expr::Sort { expr, asc, nulls_first } => {
            assert!(!asc);
            assert!(!nulls_first);
            assert!(matches!(*expr, Expr::Column(ref n) if n == "x"));
        }
        other => panic!("unexpected {:?}", other),
    }
}

#[test]
fn scalar_function_uses_engine_identifier() {
    match scalar_function("abs", vec![col(s("id"))]).unwrap() {
        Expr::ScalarFunction { fun, args } => {
            assert_eq!(fun, "abs");
            assert_eq!(args.len(), 1);
        }
        other => panic!("unexpected {:?}", other),
    }
    match scalar_function("array", vec![]).unwrap() {
        Expr::ScalarFunction { fun, .. } => assert_eq!(fun, "make_array"),
        other => panic!("unexpected {:?}", other),
    }
    match scalar_function("length", vec![]).unwrap() {
        Expr::ScalarFunction { fun, .. } => assert_eq!(fun, "character_length"),
        other => panic!("unexpected {:?}", other),
    }
    match scalar_function("pow", vec![]).unwrap() {
        Expr::ScalarFunction { fun, .. } => assert_eq!(fun, "power"),
        other => panic!("unexpected {:?}", other),
    }
}

#[test]
fn scalar_function_unknown_name_fails() {
    assert!(matches!(scalar_function("uuid", vec![]), Err(PlanError::UnknownFunction(n)) if n == "uuid"));
    assert!(matches!(scalar_function("ABS", vec![]), Err(PlanError::UnknownFunction(n)) if n == "ABS"));
}

#[test]
fn scalar_function_runs_in_engine() {
    let upper = scalar_function("upper", vec![col(s("name"))]).unwrap();
    assert_eq!(strings(&r().select(vec![upper])), vec![s("A"), s("B"), s("C")]);
}

#[test]
fn aggregate_function_names() {
    let cases = [
        ("avg", AggregateKind::Avg),
        ("count", AggregateKind::Count),
        ("max", AggregateKind::Max),
        ("min", AggregateKind::Min),
        ("sum", AggregateKind::Sum),
        ("approx_distinct", AggregateKind::ApproxDistinct),
    ];
    for (name, kind) in cases {
        match aggregate_function(name, vec![col(s("id"))], true).unwrap() {
            Expr::AggregateFunction { fun, distinct, .. } => {
                assert_eq!(fun, kind);
                assert!(distinct);
            }
            other => panic!("unexpected {:?}", other),
        }
        assert_eq!(aggregate_name(kind), name);
    }
    assert!(matches!(aggregate_function("median", vec![], false), Err(PlanError::UnknownFunction(n)) if n == "median"));
}

#[test]
fn aggregate_runs_in_engine() {
    let total = aggregate_function("sum", vec![col(s("id"))], false).unwrap();
    let count = aggregate_function("count", vec![col(s("id"))], false).unwrap();
    let batches = collect(&r().aggregate(vec![], vec![total, count]));
    let b = &batches[0];
    assert_eq!(b.num_rows(), 1);
    let total = b.column(0).as_any().downcast_ref::<Int64Array>().unwrap();
    let count = b.column(1).as_any().downcast_ref::<Int64Array>().unwrap();
    assert_eq!(total.value(0), 6);
    assert_eq!(count.value(0), 3);
}

#[test]
fn window_known_name_builds_call() {
    match window("row_number", vec![], None, Some(vec![col(s("id"))])).unwrap() {
        Expr::WindowFunction { fun, args, partition_by, order_by, ordered } => {
            assert_eq!(fun, "row_number");
            assert!(args.is_empty());
            assert!(partition_by.is_empty());
            assert_eq!(order_by.len(), 1);
            assert!(ordered);
        }
        other => panic!("unexpected {:?}", other),
    }
    assert!(window("sum", vec![col(s("id"))], None, None).is_ok());
}

#[test]
fn window_unknown_name_fails() {
    assert!(matches!(
        window("no_such_window", vec![], None, None),
        Err(PlanError::UnresolvedWindowFunction(n)) if n == "no_such_window"
    ));
}

#[test]
fn resolved_window_follows_the_lookup() {
    assert!(matches!(
        resolved_window(false, "rank", vec![], None, None),
        Err(PlanError::UnresolvedWindowFunction(n)) if n == "rank"
    ));
    match resolved_window(true, "rank", vec![], Some(vec![col(s("name"))]), None).unwrap() {
        Expr::WindowFunction { fun, partition_by, order_by, ordered, .. } => {
            assert_eq!(fun, "rank");
            assert_eq!(partition_by.len(), 1);
            assert!(order_by.is_empty());
            assert!(!ordered);
        }
        other => panic!("unexpected {:?}", other),
    }
}

#[test]
fn window_runs_in_engine() {
    let w = window("row_number", vec![], None, Some(vec![order_by(col(s("id")), Some(false), None)])).unwrap();
    let p = r().select(vec![col(s("id")), alias(w, s("rn"))]).sort(vec![order_by(col(s("id")), None, None)]);
    let mut got = Vec::new();
    for b in collect(&p) {
        let rn = b.column(1).as_any().downcast_ref::<datafusion::arrow::array::UInt64Array>().unwrap();
        for i in 0..rn.len() {
            got.push(rn.value(i));
        }
    }
    assert_eq!(got, vec![3, 2, 1]);
}

#[test]
fn alias_renames_column() {
    let p = r().select(vec![alias(col(s("id")), s("key"))]);
    let schema = p.schema().unwrap();
    assert_eq!(schema.field(0).name(), "key");
}

#[test]
fn in_list_filters_rows() {
    let keep = in_list(col(s("id")), vec![lit(Literal::Int64(1)), lit(Literal::Int64(3))], false);
    let p = r().filter(keep).select(vec![col(s("name"))]);
    assert_eq!(strings(&p), vec![s("a"), s("c")]);
    let drop = in_list(col(s("id")), vec![lit(Literal::Int64(1)), lit(Literal::Int64(3))], true);
    let q = r().filter(drop).select(vec![col(s("name"))]);
    assert_eq!(strings(&q), vec![s("b")]);
}

#[test]
fn concat_joins_text() {
    let e = expr::concat(vec![col(s("name")), lit(Literal::Utf8(s("!"))), lit(Literal::Null)]);
    assert_eq!(strings(&r().select(vec![e])), vec![s("a!"), s("b!"), s("c!")]);
}

#[test]
fn concat_ws_puts_separator_between() {
    let e = concat_ws(s("-"), vec![col(s("name")), col(s("name"))]);
    assert_eq!(strings(&r().select(vec![e])), vec![s("a-a"), s("b-b"), s("c-c")]);
}

#[test]
fn digest_hashes_with_named_algorithm() {
    let e = digest(lit(Literal::Utf8(s("abc"))), lit(Literal::Utf8(s("md5"))));
    let p = r().limit(1).select(vec![e]);
    let schema = p.schema().unwrap();
    assert_eq!(schema.field(0).data_type(), &DataType::Binary);
    let batches = collect(&p);
    let c = batches[0].column(0).as_any().downcast_ref::<datafusion::arrow::array::BinaryArray>().unwrap();
    assert_eq!(c.value(0).len(), 16);
}

#[test]
fn boolean_literal_and_or() {
    let t = lit(Literal::Boolean(true));
    let gt = binary(col(s("id")), Operator::Gt, lit(Literal::Int64(2)));
    let lt = binary(col(s("id")), Operator::Lt, lit(Literal::Int64(2)));
    let p = r().filter(binary(t, Operator::And, binary(gt, Operator::Or, lt))).select(vec![col(s("name"))]);
    let mut got = strings(&p);
    got.sort();
    assert_eq!(got, vec![s("a"), s("c")]);
}

#[test]
fn window_empty_order_list_is_still_ordered() {
    match window("sum", vec![col(s("id"))], None, Some(vec![])).unwrap() {
        Expr::WindowFunction { order_by, ordered, .. } => {
            assert!(order_by.is_empty());
            assert!(ordered);
        }
        other => panic!("unexpected {:?}", other),
    }
    match window("sum", vec![col(s("id"))], None, None).unwrap() {
        Expr::WindowFunction { ordered, .. } => assert!(!ordered),
        other => panic!("unexpected {:?}", other),
    }
}

#[test]
fn running_sum_follows_order_list() {
    let running = window("sum", vec![col(s("id"))], None, Some(vec![order_by(col(s("id")), None, None)])).unwrap();
    let whole = window("sum", vec![col(s("id"))], None, None).unwrap();
    let p = r()
        .select(vec![col(s("id")), alias(running, s("run")), alias(whole, s("all"))])
        .sort(vec![order_by(col(s("id")), None, None)]);
    let mut run = Vec::new();
    let mut all = Vec::new();
    for b in collect(&p) {
        let c1 = b.column(1).as_any().downcast_ref::<Int64Array>().unwrap();
        let c2 = b.column(2).as_any().downcast_ref::<Int64Array>().unwrap();
        for i in 0..c1.len() {
            run.push(c1.value(i));
            all.push(c2.value(i));
        }
    }
    assert_eq!(run, vec![1, 3, 6]);
    assert_eq!(all, vec![6, 6, 6]);
}

#[test]
fn lowering_without_calls_succeeds() {
    let e = binary(col(s("id")), Operator::Gt, lit(Literal::Int64(1)));
    assert!(expr_to_engine(&alias(e, s("big"))).is_ok());
    let list = vec![col(s("a")), lit(Literal::Null), lit(Literal::Boolean(false))];
    assert_eq!(exprs_to_engine(&list).unwrap().len(), 3);
}

#[test]
fn lowering_refuses_unknown_engine_identifier() {
    let bad = Expr::ScalarFunction { fun: s("no_such_function"), args: vec![] };
    assert!(expr_to_engine(&bad).is_err());
    let nested = alias(Expr::ScalarFunction { fun: s("no_such_function"), args: vec![] }, s("x"));
    assert!(expr_to_engine(&nested).is_err());
    let good = scalar_function("abs", vec![col(s("id"))]).unwrap();
    assert!(expr_to_engine(&good).is_ok());
    assert!(exprs_to_engine(&vec![col(s("id")), Expr::ScalarFunction { fun: s("nope"), args: vec![] }]).is_err());
}

#[test]
fn unknown_function_message_names_it() {
    let e = scalar_function("nope", vec![]).unwrap_err();
    assert_eq!(e.message(), "There is no function named nope");
    let w = window("nope", vec![], None, None).unwrap_err();
    assert_eq!(w.message(), "There is no window function named nope");
}
