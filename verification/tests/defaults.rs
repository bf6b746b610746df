use komodo_rpc::defaults::{handle_defaults, missing_default, try_handle_defaults};
use serde_json::Value;

fn s(text: &str) -> Value {
    Value::from(text)
}

fn run(args: Vec<Value>, defaults: Vec<Value>) -> Vec<Value> {
    assert!(args.len() >= defaults.len());
    assert_eq!(missing_default(&args, &defaults), None);
    let before = args.clone();
    let mut args = args;
    let out = handle_defaults(&mut args, &defaults).to_vec();
    assert_eq!(args.len(), before.len());
    assert_eq!(args[..out.len()], out[..]);
    assert_eq!(args[out.len()..], before[out.len()..]);
    out
}

#[test]
fn all_optionals_omitted_leaves_the_required_prefix() {
    let out = run(
        vec![s("a"), s("b"), Value::Null, Value::Null],
        vec![s("D1"), s("D2")],
    );
    assert_eq!(out, vec![s("a"), s("b")]);
}

#[test]
fn gap_before_a_supplied_optional_is_filled() {
    let out = run(
        vec![s("a"), s("b"), Value::Null, s("v4")],
        vec![s("D1"), s("D2")],
    );
    assert_eq!(out, vec![s("a"), s("b"), s("D1"), s("v4")]);
}

#[test]
fn trailing_omitted_optional_is_cut_off() {
    let out = run(
        vec![s("a"), s("b"), s("v3"), Value::Null],
        vec![s("D1"), s("D2")],
    );
    assert_eq!(out, vec![s("a"), s("b"), s("v3")]);
}

#[test]
fn empty_table_changes_nothing() {
    let args = vec![s("a"), Value::Null, Value::from(3u64), Value::Null];
    assert_eq!(run(args.clone(), vec![]), args);
    assert_eq!(run(vec![], vec![]), Vec::<Value>::new());
}

#[test]
fn required_arguments_are_kept_even_when_null() {
    let out = run(vec![Value::Null, Value::Null, Value::Null], vec![s("d")]);
    assert_eq!(out, vec![Value::Null, Value::Null]);
}

#[test]
fn every_argument_optional() {
    assert_eq!(
        run(vec![Value::Null, Value::Null], vec![s("x"), s("y")]),
        Vec::<Value>::new()
    );
    assert_eq!(
        run(vec![Value::Null, Value::from(true)], vec![s("x"), s("y")]),
        vec![s("x"), Value::from(true)]
    );
    assert_eq!(
        run(vec![Value::from(7u64), Value::Null], vec![s("x"), s("y")]),
        vec![Value::from(7u64)]
    );
}

#[test]
fn several_gaps_are_filled_each_from_its_own_default() {
    let out = run(
        vec![s("r"), Value::Null, Value::Null, s("c"), Value::Null, s("e"), Value::Null],
        vec![s("d1"), s("d2"), s("d3"), s("d4"), s("d5"), s("d6")],
    );
    assert_eq!(out, vec![s("r"), s("d1"), s("d2"), s("c"), s("d4"), s("e")]);
}

#[test]
fn output_length_lies_between_required_and_all() {
    let table = vec![s("d1"), s("d2"), s("d3")];
    let candidates = [Value::Null, s("v")];
    for a in candidates.iter() {
        for b in candidates.iter() {
            for c in candidates.iter() {
                let args = vec![s("req"), a.clone(), b.clone(), c.clone()];
                let out = run(args.clone(), table.clone());
                assert!(out.len() >= 1 && out.len() <= 4);
                if a.is_null() && b.is_null() && c.is_null() {
                    assert_eq!(out.len(), 1);
                }
                if !c.is_null() {
                    assert_eq!(out.len(), 4);
                }
                for (i, v) in out.iter().enumerate() {
                    if !args[i].is_null() {
                        assert_eq!(*v, args[i]);
                    }
                }
            }
        }
    }
}

#[test]
fn second_pass_with_empty_table_is_a_no_op() {
    let first = run(
        vec![s("a"), Value::Null, s("c"), Value::Null],
        vec![s("d1"), s("d2"), s("d3")],
    );
    assert_eq!(first, vec![s("a"), s("d1"), s("c")]);
    let second = run(first.clone(), vec![]);
    assert_eq!(second, first);
}

#[test]
fn null_default_is_fine_where_nothing_has_to_be_filled() {
    let table = vec![Value::from(0u64), Value::Null];
    assert_eq!(
        run(vec![s("*"), Value::Null, Value::Null], table.clone()),
        vec![s("*")]
    );
    assert_eq!(
        run(vec![s("*"), Value::Null, Value::from(true)], table.clone()),
        vec![s("*"), Value::from(0u64), Value::from(true)]
    );
    assert_eq!(
        run(vec![s("*"), Value::from(2u64), Value::Null], table),
        vec![s("*"), Value::from(2u64)]
    );
}

#[test]
fn missing_default_is_reported_with_its_position() {
    let table = vec![Value::Null, Value::from(1u64), Value::Null];
    let args = vec![Value::Null, Value::Null, Value::from(true)];
    assert_eq!(missing_default(&args, &table), Some(0));

    let table = vec![Value::Null, Value::Null];
    let args = vec![s("r"), Value::Null, s("h")];
    assert_eq!(missing_default(&args, &table), Some(1));
    let args = vec![s("r"), s("n"), Value::Null];
    assert_eq!(missing_default(&args, &table), None);
    let args = vec![s("r"), Value::Null, Value::Null];
    assert_eq!(missing_default(&args, &table), None);
}

#[test]
fn missing_default_reports_the_rightmost_gap() {
    let table = vec![Value::Null, Value::Null, Value::Null];
    let args = vec![Value::Null, Value::Null, s("x")];
    assert_eq!(missing_default(&args, &table), Some(1));
}

#[test]
fn unknown_lists_are_checked_before_they_are_handled() {
    let mut args = vec![s("r"), Value::Null, s("x")];
    assert_eq!(
        try_handle_defaults(&mut args, &[s("d1"), s("d2")]),
        Some(&[s("r"), s("d1"), s("x")][..])
    );
    let mut args = vec![s("r"), Value::Null, s("x")];
    assert_eq!(try_handle_defaults(&mut args, &[Value::Null, s("d2")]), None);
    assert_eq!(args, vec![s("r"), Value::Null, s("x")]);
    let mut args = vec![s("r")];
    assert_eq!(try_handle_defaults(&mut args, &[s("d1"), s("d2")]), None);
    assert_eq!(args, vec![s("r")]);
    let mut args: Vec<Value> = vec![];
    assert_eq!(try_handle_defaults(&mut args, &[]), Some(&[][..]));
}
