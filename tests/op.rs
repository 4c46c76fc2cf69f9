use jsonlogic_core::error::Error;
use jsonlogic_core::op::{
    evaluate, get_lazy_operator, get_operator, lazy_operator_map, operator_map, truthy,
    LazyOperation, Operation, Parsed, MAX_ARGS,
};
use jsonlogic_core::value::{Json, Number};

fn num(i: i64) -> Json {
    Json::Number(Number::Int(i))
}

fn text(s: &str) -> Json {
    Json::String(s.to_string())
}

fn arr(items: Vec<Json>) -> Json {
    Json::Array(items)
}

fn obj(entries: Vec<(&str, Json)>) -> Json {
    Json::Object(entries.into_iter().map(|(k, v)| (k.to_string(), v)).collect())
}

fn call(op: &str, args: Vec<Json>) -> Json {
    obj(vec![(op, arr(args))])
}

fn eval_ok(rule: &Json) -> Json {
    let data = Json::Null;
    match evaluate(rule, &data) {
        Ok(e) => e.as_json().deep_copy(),
        Err(e) => panic!("unexpected error {:?}", e),
    }
}

fn eval_err(rule: &Json) -> Error {
    let data = Json::Null;
    match evaluate(rule, &data) {
        Ok(e) => panic!("unexpected value {:?}", e),
        Err(e) => e,
    }
}

#[test]
fn test_operator_map_symbols() {
    operator_map()
        .into_iter()
        .for_each(|(k, op)| assert_eq!(k, op.symbol()))
}

#[test]
fn test_lazy_operator_map_symbols() {
    lazy_operator_map()
        .into_iter()
        .for_each(|(k, op)| assert_eq!(k, op.symbol()))
}

#[test]
fn test_truthy() {
    let trues = [
        Json::Bool(true),
        arr(vec![num(1)]),
        arr(vec![num(1), num(2)]),
        obj(vec![]),
        obj(vec![("a", num(1))]),
        num(1),
        num(-1),
        text("foo"),
    ];

    let falses = [Json::Bool(false), arr(vec![]), text(""), num(0), Json::Null];

    trues.iter().for_each(|v| assert!(truthy(&v)));
    falses.iter().for_each(|v| assert!(!truthy(&v)));
}

#[test]
fn truthy_array_of_false_is_true() {
    assert!(truthy(&arr(vec![Json::Bool(false)])));
}

#[test]
fn truthy_float_numbers() {
    // 1.5, +0.0, -0.0
    assert!(truthy(&Json::Number(Number::Float(0x3FF8_0000_0000_0000))));
    assert!(!truthy(&Json::Number(Number::Float(0))));
    assert!(!truthy(&Json::Number(Number::Float(0x8000_0000_0000_0000))));
}

#[test]
fn registries_hold_the_expected_symbols() {
    let eager: Vec<&str> = operator_map().into_iter().map(|(k, _)| k).collect();
    assert_eq!(eager, vec!["==", "!=", "===", "!=="]);
    let lazy: Vec<&str> = lazy_operator_map().into_iter().map(|(k, _)| k).collect();
    assert_eq!(lazy, vec!["if", "or", "and"]);
}

#[test]
fn lookup_finds_registered_symbols_only() {
    assert_eq!(get_operator("===").unwrap().symbol(), "===");
    assert!(get_operator("if").is_none());
    assert_eq!(get_lazy_operator("and").unwrap().symbol(), "and");
    assert!(get_lazy_operator("==").is_none());
    assert!(get_lazy_operator("foo").is_none());
}

#[test]
fn args_are_valid_len_checks_the_range() {
    let op = get_operator("==").unwrap();
    assert_eq!(op.args_are_valid_len(&vec![1, 2]), Ok(()));
    assert_eq!(op.args_are_valid_len(&vec![1]), Err(2..3));
    assert_eq!(op.args_are_valid_len(&vec![1, 2, 3]), Err(2..3));
    let lazy = get_lazy_operator("if").unwrap();
    assert_eq!(lazy.args_are_valid_len(&vec![1, 2]), Err(3..MAX_ARGS));
    assert_eq!(lazy.args_are_valid_len(&vec![1, 2, 3, 4]), Ok(()));
}

#[test]
fn or_short_circuits_on_first_truthy() {
    let rule = call("or", vec![Json::Bool(true), obj(vec![("==", num(1))])]);
    assert_eq!(eval_ok(&rule), Json::Bool(true));
    let rule = call("or", vec![num(0), text("x"), obj(vec![("==", num(1))])]);
    assert_eq!(eval_ok(&rule), text("x"));
}

#[test]
fn or_with_no_truthy_returns_last() {
    let rule = call("or", vec![num(0), text(""), Json::Null]);
    assert_eq!(eval_ok(&rule), Json::Null);
}

#[test]
fn and_short_circuits_on_first_falsey() {
    let rule = call("and", vec![num(0), obj(vec![("==", num(1))])]);
    assert_eq!(eval_ok(&rule), num(0));
}

#[test]
fn and_with_all_truthy_returns_last() {
    let rule = call("and", vec![num(1), text("a"), num(7)]);
    assert_eq!(eval_ok(&rule), num(7));
}

#[test]
fn or_reports_error_of_evaluated_argument() {
    let rule = call("or", vec![num(0), obj(vec![("==", num(1))])]);
    assert!(matches!(eval_err(&rule), Error::InvalidOperation { .. }));
}

#[test]
fn if_three_arguments() {
    let rule = call("if", vec![Json::Bool(true), text("a"), text("b")]);
    assert_eq!(eval_ok(&rule), text("a"));
    let rule = call("if", vec![arr(vec![]), text("a"), text("b")]);
    assert_eq!(eval_ok(&rule), text("b"));
}

#[test]
fn if_five_arguments() {
    let rule = |c1: bool, c2: bool| {
        call(
            "if",
            vec![Json::Bool(c1), text("a"), Json::Bool(c2), text("b"), text("c")],
        )
    };
    assert_eq!(eval_ok(&rule(true, true)), text("a"));
    assert_eq!(eval_ok(&rule(true, false)), text("a"));
    assert_eq!(eval_ok(&rule(false, true)), text("b"));
    assert_eq!(eval_ok(&rule(false, false)), text("c"));
}

#[test]
fn if_even_arguments_without_match_returns_last_condition() {
    let rule = call("if", vec![Json::Bool(false), text("a"), num(0), text("b")]);
    assert_eq!(eval_ok(&rule), num(0));
}

#[test]
fn if_skips_branches_not_taken() {
    let bad = obj(vec![("===", text("x"))]);
    let rule = call("if", vec![Json::Bool(true), text("a"), bad]);
    assert_eq!(eval_ok(&rule), text("a"));
}

#[test]
fn if_nested_condition() {
    let cond = call("==", vec![num(1), text("1")]);
    let rule = call("if", vec![cond, text("yes"), text("no")]);
    assert_eq!(eval_ok(&rule), text("yes"));
}

#[test]
fn wrong_argument_count() {
    let rule = call("==", vec![num(1)]);
    assert_eq!(
        Operation::from_value(&rule).unwrap_err(),
        Error::WrongArgumentCount { expected: 2..3, actual: 1 }
    );
    assert_eq!(
        eval_err(&rule),
        Error::WrongArgumentCount { expected: 2..3, actual: 1 }
    );
}

#[test]
fn lazy_wrong_argument_count() {
    let rule = call("if", vec![num(1), num(2)]);
    assert_eq!(
        LazyOperation::from_value(&rule).unwrap_err(),
        Error::WrongArgumentCount { expected: 3..MAX_ARGS, actual: 2 }
    );
    let rule = call("or", vec![]);
    assert_eq!(
        eval_err(&rule),
        Error::WrongArgumentCount { expected: 1..MAX_ARGS, actual: 0 }
    );
}

#[test]
fn non_array_operator_value() {
    let rule = obj(vec![("==", num(1))]);
    assert_eq!(
        Operation::from_value(&rule).unwrap_err(),
        Error::InvalidOperation {
            key: "==".to_string(),
            reason: "Values for operator keys must be arrays".to_string(),
        }
    );
    let rule = obj(vec![("and", text("x"))]);
    assert!(matches!(
        LazyOperation::from_value(&rule).unwrap_err(),
        Error::InvalidOperation { .. }
    ));
}

#[test]
fn unrecognized_single_key_object_is_literal() {
    let rule = call("foo", vec![num(1), num(2)]);
    assert!(Operation::from_value(&rule).unwrap().is_none());
    assert!(LazyOperation::from_value(&rule).unwrap().is_none());
    assert!(matches!(Parsed::from_value(&rule), Ok(Parsed::Raw(_))));
    assert_eq!(eval_ok(&rule), call("foo", vec![num(1), num(2)]));
}

#[test]
fn multi_key_object_is_literal() {
    let rule = obj(vec![("==", arr(vec![num(1), num(1)])), ("a", num(1))]);
    assert!(Operation::from_value(&rule).unwrap().is_none());
    assert_eq!(eval_ok(&rule), rule.deep_copy());
}

#[test]
fn equality_operators_delegate() {
    assert_eq!(eval_ok(&call("==", vec![num(1), text("1")])), Json::Bool(true));
    assert_eq!(eval_ok(&call("===", vec![num(1), text("1")])), Json::Bool(false));
    assert_eq!(eval_ok(&call("!=", vec![num(1), text("1")])), Json::Bool(false));
    assert_eq!(eval_ok(&call("!==", vec![num(1), text("1")])), Json::Bool(true));
    assert_eq!(eval_ok(&call("===", vec![num(1), num(1)])), Json::Bool(true));
}

#[test]
fn eager_argument_parse_error_propagates() {
    let rule = call("==", vec![num(1), obj(vec![("!=", num(5))])]);
    assert!(matches!(
        Operation::from_value(&rule).unwrap_err(),
        Error::InvalidOperation { .. }
    ));
}

#[test]
fn lazy_execute_with_no_arguments_is_unexpected() {
    let op = get_lazy_operator("or").unwrap();
    let args: Vec<Json> = vec![];
    assert!(matches!(
        op.execute(&Json::Null, &args),
        Err(Error::UnexpectedError(_))
    ));
}

#[test]
fn operation_rebuilds_its_value() {
    let rule = call("==", vec![num(1), call("!==", vec![text("a"), num(2)])]);
    let op = Operation::from_value(&rule).unwrap().unwrap();
    assert_eq!(op.to_value(), rule);
}

#[test]
fn lazy_operation_rebuilds_its_value() {
    let rule = call("if", vec![Json::Bool(true), arr(vec![num(1)]), obj(vec![("k", Json::Null)])]);
    let op = LazyOperation::from_value(&rule).unwrap().unwrap();
    assert_eq!(op.to_value(), rule);
    let parsed = Parsed::from_value(&rule).unwrap();
    assert_eq!(parsed.to_value(), rule);
}

#[test]
fn deep_copy_is_equal() {
    let v = obj(vec![("a", arr(vec![num(1), text("x"), Json::Null])), ("b", Json::Bool(false))]);
    assert_eq!(v.deep_copy(), v);
}

#[test]
fn data_document_is_passed_through() {
    let rule = call("or", vec![num(0), text("y")]);
    let data = obj(vec![("a", num(1))]);
    let r = evaluate(&rule, &data).unwrap();
    assert_eq!(r.as_json(), &text("y"));
}
