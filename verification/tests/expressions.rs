use datafusion::common::Column;
use datafusion::logical_expr::expr::{AggregateFunction, Sort};
use datafusion::logical_expr::{
    aggregate_function, BinaryExpr, BuiltinScalarFunction, GroupingSet, Like, Operator as EngineOperator,
};
use datafusion::prelude::Expr as EngineExpr;
use datafusion::scalar::ScalarValue;
use plan_builder::expr::{
    and, approx_distinct, approx_median, approx_percentile_cont, approx_percentile_cont_with_weight, avg,
    binary_expr, col, concat_ws, count, count_distinct, cube, grouping_set, in_list, is_false,
    is_not_false, is_not_true, is_not_unknown, is_null, is_true, is_unknown, max, min, or, random, rollup,
    sum, value_rows, values, Expr, Operator,
};

type Kind = aggregate_function::AggregateFunction;

/// The engine's reference to the unqualified column `name`.
fn column(name: &str) -> EngineExpr {
    EngineExpr::Column(Column::from_name(name))
}

/// The engine's string constant.
fn constant(text: &str) -> EngineExpr {
    EngineExpr::Literal(ScalarValue::Utf8(Some(text.to_string())))
}

fn boxed(name: &str) -> Box<EngineExpr> {
    Box::new(column(name))
}

fn binary(left: EngineExpr, op: EngineOperator, right: EngineExpr) -> EngineExpr {
    EngineExpr::BinaryExpr(BinaryExpr::new(Box::new(left), op, Box::new(right)))
}

fn aggregate(fun: aggregate_function::AggregateFunction, args: Vec<EngineExpr>, distinct: bool) -> EngineExpr {
    EngineExpr::AggregateFunction(AggregateFunction::new(fun, args, distinct, None))
}

fn handle(name: &str) -> Expr {
    col(name.to_string())
}

#[test]
fn lit_is_a_string_constant() {
    let made = Expr::lit("hello".to_string());
    assert!(made.has_value());
    assert_eq!(made.value(), constant("hello"));
    assert_eq!(Expr::lit(String::new()).value(), constant(""));
}

#[test]
fn col_refers_to_a_column() {
    assert_eq!(handle("a").value(), column("a"));
    assert_ne!(handle("a").value(), constant("a"));
}

#[test]
fn col_folds_unquoted_names_and_splits_qualified_ones() {
    assert_eq!(handle("A").value(), column("a"));
    assert_eq!(handle("\"A\"").value(), column("A"));
    assert_eq!(handle("t.a").value(), EngineExpr::Column(Column::new(Some("t"), "a")));
}

#[test]
fn alias_wraps_the_expression() {
    let mut made = handle("a");
    made.alias("first".to_string());
    assert_eq!(made.value(), EngineExpr::Alias(boxed("a"), "first".to_string()));
}

#[test]
fn alias_hands_back_the_handle() {
    let mut made = handle("a");
    let chained = made.alias("first".to_string());
    assert_eq!(chained.value(), EngineExpr::Alias(boxed("a"), "first".to_string()));
}

#[test]
fn unalias_removes_one_alias() {
    let mut made = handle("a");
    made.alias("first".to_string());
    made.unalias();
    assert_eq!(made.value(), column("a"));
    // Nothing to remove: the expression stays.
    made.unalias();
    assert_eq!(made.value(), column("a"));
    let mut twice = handle("a");
    twice.alias("first".to_string());
    twice.alias("second".to_string());
    twice.unalias();
    assert_eq!(twice.value(), EngineExpr::Alias(boxed("a"), "first".to_string()));
}

#[test]
fn unalias_after_alias_restores_the_display_form() {
    let mut sum_of = sum(&handle("a"));
    let before = sum_of.value();
    let shown = before.display_name().unwrap();
    sum_of.alias("total".to_string());
    assert_eq!(sum_of.value().display_name().unwrap(), "total");
    sum_of.unalias();
    assert_eq!(sum_of.value().display_name().unwrap(), shown);
    assert_eq!(shown, "SUM(a)");
    assert_eq!(sum_of.value(), before);
}

#[test]
fn unalias_after_alias_restores_a_sort_key() {
    let mut key = handle("a");
    key.sort(true, false);
    let before = key.value();
    key.alias("k".to_string());
    key.unalias();
    assert_eq!(key.value(), before);
}

#[test]
fn comparisons_and_arithmetic_build_binary_nodes() {
    let mut made = handle("a");
    made.lt_eq(&handle("b"));
    assert_eq!(made.value(), binary(column("a"), EngineOperator::LtEq, column("b")));

    let mut made = handle("a");
    made.and(&handle("b"));
    assert_eq!(made.value(), binary(column("a"), EngineOperator::And, column("b")));

    let mut made = handle("a");
    made.or(&handle("b"));
    assert_eq!(made.value(), binary(column("a"), EngineOperator::Or, column("b")));

    let mut made = handle("a");
    made.modulus(&handle("b"));
    assert_eq!(made.value(), binary(column("a"), EngineOperator::Modulo, column("b")));
}

#[test]
fn binary_method_does_not_touch_its_operand() {
    let operand = handle("b");
    let mut made = handle("a");
    made.and(&operand);
    made.or(&operand);
    assert_eq!(operand.value(), column("b"));
    assert_eq!(
        made.value(),
        binary(
            binary(column("a"), EngineOperator::And, column("b")),
            EngineOperator::Or,
            column("b")
        )
    );
}

#[test]
fn not_wraps_or_flips() {
    let mut made = handle("a");
    made.not();
    assert_eq!(made.value(), EngineExpr::Not(boxed("a")));

    let mut pattern = handle("a");
    pattern.like(&Expr::lit("x%".to_string()));
    pattern.not();
    assert_eq!(
        pattern.value(),
        EngineExpr::Like(Like::new(true, boxed("a"), Box::new(constant("x%")), None))
    );
    pattern.not();
    assert_eq!(
        pattern.value(),
        EngineExpr::Like(Like::new(false, boxed("a"), Box::new(constant("x%")), None))
    );

    let mut loose = handle("a");
    loose.not_ilike(&handle("b"));
    loose.not();
    assert_eq!(loose.value(), EngineExpr::ILike(Like::new(false, boxed("a"), boxed("b"), None)));
}

#[test]
fn pattern_matches() {
    let mut made = handle("a");
    made.like(&handle("b"));
    assert_eq!(made.value(), EngineExpr::Like(Like::new(false, boxed("a"), boxed("b"), None)));

    let mut made = handle("a");
    made.not_like(&handle("b"));
    assert_eq!(made.value(), EngineExpr::Like(Like::new(true, boxed("a"), boxed("b"), None)));

    let mut made = handle("a");
    made.ilike(&handle("b"));
    assert_eq!(made.value(), EngineExpr::ILike(Like::new(false, boxed("a"), boxed("b"), None)));

    let mut made = handle("a");
    made.not_ilike(&handle("b"));
    assert_eq!(made.value(), EngineExpr::ILike(Like::new(true, boxed("a"), boxed("b"), None)));
}

#[test]
fn in_list_method() {
    let one = Expr::lit("1".to_string());
    let two = Expr::lit("2".to_string());
    let mut made = handle("a");
    made.in_list(vec![&one, &two], false);
    assert_eq!(
        made.value(),
        EngineExpr::InList { expr: boxed("a"), list: vec![constant("1"), constant("2")], negated: false }
    );
    let mut negated = handle("a");
    negated.in_list(vec![&two], true);
    assert_eq!(
        negated.value(),
        EngineExpr::InList { expr: boxed("a"), list: vec![constant("2")], negated: true }
    );
    let mut empty = handle("a");
    empty.in_list(vec![], false);
    assert_eq!(empty.value(), EngineExpr::InList { expr: boxed("a"), list: vec![], negated: false });
}

#[test]
fn null_and_truth_predicates() {
    let mut made = handle("a");
    made.is_null();
    assert_eq!(made.value(), EngineExpr::IsNull(boxed("a")));
    let mut made = handle("a");
    made.is_not_null();
    assert_eq!(made.value(), EngineExpr::IsNotNull(boxed("a")));
    let mut made = handle("a");
    made.is_true();
    assert_eq!(made.value(), EngineExpr::IsTrue(boxed("a")));
    let mut made = handle("a");
    made.is_not_true();
    assert_eq!(made.value(), EngineExpr::IsNotTrue(boxed("a")));
    let mut made = handle("a");
    made.is_false();
    assert_eq!(made.value(), EngineExpr::IsFalse(boxed("a")));
    let mut made = handle("a");
    made.is_not_false();
    assert_eq!(made.value(), EngineExpr::IsNotFalse(boxed("a")));
    let mut made = handle("a");
    made.is_unknown();
    assert_eq!(made.value(), EngineExpr::IsUnknown(boxed("a")));
    let mut made = handle("a");
    made.is_not_unknown();
    assert_eq!(made.value(), EngineExpr::IsNotUnknown(boxed("a")));
}

#[test]
fn sort_annotates_direction_and_nulls() {
    for (asc, nulls_first) in [(true, true), (true, false), (false, true), (false, false)] {
        let mut made = handle("a");
        made.sort(asc, nulls_first);
        assert_eq!(made.value(), EngineExpr::Sort(Sort::new(boxed("a"), asc, nulls_first)));
    }
}

#[test]
fn chained_methods_nest() {
    let mut made = handle("a");
    made.is_null();
    made.not();
    made.alias("n".to_string());
    assert_eq!(
        made.value(),
        EngineExpr::Alias(
            Box::new(EngineExpr::Not(Box::new(EngineExpr::IsNull(boxed("a"))))),
            "n".to_string()
        )
    );
}

#[test]
fn clone_copies_the_expression() {
    let source = handle("a");
    let mut copy = source.clone();
    copy.is_null();
    assert_eq!(source.value(), column("a"));
    assert_eq!(copy.value(), EngineExpr::IsNull(boxed("a")));
}

#[test]
fn values_reads_the_handles_in_order() {
    let a = handle("a");
    let b = handle("b");
    assert_eq!(values(&vec![&a, &b, &a]), vec![column("a"), column("b"), column("a")]);
    assert_eq!(values(&vec![]), Vec::<EngineExpr>::new());
    assert_eq!(
        value_rows(&vec![vec![&a], vec![], vec![&b, &a]]),
        vec![vec![column("a")], vec![], vec![column("b"), column("a")]]
    );
}

#[test]
fn binary_expr_uses_the_operator() {
    let made = binary_expr(&handle("a"), Operator::Plus, &handle("b"));
    assert_eq!(made.value(), binary(column("a"), EngineOperator::Plus, column("b")));
    let made = binary_expr(&handle("a"), Operator::StringConcat, &Expr::lit("!".to_string()));
    assert_eq!(made.value(), binary(column("a"), EngineOperator::StringConcat, constant("!")));
    assert_eq!(format!("{}", made.value()), "a || Utf8(\"!\")");
}

#[test]
fn free_and_or_agree_with_the_methods() {
    let made = and(&handle("a"), &handle("b"));
    assert_eq!(made.value(), binary(column("a"), EngineOperator::And, column("b")));
    let mut chained = handle("a");
    chained.and(&handle("b"));
    assert_eq!(made.value(), chained.value());

    let made = or(&handle("a"), &handle("b"));
    assert_eq!(made.value(), binary(column("a"), EngineOperator::Or, column("b")));
    let mut chained = handle("a");
    chained.or(&handle("b"));
    assert_eq!(made.value(), chained.value());
}

#[test]
fn aggregates_of_one_argument() {
    assert_eq!(min(&handle("a")).value(), aggregate(Kind::Min, vec![column("a")], false));
    assert_eq!(max(&handle("a")).value(), aggregate(Kind::Max, vec![column("a")], false));
    assert_eq!(sum(&handle("a")).value(), aggregate(Kind::Sum, vec![column("a")], false));
    assert_eq!(avg(&handle("a")).value(), aggregate(Kind::Avg, vec![column("a")], false));
    assert_eq!(count(&handle("a")).value(), aggregate(Kind::Count, vec![column("a")], false));
    assert_eq!(count_distinct(&handle("a")).value(), aggregate(Kind::Count, vec![column("a")], true));
    assert_eq!(
        approx_distinct(&handle("a")).value(),
        aggregate(Kind::ApproxDistinct, vec![column("a")], false)
    );
    assert_eq!(
        approx_median(&handle("a")).value(),
        aggregate(Kind::ApproxMedian, vec![column("a")], false)
    );
}

#[test]
fn percentile_aggregates_keep_the_argument_order() {
    let p = Expr::lit("0.5".to_string());
    assert_eq!(
        approx_percentile_cont(&handle("a"), &p).value(),
        aggregate(Kind::ApproxPercentileCont, vec![column("a"), constant("0.5")], false)
    );
    assert_eq!(
        approx_percentile_cont_with_weight(&handle("a"), &handle("w"), &p).value(),
        aggregate(
            Kind::ApproxPercentileContWithWeight,
            vec![column("a"), column("w"), constant("0.5")],
            false
        )
    );
}

#[test]
fn in_list_function() {
    let one = Expr::lit("1".to_string());
    let made = in_list(&handle("a"), vec![&one, &handle("b")], true);
    assert_eq!(
        made.value(),
        EngineExpr::InList { expr: boxed("a"), list: vec![constant("1"), column("b")], negated: true }
    );
    let mut chained = handle("a");
    chained.in_list(vec![&one, &handle("b")], true);
    assert_eq!(made.value(), chained.value());
}

#[test]
fn concat_keeps_the_arguments_in_order() {
    let made = plan_builder::expr::concat(vec![&handle("a"), &Expr::lit("-".to_string()), &handle("b")]);
    assert_eq!(
        made.value(),
        EngineExpr::ScalarFunction {
            fun: BuiltinScalarFunction::Concat,
            args: vec![column("a"), constant("-"), column("b")],
        }
    );
    assert_eq!(
        plan_builder::expr::concat(vec![]).value(),
        EngineExpr::ScalarFunction { fun: BuiltinScalarFunction::Concat, args: vec![] }
    );
}

#[test]
fn concat_ws_puts_the_separator_first() {
    let made = concat_ws(&Expr::lit(", ".to_string()), vec![&handle("a"), &handle("b")]);
    assert_eq!(
        made.value(),
        EngineExpr::ScalarFunction {
            fun: BuiltinScalarFunction::ConcatWithSeparator,
            args: vec![constant(", "), column("a"), column("b")],
        }
    );
}

#[test]
fn random_takes_no_arguments() {
    assert_eq!(
        random().value(),
        EngineExpr::ScalarFunction { fun: BuiltinScalarFunction::Random, args: vec![] }
    );
}

#[test]
fn grouping_constructs() {
    let a = handle("a");
    let b = handle("b");
    assert_eq!(
        grouping_set(vec![vec![&a, &b], vec![&a], vec![]]).value(),
        EngineExpr::GroupingSet(GroupingSet::GroupingSets(vec![
            vec![column("a"), column("b")],
            vec![column("a")],
            vec![],
        ]))
    );
    assert_eq!(
        cube(vec![&a, &b]).value(),
        EngineExpr::GroupingSet(GroupingSet::Cube(vec![column("a"), column("b")]))
    );
    assert_eq!(
        rollup(vec![&b, &a]).value(),
        EngineExpr::GroupingSet(GroupingSet::Rollup(vec![column("b"), column("a")]))
    );
}

#[test]
fn free_predicates() {
    assert_eq!(is_null(&handle("a")).value(), EngineExpr::IsNull(boxed("a")));
    assert_eq!(is_true(&handle("a")).value(), EngineExpr::IsTrue(boxed("a")));
    assert_eq!(is_not_true(&handle("a")).value(), EngineExpr::IsNotTrue(boxed("a")));
    assert_eq!(is_false(&handle("a")).value(), EngineExpr::IsFalse(boxed("a")));
    assert_eq!(is_not_false(&handle("a")).value(), EngineExpr::IsNotFalse(boxed("a")));
    assert_eq!(is_unknown(&handle("a")).value(), EngineExpr::IsUnknown(boxed("a")));
    assert_eq!(is_not_unknown(&handle("a")).value(), EngineExpr::IsNotUnknown(boxed("a")));
}

#[test]
fn free_functions_do_not_touch_their_operands() {
    let a = handle("a");
    let b = handle("b");
    let _ = and(&a, &b);
    let _ = sum(&a);
    let _ = plan_builder::expr::concat(vec![&a, &b]);
    assert_eq!(a.value(), column("a"));
    assert_eq!(b.value(), column("b"));
}

#[test]
fn operators_translate_one_to_one() {
    let pairs = [
        (Operator::Eq, EngineOperator::Eq),
        (Operator::NotEq, EngineOperator::NotEq),
        (Operator::Lt, EngineOperator::Lt),
        (Operator::LtEq, EngineOperator::LtEq),
        (Operator::Gt, EngineOperator::Gt),
        (Operator::GtEq, EngineOperator::GtEq),
        (Operator::Plus, EngineOperator::Plus),
        (Operator::Minus, EngineOperator::Minus),
        (Operator::Multiply, EngineOperator::Multiply),
        (Operator::Divide, EngineOperator::Divide),
        (Operator::Modulo, EngineOperator::Modulo),
        (Operator::And, EngineOperator::And),
        (Operator::Or, EngineOperator::Or),
        (Operator::IsDistinctFrom, EngineOperator::IsDistinctFrom),
        (Operator::IsNotDistinctFrom, EngineOperator::IsNotDistinctFrom),
        (Operator::RegexMatch, EngineOperator::RegexMatch),
        (Operator::RegexIMatch, EngineOperator::RegexIMatch),
        (Operator::RegexNotMatch, EngineOperator::RegexNotMatch),
        (Operator::RegexNotIMatch, EngineOperator::RegexNotIMatch),
        (Operator::BitwiseAnd, EngineOperator::BitwiseAnd),
        (Operator::BitwiseOr, EngineOperator::BitwiseOr),
        (Operator::BitwiseXor, EngineOperator::BitwiseXor),
        (Operator::BitwiseShiftRight, EngineOperator::BitwiseShiftRight),
        (Operator::BitwiseShiftLeft, EngineOperator::BitwiseShiftLeft),
        (Operator::StringConcat, EngineOperator::StringConcat),
    ];
    for (ours, theirs) in pairs {
        assert_eq!(EngineOperator::from(ours), theirs);
        let made = binary_expr(&handle("a"), ours, &handle("b"));
        assert_eq!(made.value(), binary(column("a"), theirs, column("b")));
    }
    for (i, (_, left)) in pairs.iter().enumerate() {
        for (j, (_, right)) in pairs.iter().enumerate() {
            assert_eq!(i == j, left == right);
        }
    }
}
