use tiered_discounts::config::TieredDiscountConfig;
use tiered_discounts::delivery_discounts::{
    cart_delivery_options_discounts_generate_run, evaluate_shipping, DeliveryGroup,
};
use tiered_discounts::line_discounts::{
    cart_lines_discounts_generate_run, evaluate_lines, evaluate_order, CartLine,
};
use tiered_discounts::operations::{CartOperation, DeliveryOperation, DiscountClass, SelectionStrategy};

fn line(id: &str, quantity: u64) -> CartLine {
    CartLine { id: id.to_string(), quantity }
}

fn group(id: &str) -> DeliveryGroup {
    DeliveryGroup { id: id.to_string() }
}

#[test]
fn shipping_discount_on_first_delivery_group() {
    let groups = vec![group("dg1")];
    let classes = vec![DiscountClass::Shipping];
    let r = cart_delivery_options_discounts_generate_run(&groups, 25000, &classes, None);
    let ops = r.expect("eligible cart with a delivery group must succeed");
    assert_eq!(ops.len(), 1);
    let DeliveryOperation::DeliveryDiscountsAdd(op) = &ops[0];
    assert_eq!(op.delivery_group_id, "dg1");
    assert_eq!(op.percentage, 10000);
    assert_eq!(op.message, "FREE SHIPPING - Spend $200+");
    assert!(matches!(op.selection_strategy, SelectionStrategy::All));
}

#[test]
fn shipping_discount_without_delivery_groups_is_an_error() {
    let groups: Vec<DeliveryGroup> = vec![];
    let classes = vec![DiscountClass::Shipping];
    let r = cart_delivery_options_discounts_generate_run(&groups, 25000, &classes, None);
    let e = r.expect_err("eligible cart without delivery groups must fail");
    assert_eq!(e.message(), "No delivery groups found");
}

#[test]
fn shipping_discount_below_threshold_is_empty() {
    let groups = vec![group("dg1")];
    let classes = vec![DiscountClass::Shipping];
    let r = cart_delivery_options_discounts_generate_run(&groups, 19999, &classes, None);
    assert_eq!(r.expect("below threshold is no operation, not an error").len(), 0);
}

#[test]
fn shipping_discount_triggers_on_exact_threshold() {
    let groups = vec![group("dg1")];
    let classes = vec![DiscountClass::Shipping];
    let r = cart_delivery_options_discounts_generate_run(&groups, 20000, &classes, None);
    assert_eq!(r.expect("boundary equality triggers").len(), 1);
}

#[test]
fn product_discount_on_qualifying_lines_only() {
    let lines = vec![line("l1", 1), line("l2", 3)];
    let classes = vec![DiscountClass::Product, DiscountClass::Order];
    let ops = cart_lines_discounts_generate_run(&lines, 5000, &classes, None);
    assert_eq!(ops.len(), 1);
    match &ops[0] {
        CartOperation::ProductDiscountsAdd(op) => {
            assert_eq!(op.line_id, "l2");
            assert_eq!(op.percentage, 500);
            assert_eq!(op.message, "5% OFF - Buy 2 or more");
            assert!(matches!(op.selection_strategy, SelectionStrategy::First));
        },
        CartOperation::OrderDiscountsAdd(_) => panic!("subtotal 50 is below the order threshold"),
    }
}

#[test]
fn malformed_config_falls_back_to_defaults() {
    let lines: Vec<CartLine> = vec![];
    let classes = vec![DiscountClass::Order];
    let ops = cart_lines_discounts_generate_run(&lines, 15000, &classes, Some("not json"));
    assert_eq!(ops.len(), 1);
    match &ops[0] {
        CartOperation::OrderDiscountsAdd(op) => {
            assert_eq!(op.percentage, 1000);
            assert_eq!(op.message, "10% OFF ORDER - Spend $100+");
            assert!(op.excluded_cart_line_ids.is_empty());
            assert!(matches!(op.selection_strategy, SelectionStrategy::First));
        },
        CartOperation::ProductDiscountsAdd(_) => panic!("Product class is not active"),
    }
}

#[test]
fn no_active_classes_yields_empty_results() {
    let lines = vec![line("l1", 5)];
    let groups = vec![group("dg1")];
    let classes: Vec<DiscountClass> = vec![];
    let ops = cart_lines_discounts_generate_run(&lines, 99000, &classes, None);
    assert_eq!(ops.len(), 0);
    let r = cart_delivery_options_discounts_generate_run(&groups, 99000, &classes, None);
    assert_eq!(r.expect("no shipping class is no operation").len(), 0);
}

#[test]
fn order_discount_triggers_on_exact_threshold() {
    let lines: Vec<CartLine> = vec![];
    let classes = vec![DiscountClass::Order];
    let at = cart_lines_discounts_generate_run(&lines, 10000, &classes, None);
    assert_eq!(at.len(), 1);
    let below = cart_lines_discounts_generate_run(&lines, 9999, &classes, None);
    assert_eq!(below.len(), 0);
}

#[test]
fn product_and_order_discounts_in_fixed_order() {
    let lines = vec![line("a", 2), line("b", 1), line("c", 7)];
    let classes = vec![DiscountClass::Order, DiscountClass::Product];
    let ops = cart_lines_discounts_generate_run(&lines, 10000, &classes, None);
    assert_eq!(ops.len(), 3);
    match &ops[0] {
        CartOperation::ProductDiscountsAdd(op) => assert_eq!(op.line_id, "a"),
        _ => panic!("line discounts come first, in line order"),
    }
    match &ops[1] {
        CartOperation::ProductDiscountsAdd(op) => assert_eq!(op.line_id, "c"),
        _ => panic!("line discounts come first, in line order"),
    }
    assert!(matches!(&ops[2], CartOperation::OrderDiscountsAdd(_)));
}

#[test]
fn product_rule_gated_by_product_class() {
    let lines = vec![line("l1", 9)];
    let classes = vec![DiscountClass::Order];
    let ops = cart_lines_discounts_generate_run(&lines, 0, &classes, None);
    assert_eq!(ops.len(), 0);
}

#[test]
fn decoded_config_drives_both_entry_points() {
    let raw = "{\"quantity_threshold\": 3, \"quantity_discount_percentage\": 7.5, \"order_threshold_1\": 150, \"order_discount_percentage_1\": 12.25, \"free_shipping_threshold\": 300.5}";
    let lines = vec![line("l1", 2), line("l2", 3)];
    let classes = vec![DiscountClass::Product, DiscountClass::Order];
    let ops = cart_lines_discounts_generate_run(&lines, 15000, &classes, Some(raw));
    assert_eq!(ops.len(), 2);
    match &ops[0] {
        CartOperation::ProductDiscountsAdd(op) => {
            assert_eq!(op.line_id, "l2");
            assert_eq!(op.percentage, 750);
            assert_eq!(op.message, "7.5% OFF - Buy 3 or more");
        },
        _ => panic!("the qualifying line comes first"),
    }
    match &ops[1] {
        CartOperation::OrderDiscountsAdd(op) => {
            assert_eq!(op.percentage, 1225);
            assert_eq!(op.message, "12.25% OFF ORDER - Spend $150+");
        },
        _ => panic!("the order discount comes last"),
    }

    let groups = vec![group("dg9")];
    let shipping = vec![DiscountClass::Shipping];
    let below = cart_delivery_options_discounts_generate_run(&groups, 30000, &shipping, Some(raw));
    assert_eq!(below.expect("a subtotal of 300 is below 300.5").len(), 0);
    let at = cart_delivery_options_discounts_generate_run(&groups, 30050, &shipping, Some(raw));
    let ops = at.expect("at the configured threshold");
    assert_eq!(ops.len(), 1);
    let DeliveryOperation::DeliveryDiscountsAdd(op) = &ops[0];
    assert_eq!(op.message, "FREE SHIPPING - Spend $300.5+");
}

#[test]
fn evaluate_lines_emits_one_discount_per_qualifying_line() {
    let config = TieredDiscountConfig::default();
    let lines = vec![line("a", 2), line("b", 1), line("c", 2)];
    let ops = evaluate_lines(&lines, &config);
    assert_eq!(ops.len(), 2);
    match &ops[1] {
        CartOperation::ProductDiscountsAdd(op) => assert_eq!(op.line_id, "c"),
        _ => panic!("the per-line rule emits product discounts only"),
    }
}

#[test]
fn evaluate_order_triggers_iff_threshold_reached() {
    let config = TieredDiscountConfig::default();
    assert!(evaluate_order(9999, &config).is_none());
    let op = evaluate_order(10000, &config).expect("boundary equality triggers");
    match op {
        CartOperation::OrderDiscountsAdd(o) => assert_eq!(o.percentage, 1000),
        _ => panic!("the order rule emits an order discount"),
    }
}

#[test]
fn evaluate_shipping_distinguishes_skip_and_error() {
    let config = TieredDiscountConfig::default();
    let dg = group("dg1");
    let skipped = evaluate_shipping(25000, &config, false, Some(&dg));
    assert!(skipped.expect("inactive class is no operation").is_none());
    let below = evaluate_shipping(19999, &config, true, Some(&dg));
    assert!(below.expect("below threshold is no operation").is_none());
    assert!(evaluate_shipping(20000, &config, true, None).is_err());
    let op = evaluate_shipping(20000, &config, true, Some(&dg))
        .expect("eligible with a group succeeds")
        .expect("eligible with a group emits the discount");
    let DeliveryOperation::DeliveryDiscountsAdd(d) = op;
    assert_eq!(d.delivery_group_id, "dg1");
    assert_eq!(d.percentage, 10000);
}

#[test]
fn default_config_has_documented_values() {
    let c = TieredDiscountConfig::default();
    assert_eq!(c.quantity_threshold, 2);
    assert_eq!(c.quantity_discount_percentage, 500);
    assert_eq!(c.order_threshold_1, 10000);
    assert_eq!(c.order_discount_percentage_1, 1000);
    assert_eq!(c.free_shipping_threshold, 20000);
}
