use tiered_discounts::config::{decode_config, resolve_config, TieredDiscountConfig};

fn default_config() -> TieredDiscountConfig {
    TieredDiscountConfig::default()
}

#[test]
fn absent_metafield_resolves_to_defaults() {
    assert_eq!(resolve_config(None), default_config());
}

#[test]
fn valid_payload_decodes_verbatim() {
    let raw = "{\"quantity_threshold\": 4, \"quantity_discount_percentage\": 2.5, \"order_threshold_1\": 99.99, \"order_discount_percentage_1\": 20, \"free_shipping_threshold\": 0.25}";
    let c = resolve_config(Some(raw));
    assert_eq!(c.quantity_threshold, 4);
    assert_eq!(c.quantity_discount_percentage, 250);
    assert_eq!(c.order_threshold_1, 9999);
    assert_eq!(c.order_discount_percentage_1, 2000);
    assert_eq!(c.free_shipping_threshold, 25);
}

#[test]
fn unknown_fields_are_ignored() {
    let raw = "{\"quantity_threshold\": 1, \"quantity_discount_percentage\": 1, \"order_threshold_1\": 1, \"order_discount_percentage_1\": 1, \"free_shipping_threshold\": 1, \"note\": \"extra\"}";
    let c = resolve_config(Some(raw));
    assert_eq!(c.quantity_threshold, 1);
    assert_eq!(c.free_shipping_threshold, 100);
}

#[test]
fn malformed_text_resolves_to_defaults() {
    assert_eq!(resolve_config(Some("{half an object")), default_config());
    assert_eq!(resolve_config(Some("")), default_config());
    assert_eq!(resolve_config(Some("[1, 2, 3]")), default_config());
}

#[test]
fn missing_field_resolves_to_defaults() {
    let raw = "{\"quantity_threshold\": 4, \"quantity_discount_percentage\": 2.5, \"order_threshold_1\": 99.99, \"order_discount_percentage_1\": 20}";
    assert_eq!(resolve_config(Some(raw)), default_config());
}

#[test]
fn wrongly_typed_field_resolves_to_defaults() {
    let raw = "{\"quantity_threshold\": \"4\", \"quantity_discount_percentage\": 2.5, \"order_threshold_1\": 99.99, \"order_discount_percentage_1\": 20, \"free_shipping_threshold\": 0.25}";
    assert_eq!(resolve_config(Some(raw)), default_config());
}

#[test]
fn fractional_quantity_threshold_resolves_to_defaults() {
    let raw = "{\"quantity_threshold\": 2.5, \"quantity_discount_percentage\": 2.5, \"order_threshold_1\": 99.99, \"order_discount_percentage_1\": 20, \"free_shipping_threshold\": 0.25}";
    assert_eq!(resolve_config(Some(raw)), default_config());
}

#[test]
fn negative_field_resolves_to_defaults() {
    let raw = "{\"quantity_threshold\": -1, \"quantity_discount_percentage\": 2.5, \"order_threshold_1\": 99.99, \"order_discount_percentage_1\": 20, \"free_shipping_threshold\": 0.25}";
    assert_eq!(resolve_config(Some(raw)), default_config());
}

#[test]
fn sub_hundredth_amount_resolves_to_defaults() {
    let raw = "{\"quantity_threshold\": 2, \"quantity_discount_percentage\": 5.125, \"order_threshold_1\": 100, \"order_discount_percentage_1\": 10, \"free_shipping_threshold\": 200}";
    assert_eq!(resolve_config(Some(raw)), default_config());
}

#[test]
fn trailing_zeros_beyond_hundredths_decode() {
    let raw = "{\"quantity_threshold\": 2, \"quantity_discount_percentage\": 5.1200, \"order_threshold_1\": 100.00, \"order_discount_percentage_1\": 10.0, \"free_shipping_threshold\": 200}";
    let c = resolve_config(Some(raw));
    assert_eq!(c.quantity_discount_percentage, 512);
    assert_eq!(c.order_threshold_1, 10000);
    assert_eq!(c.order_discount_percentage_1, 1000);
}

#[test]
fn resolution_is_idempotent_on_any_input() {
    let inputs: [Option<&str>; 4] = [
        None,
        Some("garbage"),
        Some("{\"quantity_threshold\": 4}"),
        Some("{\"quantity_threshold\": 4, \"quantity_discount_percentage\": 2.5, \"order_threshold_1\": 99.99, \"order_discount_percentage_1\": 20, \"free_shipping_threshold\": 0.25}"),
    ];
    for m in inputs {
        assert_eq!(resolve_config(m), resolve_config(m));
    }
}

#[test]
fn decode_config_reports_failure_and_success() {
    assert!(decode_config("{}").is_none());
    let raw = "{\"quantity_threshold\": 0, \"quantity_discount_percentage\": 0, \"order_threshold_1\": 0, \"order_discount_percentage_1\": 0, \"free_shipping_threshold\": 0}";
    let c = decode_config(raw).expect("a complete payload decodes");
    assert_eq!(c.quantity_threshold, 0);
    assert_eq!(c.order_threshold_1, 0);
}
