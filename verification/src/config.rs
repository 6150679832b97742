//! Tier configuration: the merchant-tunable thresholds and percentages,
//! their built-in defaults, and the resolver that decodes a raw metafield
//! value and falls back to the defaults on any decode failure.

use vstd::prelude::*;

use crate::decimal::{amount_of_text, count_of_text, parse_amount, parse_count};

verus! {

/// The merchant-tunable rule parameters. Counts are plain numbers;
/// amounts and percentages are in hundredths (see `crate::decimal`):
/// `order_threshold_1 == 10000` means a subtotal of `100`, and
/// `quantity_discount_percentage == 500` means `5` percent.
#[derive(Clone, Copy, Debug, PartialEq, Eq, Structural)]
pub struct TieredDiscountConfig {
    /// Minimum line quantity to trigger the per-line discount.
    pub quantity_threshold: u64,
    /// Percentage off a qualifying line, in hundredths of a percent.
    pub quantity_discount_percentage: u64,
    /// Minimum subtotal to trigger the order discount, in hundredths.
    pub order_threshold_1: u64,
    /// Percentage off the order subtotal, in hundredths of a percent.
    pub order_discount_percentage_1: u64,
    /// Minimum subtotal to trigger free shipping, in hundredths.
    pub free_shipping_threshold: u64,
}

/// The built-in default configuration: quantity threshold 2 at 5% off,
/// order threshold 100 at 10% off, free shipping from 200.
pub open spec fn spec_default_config() -> TieredDiscountConfig {
    TieredDiscountConfig {
        quantity_threshold: 2,
        quantity_discount_percentage: 500,
        order_threshold_1: 10000,
        order_discount_percentage_1: 1000,
        free_shipping_threshold: 20000,
    }
}

impl Default for TieredDiscountConfig {
    /// The built-in default configuration.
    fn default() -> (c: Self)
        ensures
            c == spec_default_config(),
    {
        TieredDiscountConfig {
            quantity_threshold: 2,
            quantity_discount_percentage: 500,
            order_threshold_1: 10000,
            order_discount_percentage_1: 1000,
            free_shipping_threshold: 20000,
        }
    }
}

/// The source text of the number held by the named field of the JSON
/// object that the text denotes: `Some` exactly when the text is valid
/// JSON, its top level is an object, the field is present and its value
/// is a JSON number; `None` otherwise.
pub uninterp spec fn json_number_text(s: Seq<char>, key: Seq<char>) -> Option<Seq<char>>;

/// Relies on serde_json: `from_str::<Value>` accepts exactly the valid
/// JSON texts, `Value::get` on a `&str` key returns the named member of
/// an object and `None` for any other value, and `Number::as_str` (under
/// the `arbitrary_precision` feature) returns the number's source text.
/// All of these depend on the input text alone.
#[verifier::external_body]
fn json_number_field(s: &str, key: &str) -> (r: Option<String>)
    ensures
        match r {
            None => json_number_text(s@, key@) is None,
            Some(t) => json_number_text(s@, key@) == Some(t@),
        },
{
    let v: serde_json::Value = serde_json::from_str(s).ok()?;
    Some(v.get(key)?.as_number()?.as_str().to_string())
}

/// The count denoted by the named field of the JSON text: the field's
/// number read as a count, when it is one.
pub open spec fn count_field(s: Seq<char>, key: Seq<char>) -> Option<u64> {
    match json_number_text(s, key) {
        None => None,
        Some(t) => count_of_text(t),
    }
}

/// The amount in hundredths denoted by the named field of the JSON text:
/// the field's number read as an amount, when it is one.
pub open spec fn amount_field(s: Seq<char>, key: Seq<char>) -> Option<u64> {
    match json_number_text(s, key) {
        None => None,
        Some(t) => amount_of_text(t),
    }
}

/// The configuration denoted by a raw metafield text: `Some` exactly
/// when every one of the five fields is present as a JSON number,
/// `quantity_threshold` reads as a count and the four others read as
/// amounts in hundredths; an incomplete payload is a decode failure,
/// not a partial override.
pub open spec fn spec_decoded_config(s: Seq<char>) -> Option<TieredDiscountConfig> {
    let qt = count_field(s, "quantity_threshold"@);
    let qdp = amount_field(s, "quantity_discount_percentage"@);
    let ot1 = amount_field(s, "order_threshold_1"@);
    let odp1 = amount_field(s, "order_discount_percentage_1"@);
    let fst = amount_field(s, "free_shipping_threshold"@);
    if qt is Some && qdp is Some && ot1 is Some && odp1 is Some && fst is Some {
        Some(
            TieredDiscountConfig {
                quantity_threshold: qt->0,
                quantity_discount_percentage: qdp->0,
                order_threshold_1: ot1->0,
                order_discount_percentage_1: odp1->0,
                free_shipping_threshold: fst->0,
            },
        )
    } else {
        None
    }
}

/// Reads one count field of the JSON text.
fn decode_count_field(s: &str, key: &str) -> (r: Option<u64>)
    ensures
        r == count_field(s@, key@),
{
    match json_number_field(s, key) {
        None => None,
        Some(t) => parse_count(t.as_str()),
    }
}

/// Reads one amount field of the JSON text.
fn decode_amount_field(s: &str, key: &str) -> (r: Option<u64>)
    ensures
        r == amount_field(s@, key@),
{
    match json_number_field(s, key) {
        None => None,
        Some(t) => parse_amount(t.as_str()),
    }
}

/// Decodes a raw metafield text as a configuration, per
/// `spec_decoded_config`.
pub fn decode_config(s: &str) -> (r: Option<TieredDiscountConfig>)
    ensures
        r == spec_decoded_config(s@),
{
    let qt = match decode_count_field(s, "quantity_threshold") {
        None => {
            return None;
        },
        Some(v) => v,
    };
    let qdp = match decode_amount_field(s, "quantity_discount_percentage") {
        None => {
            return None;
        },
        Some(v) => v,
    };
    let ot1 = match decode_amount_field(s, "order_threshold_1") {
        None => {
            return None;
        },
        Some(v) => v,
    };
    let odp1 = match decode_amount_field(s, "order_discount_percentage_1") {
        None => {
            return None;
        },
        Some(v) => v,
    };
    let fst = match decode_amount_field(s, "free_shipping_threshold") {
        None => {
            return None;
        },
        Some(v) => v,
    };
    Some(
        TieredDiscountConfig {
            quantity_threshold: qt,
            quantity_discount_percentage: qdp,
            order_threshold_1: ot1,
            order_discount_percentage_1: odp1,
            free_shipping_threshold: fst,
        },
    )
}

/// The view of an optional raw metafield value.
pub open spec fn metafield_view(m: Option<&str>) -> Option<Seq<char>> {
    match m {
        None => None,
        Some(s) => Some(s@),
    }
}

/// The effective configuration for an invocation: the decoded metafield
/// value when one is supplied and decodes, the built-in defaults when
/// none is supplied or the decode fails. Total: every input yields a
/// fully-populated configuration, never an error.
pub open spec fn spec_resolved_config(m: Option<Seq<char>>) -> TieredDiscountConfig {
    match m {
        None => spec_default_config(),
        Some(s) => match spec_decoded_config(s) {
            None => spec_default_config(),
            Some(c) => c,
        },
    }
}

/// Resolves the effective configuration from an optional raw metafield
/// value, falling back to the defaults on absence or decode failure.
pub fn resolve_config(m: Option<&str>) -> (c: TieredDiscountConfig)
    ensures
        c == spec_resolved_config(metafield_view(m)),
{
    match m {
        None => TieredDiscountConfig::default(),
        Some(s) => match decode_config(s) {
            None => TieredDiscountConfig::default(),
            Some(c) => c,
        },
    }
}

} // verus!
