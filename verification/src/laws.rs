//! Laws of the discount engine, stated over the specification functions
//! the entry points' contracts use, and proved once for all inputs.

use vstd::prelude::*;

use crate::config::{
    spec_decoded_config, spec_default_config, spec_resolved_config, TieredDiscountConfig,
};
use crate::delivery_discounts::{
    spec_delivery_operations, spec_shipping_op, DeliveryGroupModel, NoDeliveryGroupsError,
};
use crate::line_discounts::{
    spec_cart_operations, spec_line_qualifies, spec_order_op, spec_product_op, spec_product_ops,
    CartLineModel,
};
use crate::operations::{
    product_message, CartOperationModel, DeliveryOperationModel, DiscountClass, SelectionStrategy,
};

verus! {

/// Every operation of the per-line rule is a product discount that
/// carries exactly the configured percentage, the per-line message and
/// the "first" selection strategy.
pub proof fn lemma_product_ops_shape(lines: Seq<CartLineModel>, config: TieredDiscountConfig)
    ensures
        spec_product_ops(lines, config).len() <= lines.len(),
        forall|j: int|
            0 <= j < spec_product_ops(lines, config).len() ==> {
                let op = #[trigger] spec_product_ops(lines, config)[j];
                &&& op is ProductDiscountsAdd
                &&& op->ProductDiscountsAdd_0.percentage == config.quantity_discount_percentage
                &&& op->ProductDiscountsAdd_0.message == product_message(config)
                &&& op->ProductDiscountsAdd_0.selection_strategy == SelectionStrategy::First
            },
    decreases lines.len(),
{
    if lines.len() > 0 {
        lemma_product_ops_shape(lines.drop_last(), config);
    }
}

/// A line is discounted if its quantity reaches the quantity threshold:
/// the rule's output holds the product discount of every qualifying
/// line.
pub proof fn lemma_product_ops_complete(lines: Seq<CartLineModel>, config: TieredDiscountConfig)
    ensures
        forall|i: int|
            0 <= i < lines.len() && spec_line_qualifies(#[trigger] lines[i], config)
                ==> spec_product_ops(lines, config).contains(spec_product_op(lines[i], config)),
    decreases lines.len(),
{
    if lines.len() > 0 {
        lemma_product_ops_complete(lines.drop_last(), config);
        let ops = spec_product_ops(lines, config);
        let sub = spec_product_ops(lines.drop_last(), config);
        assert forall|i: int|
            0 <= i < lines.len() && spec_line_qualifies(#[trigger] lines[i], config) implies ops
            .contains(spec_product_op(lines[i], config)) by {
            if i < lines.len() - 1 {
                assert(lines.drop_last()[i] == lines[i]);
                let op = spec_product_op(lines[i], config);
                let k = choose|k: int| 0 <= k < sub.len() && sub[k] == op;
                assert(ops[k] == op);
            } else {
                assert(lines.last() == lines[i]);
                assert(ops[ops.len() - 1] == spec_product_op(lines[i], config));
            }
        }
    }
}

/// A line is discounted only if it qualifies: every operation of the
/// per-line rule is the product discount of some qualifying line.
pub proof fn lemma_product_ops_sound(lines: Seq<CartLineModel>, config: TieredDiscountConfig)
    ensures
        forall|j: int|
            0 <= j < spec_product_ops(lines, config).len() ==> exists|i: int|
                0 <= i < lines.len() && spec_line_qualifies(lines[i], config)
                    && #[trigger] spec_product_ops(lines, config)[j] == spec_product_op(
                    lines[i],
                    config,
                ),
    decreases lines.len(),
{
    if lines.len() > 0 {
        lemma_product_ops_sound(lines.drop_last(), config);
        let ops = spec_product_ops(lines, config);
        let sub = spec_product_ops(lines.drop_last(), config);
        assert forall|j: int| 0 <= j < ops.len() implies exists|i: int|
            0 <= i < lines.len() && spec_line_qualifies(lines[i], config) && #[trigger] ops[j]
                == spec_product_op(lines[i], config) by {
            if j < sub.len() {
                let i = choose|i: int|
                    0 <= i < lines.drop_last().len() && spec_line_qualifies(
                        lines.drop_last()[i],
                        config,
                    ) && sub[j] == spec_product_op(lines.drop_last()[i], config);
                assert(lines.drop_last()[i] == lines[i]);
                assert(ops[j] == spec_product_op(lines[i], config));
            } else {
                assert(spec_line_qualifies(lines.last(), config));
                assert(lines.last() == lines[lines.len() - 1]);
                assert(ops[j] == spec_product_op(lines[lines.len() - 1], config));
            }
        }
    }
}

/// The per-line rule emits exactly one operation per qualifying line:
/// the output is as long as the cart filtered to its qualifying lines.
pub proof fn lemma_product_ops_count(lines: Seq<CartLineModel>, config: TieredDiscountConfig)
    ensures
        spec_product_ops(lines, config).len() == lines.filter(
            |l: CartLineModel| spec_line_qualifies(l, config),
        ).len(),
    decreases lines.len(),
{
    reveal(Seq::filter);
    if lines.len() > 0 {
        lemma_product_ops_count(lines.drop_last(), config);
    }
}

/// The order rule triggers exactly on the spend threshold, boundary
/// included: the assembled operations hold an order discount if and only
/// if the Order class is active and the subtotal reaches
/// `order_threshold_1`.
pub proof fn lemma_order_discount_triggers_iff(
    lines: Seq<CartLineModel>,
    subtotal: u64,
    classes: Seq<DiscountClass>,
    metafield: Option<Seq<char>>,
)
    ensures
        ({
            let ops = spec_cart_operations(lines, subtotal, classes, metafield);
            let config = spec_resolved_config(metafield);
            (exists|j: int| 0 <= j < ops.len() && (#[trigger] ops[j]) is OrderDiscountsAdd)
                <==> (classes.contains(DiscountClass::Order) && subtotal
                >= config.order_threshold_1)
        }),
{
    let ops = spec_cart_operations(lines, subtotal, classes, metafield);
    let config = spec_resolved_config(metafield);
    let has_product = classes.contains(DiscountClass::Product);
    let has_order = classes.contains(DiscountClass::Order);
    lemma_product_ops_shape(lines, config);
    if has_order && subtotal >= config.order_threshold_1 {
        assert(ops[ops.len() - 1] == spec_order_op(config));
    } else {
        if has_product || has_order {
            let products = spec_product_ops(lines, config);
            assert(forall|j: int| 0 <= j < ops.len() ==> ops[j] == products[j]);
        }
    }
}

/// The shipping rule triggers exactly when the Shipping class is active
/// and the subtotal reaches the free-shipping threshold: then it emits
/// one discount on the first delivery group, or fails with the
/// structural error when the cart has none — never an empty list; when
/// it does not trigger, the result is the empty list, never an error.
pub proof fn lemma_shipping_triggers_iff(
    delivery_groups: Seq<DeliveryGroupModel>,
    subtotal: u64,
    classes: Seq<DiscountClass>,
    metafield: Option<Seq<char>>,
)
    ensures
        ({
            let r = spec_delivery_operations(delivery_groups, subtotal, classes, metafield);
            let config = spec_resolved_config(metafield);
            let triggered = classes.contains(DiscountClass::Shipping) && subtotal
                >= config.free_shipping_threshold;
            &&& (triggered && delivery_groups.len() > 0) <==> r == Ok::<
                _,
                NoDeliveryGroupsError,
            >(seq![spec_shipping_op(delivery_groups[0], config)])
            &&& (triggered && delivery_groups.len() == 0) <==> r is Err
            &&& !triggered <==> r == Ok::<Seq<DeliveryOperationModel>, NoDeliveryGroupsError>(
                Seq::<DeliveryOperationModel>::empty(),
            )
        }),
{
    let r = spec_delivery_operations(delivery_groups, subtotal, classes, metafield);
    let config = spec_resolved_config(metafield);
    let triggered = classes.contains(DiscountClass::Shipping) && subtotal
        >= config.free_shipping_threshold;
    let one = seq![spec_shipping_op(delivery_groups[0], config)];
    assert(one.len() == 1 && Seq::<DeliveryOperationModel>::empty().len() == 0);
    if triggered {
        if delivery_groups.len() > 0 {
            assert(r == Ok::<_, NoDeliveryGroupsError>(one));
        } else {
            assert(r is Err);
        }
    } else {
        assert(r == Ok::<Seq<DeliveryOperationModel>, NoDeliveryGroupsError>(
            Seq::<DeliveryOperationModel>::empty(),
        ));
    }
}

/// The configuration resolver is total and falls back to the defaults:
/// an absent metafield and a text that does not decode both yield the
/// built-in default configuration, and a text that decodes yields the
/// decoded configuration verbatim, with no partial merge. As a function
/// of the input text alone, resolution is idempotent: re-running it on
/// the same input yields the same configuration.
pub proof fn lemma_config_resolver_total(metafield: Option<Seq<char>>)
    ensures
        match metafield {
            None => spec_resolved_config(metafield) == spec_default_config(),
            Some(s) => match spec_decoded_config(s) {
                None => spec_resolved_config(metafield) == spec_default_config(),
                Some(c) => spec_resolved_config(metafield) == c,
            },
        },
{
}

/// Class gating: when neither the Product nor the Order class is active,
/// the line-discounts entry point yields the empty operation list,
/// whatever the cart contents and the configuration.
pub proof fn lemma_line_discounts_gated(
    lines: Seq<CartLineModel>,
    subtotal: u64,
    classes: Seq<DiscountClass>,
    metafield: Option<Seq<char>>,
)
    requires
        !classes.contains(DiscountClass::Product),
        !classes.contains(DiscountClass::Order),
    ensures
        spec_cart_operations(lines, subtotal, classes, metafield) == Seq::<
            CartOperationModel,
        >::empty(),
{
}

} // verus!
