//! The line-discounts entry point: per-line product discounts for lines
//! whose quantity reaches the threshold, and at most one order-wide
//! discount when the subtotal reaches the spend threshold, gated by the
//! Product and Order discount classes.

use vstd::prelude::*;

use crate::config::{
    metafield_view, resolve_config, spec_resolved_config, TieredDiscountConfig,
};
use crate::operations::{
    is_class_active, order_message, product_message, render_order_message,
    render_product_message, CartOperation, CartOperationModel, DiscountClass,
    OrderDiscountModel, OrderDiscountOperation, ProductDiscountModel, ProductDiscountOperation,
    SelectionStrategy,
};

verus! {

/// One line item in the cart: its identity and its quantity.
pub struct CartLine {
    pub id: String,
    pub quantity: u64,
}

/// Mathematical model of a cart line.
pub ghost struct CartLineModel {
    pub id: Seq<char>,
    pub quantity: u64,
}

impl View for CartLine {
    type V = CartLineModel;

    open spec fn view(&self) -> CartLineModel {
        CartLineModel { id: self.id@, quantity: self.quantity }
    }
}

impl DeepView for CartLine {
    type V = CartLineModel;

    open spec fn deep_view(&self) -> CartLineModel {
        self.view()
    }
}

/// Whether a line qualifies for the per-line discount: its quantity
/// reaches the quantity threshold (closed lower bound).
pub open spec fn spec_line_qualifies(line: CartLineModel, config: TieredDiscountConfig) -> bool {
    line.quantity >= config.quantity_threshold
}

/// The product discount emitted for one qualifying line: it targets
/// exactly that line, carries the configured percentage and the per-line
/// message, and is applied by the "first" selection strategy.
pub open spec fn spec_product_op(
    line: CartLineModel,
    config: TieredDiscountConfig,
) -> CartOperationModel {
    CartOperationModel::ProductDiscountsAdd(
        ProductDiscountModel {
            selection_strategy: SelectionStrategy::First,
            line_id: line.id,
            percentage: config.quantity_discount_percentage,
            message: product_message(config),
        },
    )
}

/// The product discounts for a cart: one per qualifying line, in the
/// order the lines are given; non-qualifying lines contribute nothing.
pub open spec fn spec_product_ops(
    lines: Seq<CartLineModel>,
    config: TieredDiscountConfig,
) -> Seq<CartOperationModel>
    decreases lines.len(),
{
    if lines.len() == 0 {
        Seq::empty()
    } else {
        spec_product_ops(lines.drop_last(), config) + if spec_line_qualifies(
            lines.last(),
            config,
        ) {
            seq![spec_product_op(lines.last(), config)]
        } else {
            Seq::empty()
        }
    }
}

/// Evaluates the per-line rule: one product discount per line whose
/// quantity reaches the threshold, in line order.
pub fn evaluate_lines(lines: &Vec<CartLine>, config: &TieredDiscountConfig) -> (ops: Vec<
    CartOperation,
>)
    ensures
        ops.deep_view() == spec_product_ops(lines.deep_view(), *config),
{
    let mut ops: Vec<CartOperation> = Vec::new();
    let mut i: usize = 0;
    while i < lines.len()
        invariant
            i <= lines@.len(),
            ops.deep_view() == spec_product_ops(lines.deep_view().take(i as int), *config),
        decreases lines@.len() - i,
    {
        let ghost prefix = lines.deep_view().take(i as int);
        if lines[i].quantity >= config.quantity_threshold {
            let op = CartOperation::ProductDiscountsAdd(
                ProductDiscountOperation {
                    selection_strategy: SelectionStrategy::First,
                    line_id: lines[i].id.clone(),
                    percentage: config.quantity_discount_percentage,
                    message: render_product_message(config),
                },
            );
            assert(op.deep_view() == spec_product_op(lines.deep_view()[i as int], *config));
            ops.push(op);
        }
        i = i + 1;
        proof {
            let prefix2 = lines.deep_view().take(i as int);
            assert(prefix2.drop_last() =~= prefix);
            assert(prefix2.last() == lines.deep_view()[i - 1]);
            assert(ops.deep_view() =~= spec_product_ops(prefix2, *config));
        }
    }
    proof {
        assert(lines.deep_view().take(lines@.len() as int) =~= lines.deep_view());
    }
    ops
}

/// The order discount emitted when the subtotal reaches the spend
/// threshold: it targets the full subtotal with no excluded lines,
/// carries the configured percentage and the order message, and is
/// applied by the "first" selection strategy.
pub open spec fn spec_order_op(config: TieredDiscountConfig) -> CartOperationModel {
    CartOperationModel::OrderDiscountsAdd(
        OrderDiscountModel {
            selection_strategy: SelectionStrategy::First,
            excluded_cart_line_ids: Seq::empty(),
            percentage: config.order_discount_percentage_1,
            message: order_message(config),
        },
    )
}

/// Evaluates the order rule: triggers exactly when the subtotal reaches
/// `order_threshold_1` (boundary included); below the threshold there is
/// no operation and no error.
pub fn evaluate_order(subtotal: u64, config: &TieredDiscountConfig) -> (r: Option<CartOperation>)
    ensures
        r is Some <==> subtotal >= config.order_threshold_1,
        match r {
            Some(op) => op.deep_view() == spec_order_op(*config),
            None => true,
        },
{
    if subtotal >= config.order_threshold_1 {
        let op = CartOperation::OrderDiscountsAdd(
            OrderDiscountOperation {
                selection_strategy: SelectionStrategy::First,
                excluded_cart_line_ids: Vec::new(),
                percentage: config.order_discount_percentage_1,
                message: render_order_message(config),
            },
        );
        proof {
            assert(op.deep_view()->OrderDiscountsAdd_0.excluded_cart_line_ids =~= Seq::<
                Seq<char>,
            >::empty());
        }
        Some(op)
    } else {
        None
    }
}

/// The operations of the line-discounts entry point: empty when neither
/// the Product nor the Order class is active; otherwise the product
/// discounts of the qualifying lines in line order (when Product is
/// active), followed by the order discount (when Order is active and the
/// subtotal reaches the threshold).
pub open spec fn spec_cart_operations(
    lines: Seq<CartLineModel>,
    subtotal: u64,
    classes: Seq<DiscountClass>,
    metafield: Option<Seq<char>>,
) -> Seq<CartOperationModel> {
    let config = spec_resolved_config(metafield);
    let has_product = classes.contains(DiscountClass::Product);
    let has_order = classes.contains(DiscountClass::Order);
    if !has_order && !has_product {
        Seq::empty()
    } else {
        (if has_product {
            spec_product_ops(lines, config)
        } else {
            Seq::empty()
        }) + (if has_order && subtotal >= config.order_threshold_1 {
            seq![spec_order_op(config)]
        } else {
            Seq::empty()
        })
    }
}

/// The line-discounts entry point: resolves the configuration from the
/// optional metafield value, gates on the Product and Order classes, and
/// assembles the operations of the rules that applied, per
/// `spec_cart_operations`. Never an error: an absent or malformed
/// metafield falls back to the default configuration.
pub fn cart_lines_discounts_generate_run(
    lines: &Vec<CartLine>,
    subtotal: u64,
    active_classes: &Vec<DiscountClass>,
    metafield: Option<&str>,
) -> (ops: Vec<CartOperation>)
    ensures
        ops.deep_view() == spec_cart_operations(
            lines.deep_view(),
            subtotal,
            active_classes@,
            metafield_view(metafield),
        ),
{
    let has_order = is_class_active(active_classes, DiscountClass::Order);
    let has_product = is_class_active(active_classes, DiscountClass::Product);
    if !has_order && !has_product {
        let ops: Vec<CartOperation> = Vec::new();
        proof {
            assert(ops.deep_view() =~= Seq::<CartOperationModel>::empty());
        }
        return ops;
    }
    let config = resolve_config(metafield);
    let mut ops: Vec<CartOperation> = if has_product {
        evaluate_lines(lines, &config)
    } else {
        Vec::new()
    };
    let ghost product_part = ops.deep_view();
    if has_order {
        match evaluate_order(subtotal, &config) {
            None => (),
            Some(op) => {
                ops.push(op);
            },
        }
    }
    proof {
        assert(ops.deep_view() =~= spec_cart_operations(
            lines.deep_view(),
            subtotal,
            active_classes@,
            metafield_view(metafield),
        ));
    }
    ops
}

} // verus!
