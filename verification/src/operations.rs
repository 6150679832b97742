//! The discount operations the engine emits, the discount classes that
//! gate them, and the message text each operation carries.

use vstd::prelude::*;

use crate::config::TieredDiscountConfig;
use crate::decimal::{amount_text, amount_to_string, dec_digits, u64_to_string};

verus! {

/// A kind of discount a discount instance is allowed to apply.
#[derive(Clone, Copy, Debug, PartialEq, Eq, Structural)]
pub enum DiscountClass {
    Product,
    Order,
    Shipping,
}

/// Whether the given class is active: a pure membership test on the
/// classes supplied for the current discount instance.
pub fn is_class_active(active_classes: &Vec<DiscountClass>, class: DiscountClass) -> (r: bool)
    ensures
        r == active_classes@.contains(class),
{
    let mut i: usize = 0;
    while i < active_classes.len()
        invariant
            i <= active_classes@.len(),
            forall|j: int| 0 <= j < i ==> active_classes@[j] != class,
        decreases active_classes@.len() - i,
    {
        if active_classes[i] == class {
            return true;
        }
        i = i + 1;
    }
    false
}

/// How the host resolves several candidates within one operation:
/// a pass-through contract field, not computed logic.
#[derive(Clone, Copy, Debug, PartialEq, Eq, Structural)]
pub enum SelectionStrategy {
    First,
    All,
}

/// A percentage discount on one cart line, targeted by the line's
/// identity; the whole line quantity, no split.
#[derive(Debug)]
pub struct ProductDiscountOperation {
    pub selection_strategy: SelectionStrategy,
    pub line_id: String,
    /// Percentage off, in hundredths of a percent.
    pub percentage: u64,
    pub message: String,
}

/// A percentage discount on the order subtotal, with an explicit (here
/// always empty) set of excluded line identities.
#[derive(Debug)]
pub struct OrderDiscountOperation {
    pub selection_strategy: SelectionStrategy,
    pub excluded_cart_line_ids: Vec<String>,
    /// Percentage off, in hundredths of a percent.
    pub percentage: u64,
    pub message: String,
}

/// A percentage discount on one delivery group, targeted by the group's
/// identity.
#[derive(Debug)]
pub struct DeliveryDiscountOperation {
    pub selection_strategy: SelectionStrategy,
    pub delivery_group_id: String,
    /// Percentage off, in hundredths of a percent; always 100 percent.
    pub percentage: u64,
    pub message: String,
}

/// An operation emitted by the line-discounts entry point.
#[derive(Debug)]
pub enum CartOperation {
    ProductDiscountsAdd(ProductDiscountOperation),
    OrderDiscountsAdd(OrderDiscountOperation),
}

/// An operation emitted by the delivery-discounts entry point.
#[derive(Debug)]
pub enum DeliveryOperation {
    DeliveryDiscountsAdd(DeliveryDiscountOperation),
}

/// Mathematical model of a product discount operation.
pub ghost struct ProductDiscountModel {
    pub selection_strategy: SelectionStrategy,
    pub line_id: Seq<char>,
    pub percentage: u64,
    pub message: Seq<char>,
}

/// Mathematical model of an order discount operation.
pub ghost struct OrderDiscountModel {
    pub selection_strategy: SelectionStrategy,
    pub excluded_cart_line_ids: Seq<Seq<char>>,
    pub percentage: u64,
    pub message: Seq<char>,
}

/// Mathematical model of a delivery discount operation.
pub ghost struct DeliveryDiscountModel {
    pub selection_strategy: SelectionStrategy,
    pub delivery_group_id: Seq<char>,
    pub percentage: u64,
    pub message: Seq<char>,
}

/// Mathematical model of a cart operation.
pub ghost enum CartOperationModel {
    ProductDiscountsAdd(ProductDiscountModel),
    OrderDiscountsAdd(OrderDiscountModel),
}

/// Mathematical model of a delivery operation.
pub ghost enum DeliveryOperationModel {
    DeliveryDiscountsAdd(DeliveryDiscountModel),
}

impl View for ProductDiscountOperation {
    type V = ProductDiscountModel;

    open spec fn view(&self) -> ProductDiscountModel {
        ProductDiscountModel {
            selection_strategy: self.selection_strategy,
            line_id: self.line_id@,
            percentage: self.percentage,
            message: self.message@,
        }
    }
}

impl View for OrderDiscountOperation {
    type V = OrderDiscountModel;

    open spec fn view(&self) -> OrderDiscountModel {
        OrderDiscountModel {
            selection_strategy: self.selection_strategy,
            excluded_cart_line_ids: self.excluded_cart_line_ids.deep_view(),
            percentage: self.percentage,
            message: self.message@,
        }
    }
}

impl View for DeliveryDiscountOperation {
    type V = DeliveryDiscountModel;

    open spec fn view(&self) -> DeliveryDiscountModel {
        DeliveryDiscountModel {
            selection_strategy: self.selection_strategy,
            delivery_group_id: self.delivery_group_id@,
            percentage: self.percentage,
            message: self.message@,
        }
    }
}

impl View for CartOperation {
    type V = CartOperationModel;

    open spec fn view(&self) -> CartOperationModel {
        match self {
            CartOperation::ProductDiscountsAdd(op) => CartOperationModel::ProductDiscountsAdd(
                op@,
            ),
            CartOperation::OrderDiscountsAdd(op) => CartOperationModel::OrderDiscountsAdd(op@),
        }
    }
}

impl DeepView for CartOperation {
    type V = CartOperationModel;

    open spec fn deep_view(&self) -> CartOperationModel {
        self.view()
    }
}

impl View for DeliveryOperation {
    type V = DeliveryOperationModel;

    open spec fn view(&self) -> DeliveryOperationModel {
        match self {
            DeliveryOperation::DeliveryDiscountsAdd(op) => {
                DeliveryOperationModel::DeliveryDiscountsAdd(op@)
            },
        }
    }
}

impl DeepView for DeliveryOperation {
    type V = DeliveryOperationModel;

    open spec fn deep_view(&self) -> DeliveryOperationModel {
        self.view()
    }
}

/// The message on a per-line discount:
/// `"<percentage>% OFF - Buy <threshold> or more"`.
pub open spec fn product_message(config: TieredDiscountConfig) -> Seq<char> {
    amount_text(config.quantity_discount_percentage as int) + "% OFF - Buy "@ + dec_digits(
        config.quantity_threshold as int,
    ) + " or more"@
}

/// The message on an order discount:
/// `"<percentage>% OFF ORDER - Spend $<threshold>+"`.
pub open spec fn order_message(config: TieredDiscountConfig) -> Seq<char> {
    amount_text(config.order_discount_percentage_1 as int) + "% OFF ORDER - Spend $"@
        + amount_text(config.order_threshold_1 as int) + "+"@
}

/// The message on a free-shipping discount:
/// `"FREE SHIPPING - Spend $<threshold>+"`.
pub open spec fn shipping_message(config: TieredDiscountConfig) -> Seq<char> {
    "FREE SHIPPING - Spend $"@ + amount_text(config.free_shipping_threshold as int) + "+"@
}

/// Builds the per-line discount message.
pub fn render_product_message(config: &TieredDiscountConfig) -> (m: String)
    ensures
        m@ == product_message(*config),
{
    let mut m = amount_to_string(config.quantity_discount_percentage);
    m.append("% OFF - Buy ");
    let t = u64_to_string(config.quantity_threshold);
    m.append(t.as_str());
    m.append(" or more");
    m
}

/// Builds the order discount message.
pub fn render_order_message(config: &TieredDiscountConfig) -> (m: String)
    ensures
        m@ == order_message(*config),
{
    let mut m = amount_to_string(config.order_discount_percentage_1);
    m.append("% OFF ORDER - Spend $");
    let t = amount_to_string(config.order_threshold_1);
    m.append(t.as_str());
    m.append("+");
    m
}

/// Builds the free-shipping discount message.
pub fn render_shipping_message(config: &TieredDiscountConfig) -> (m: String)
    ensures
        m@ == shipping_message(*config),
{
    let mut m = String::from_str("FREE SHIPPING - Spend $");
    let t = amount_to_string(config.free_shipping_threshold);
    m.append(t.as_str());
    m.append("+");
    m
}

} // verus!
