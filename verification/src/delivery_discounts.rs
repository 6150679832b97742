//! The delivery-discounts entry point: a single 100%-off delivery
//! discount targeting the cart's first delivery group when the Shipping
//! class is active and the subtotal reaches the free-shipping threshold.
//! A cart that qualifies but carries no delivery group is a structural
//! input error surfaced to the caller, never an empty result.

use vstd::prelude::*;

use crate::config::{
    metafield_view, resolve_config, spec_resolved_config, TieredDiscountConfig,
};
use crate::operations::{
    is_class_active, render_shipping_message, shipping_message, DeliveryDiscountModel,
    DeliveryDiscountOperation, DeliveryOperation, DeliveryOperationModel, DiscountClass,
    SelectionStrategy,
};

verus! {

/// A shipping-option grouping in the cart, targetable by a shipping
/// discount.
pub struct DeliveryGroup {
    pub id: String,
}

/// Mathematical model of a delivery group.
pub ghost struct DeliveryGroupModel {
    pub id: Seq<char>,
}

impl View for DeliveryGroup {
    type V = DeliveryGroupModel;

    open spec fn view(&self) -> DeliveryGroupModel {
        DeliveryGroupModel { id: self.id@ }
    }
}

impl DeepView for DeliveryGroup {
    type V = DeliveryGroupModel;

    open spec fn deep_view(&self) -> DeliveryGroupModel {
        self.view()
    }
}

/// The structural input error of the delivery path: the discount
/// qualifies but the cart carries no delivery group to target.
#[derive(Clone, Copy, Debug, PartialEq, Eq, Structural)]
pub struct NoDeliveryGroupsError;

impl NoDeliveryGroupsError {
    /// The error's text.
    pub fn message(&self) -> (m: String)
        ensures
            m@ == "No delivery groups found"@,
    {
        String::from_str("No delivery groups found")
    }
}

/// The percentage of a free-shipping discount, in hundredths of a
/// percent: always the full 100 percent.
pub const FREE_SHIPPING_PERCENTAGE: u64 = 10000;

/// The shipping discount emitted when the rule triggers: it targets the
/// given delivery group, takes 100 percent off, carries the shipping
/// message, and is applied by the "all" selection strategy.
pub open spec fn spec_shipping_op(
    group: DeliveryGroupModel,
    config: TieredDiscountConfig,
) -> DeliveryOperationModel {
    DeliveryOperationModel::DeliveryDiscountsAdd(
        DeliveryDiscountModel {
            selection_strategy: SelectionStrategy::All,
            delivery_group_id: group.id,
            percentage: FREE_SHIPPING_PERCENTAGE,
            message: shipping_message(config),
        },
    )
}

/// The outcome of the delivery-discounts entry point: no operations when
/// the Shipping class is inactive or the subtotal is below the
/// free-shipping threshold; otherwise one shipping discount on the first
/// delivery group, or the structural error when there is none.
pub open spec fn spec_delivery_operations(
    delivery_groups: Seq<DeliveryGroupModel>,
    subtotal: u64,
    classes: Seq<DiscountClass>,
    metafield: Option<Seq<char>>,
) -> Result<Seq<DeliveryOperationModel>, NoDeliveryGroupsError> {
    let config = spec_resolved_config(metafield);
    if !classes.contains(DiscountClass::Shipping) || subtotal < config.free_shipping_threshold {
        Ok(Seq::empty())
    } else if delivery_groups.len() == 0 {
        Err(NoDeliveryGroupsError)
    } else {
        Ok(seq![spec_shipping_op(delivery_groups[0], config)])
    }
}

/// Evaluates the shipping rule: triggers exactly when the Shipping
/// class is active and the subtotal reaches the free-shipping threshold
/// (boundary included). When it does not trigger there is no operation
/// and no error; when it triggers, the discount targets the given first
/// delivery group, and its absence is the structural error, never a
/// silent skip.
pub fn evaluate_shipping(
    subtotal: u64,
    config: &TieredDiscountConfig,
    has_shipping_class: bool,
    first_delivery_group: Option<&DeliveryGroup>,
) -> (r: Result<Option<DeliveryOperation>, NoDeliveryGroupsError>)
    ensures
        ({
            let triggered = has_shipping_class && subtotal >= config.free_shipping_threshold;
            match r {
                Ok(op) => match op {
                    None => !triggered,
                    Some(op) => triggered && first_delivery_group is Some && op.deep_view()
                        == spec_shipping_op(first_delivery_group->0@, *config),
                },
                Err(_) => triggered && first_delivery_group is None,
            }
        }),
{
    if !has_shipping_class || subtotal < config.free_shipping_threshold {
        return Ok(None);
    }
    match first_delivery_group {
        None => Err(NoDeliveryGroupsError),
        Some(group) => Ok(
            Some(
                DeliveryOperation::DeliveryDiscountsAdd(
                    DeliveryDiscountOperation {
                        selection_strategy: SelectionStrategy::All,
                        delivery_group_id: group.id.clone(),
                        percentage: FREE_SHIPPING_PERCENTAGE,
                        message: render_shipping_message(config),
                    },
                ),
            ),
        ),
    }
}

/// The delivery-discounts entry point: resolves the configuration from
/// the optional metafield value, evaluates the shipping rule against the
/// cart's first delivery group, and assembles its operation, per
/// `spec_delivery_operations`. Fails exactly when the rule triggers and
/// the cart has no delivery group.
pub fn cart_delivery_options_discounts_generate_run(
    delivery_groups: &Vec<DeliveryGroup>,
    subtotal: u64,
    active_classes: &Vec<DiscountClass>,
    metafield: Option<&str>,
) -> (r: Result<Vec<DeliveryOperation>, NoDeliveryGroupsError>)
    ensures
        match r {
            Ok(ops) => spec_delivery_operations(
                delivery_groups.deep_view(),
                subtotal,
                active_classes@,
                metafield_view(metafield),
            ) == Ok::<_, NoDeliveryGroupsError>(ops.deep_view()),
            Err(e) => spec_delivery_operations(
                delivery_groups.deep_view(),
                subtotal,
                active_classes@,
                metafield_view(metafield),
            ) == Err::<Seq<DeliveryOperationModel>, _>(e),
        },
{
    let config = resolve_config(metafield);
    let has_shipping = is_class_active(active_classes, DiscountClass::Shipping);
    let first_delivery_group = if delivery_groups.len() == 0 {
        None
    } else {
        Some(&delivery_groups[0])
    };
    match evaluate_shipping(subtotal, &config, has_shipping, first_delivery_group) {
        Err(e) => Err(e),
        Ok(None) => {
            let ops: Vec<DeliveryOperation> = Vec::new();
            proof {
                assert(ops.deep_view() =~= Seq::<DeliveryOperationModel>::empty());
            }
            Ok(ops)
        },
        Ok(Some(op)) => {
            let mut ops: Vec<DeliveryOperation> = Vec::new();
            ops.push(op);
            proof {
                assert(ops.deep_view() =~= seq![
                    spec_shipping_op(delivery_groups.deep_view()[0], config),
                ]);
            }
            Ok(ops)
        },
    }
}

} // verus!
