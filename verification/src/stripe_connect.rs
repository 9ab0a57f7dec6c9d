//! Payments through Stripe Connect: the platform's fee, and the addresses
//! that onboarding and checkout send the browser to.
use vstd::prelude::*;
use crate::text::concat3;
use crate::rejection::{Rejection, UNPROCESSABLE_ENTITY, INTERNAL_SERVER_ERROR};

verus! {

broadcast use vstd::string::group_string_axioms;

/// Share of each sale that the platform keeps, in percent.
pub const PLATFORM_FEE_PERCENT: i64 = 5;

/// Integer division rounding toward zero, as Rust's `/` does.
pub open spec fn truncating_div(a: int, b: int) -> int {
    if a >= 0 {
        a / b
    } else {
        -((-a) / b)
    }
}

/// The platform's fee on a price, in yen: five percent, rounded down
/// (toward zero), so that any fraction of a yen goes to the seller.
pub fn platform_fee_yen(price_yen: i64) -> (fee: i64)
    requires
        i64::MIN <= price_yen * 5 <= i64::MAX,
    ensures
        fee == truncating_div(price_yen * PLATFORM_FEE_PERCENT, 100),
{
    (price_yen * PLATFORM_FEE_PERCENT) / 100
}

/// On a price of zero or more, the fee is five percent rounded down: never
/// more than five percent, less than one yen short of it, and at most a
/// twentieth of the price.
pub proof fn law_fee_rounds_down_for_the_seller(price_yen: int)
    requires
        0 <= price_yen,
    ensures
        ({
            let fee = truncating_div(price_yen * PLATFORM_FEE_PERCENT, 100);
            &&& 0 <= fee
            &&& fee * 100 <= price_yen * 5 < fee * 100 + 100
            &&& fee * 20 <= price_yen
        }),
{
}

/// Where onboarding sends a seller whose link has expired.
pub fn onboarding_refresh_url(base_url: &str, seller_name: &str) -> (r: String)
    ensures
        r@ == base_url@ + "/sellers/"@ + seller_name@ + "/stripe/onboarding"@,
{
    let mut r = concat3(base_url, "/sellers/", seller_name);
    r.append("/stripe/onboarding");
    r
}

/// Where onboarding sends a seller who finished it.
pub fn onboarding_return_url(base_url: &str, seller_name: &str) -> (r: String)
    ensures
        r@ == base_url@ + "/sellers/"@ + seller_name@ + "/stripe/onboarding/complete"@,
{
    let mut r = concat3(base_url, "/sellers/", seller_name);
    r.append("/stripe/onboarding/complete");
    r
}

/// Where checkout sends a buyer who paid.
pub fn checkout_success_url(base_url: &str, order_id: &str) -> (r: String)
    ensures
        r@ == base_url@ + "/orders/"@ + order_id@ + "/checkout/success"@,
{
    let mut r = concat3(base_url, "/orders/", order_id);
    r.append("/checkout/success");
    r
}

/// Where checkout sends a buyer who cancelled.
pub fn checkout_cancel_url(base_url: &str, order_id: &str) -> (r: String)
    ensures
        r@ == base_url@ + "/orders/"@ + order_id@ + "/checkout/cancel"@,
{
    let mut r = concat3(base_url, "/orders/", order_id);
    r.append("/checkout/cancel");
    r
}

/// 422: the seller has no Connect account yet.
pub fn seller_not_onboarded() -> (r: Rejection)
    ensures
        r@ == (UNPROCESSABLE_ENTITY, "seller has not completed Stripe onboarding yet"@),
{
    Rejection::new(UNPROCESSABLE_ENTITY, "seller has not completed Stripe onboarding yet")
}

/// 500: no Stripe secret key is configured.
pub fn stripe_key_missing() -> (r: Rejection)
    ensures
        r@ == (INTERNAL_SERVER_ERROR, "STRIPE_SECRET_KEY is not configured"@),
{
    Rejection::new(INTERNAL_SERVER_ERROR, "STRIPE_SECRET_KEY is not configured")
}


/// What a Checkout Session for an order asks Stripe for: one item of the
/// service at its price in yen, the platform's fee kept back, the rest sent
/// to the seller's Connect account, and where the buyer returns.
#[derive(Debug)]
pub struct CheckoutPlan {
    pub product_name: String,
    pub quantity: u64,
    pub unit_amount: i64,
    pub application_fee_amount: i64,
    pub destination: String,
    pub success_url: String,
    pub cancel_url: String,
}

pub fn checkout_plan(
    base_url: &str,
    order_id: &str,
    title: String,
    price_yen: i32,
    seller_account_id: String,
) -> (plan: CheckoutPlan)
    ensures
        plan.product_name@ == title@,
        plan.quantity == 1,
        plan.unit_amount == price_yen,
        plan.application_fee_amount == truncating_div(price_yen * PLATFORM_FEE_PERCENT, 100),
        plan.destination@ == seller_account_id@,
        plan.success_url@ == base_url@ + "/orders/"@ + order_id@ + "/checkout/success"@,
        plan.cancel_url@ == base_url@ + "/orders/"@ + order_id@ + "/checkout/cancel"@,
{
    let price = price_yen as i64;
    CheckoutPlan {
        product_name: title,
        quantity: 1,
        unit_amount: price,
        application_fee_amount: platform_fee_yen(price),
        destination: seller_account_id,
        success_url: checkout_success_url(base_url, order_id),
        cancel_url: checkout_cancel_url(base_url, order_id),
    }
}

} // verus!
