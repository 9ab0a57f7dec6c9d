use aruaru_pro::stripe_connect::{
    checkout_plan,
    checkout_cancel_url, checkout_success_url, onboarding_refresh_url, onboarding_return_url, platform_fee_yen,
    seller_not_onboarded,
};

#[test]
fn platform_fee_is_five_percent_and_rounds_down() {
    assert_eq!(platform_fee_yen(10_000), 500);
    assert_eq!(platform_fee_yen(999), 49);
}

#[test]
fn platform_fee_is_far_below_typical_marketplace_fees() {
    let price = 10_000;
    assert!(platform_fee_yen(price) < price / 5);
}

#[test]
fn fee_rounds_toward_zero_and_never_exceeds_a_twentieth() {
    assert_eq!(platform_fee_yen(19), 0);
    assert_eq!(platform_fee_yen(20), 1);
    assert_eq!(platform_fee_yen(-999), -49);
    for price in 0..500 {
        assert!(platform_fee_yen(price) * 20 <= price);
    }
}

#[test]
fn payment_addresses() {
    assert_eq!(onboarding_refresh_url("https://a", "鈴木"), "https://a/sellers/鈴木/stripe/onboarding");
    assert_eq!(onboarding_return_url("https://a", "s"), "https://a/sellers/s/stripe/onboarding/complete");
    assert_eq!(checkout_success_url("https://a", "o1"), "https://a/orders/o1/checkout/success");
    assert_eq!(checkout_cancel_url("https://a", "o1"), "https://a/orders/o1/checkout/cancel");
    assert_eq!(seller_not_onboarded().status, 422);
}

#[test]
fn checkout_plan_charges_the_price_and_keeps_the_fee() {
    let plan = checkout_plan("https://a", "o1", "ロゴ制作".to_string(), 999, "acct_1".to_string());
    assert_eq!(plan.unit_amount, 999);
    assert_eq!(plan.quantity, 1);
    assert_eq!(plan.application_fee_amount, 49);
    assert_eq!(plan.product_name, "ロゴ制作");
    assert_eq!(plan.destination, "acct_1");
    assert_eq!(plan.success_url, "https://a/orders/o1/checkout/success");
    assert_eq!(plan.cancel_url, "https://a/orders/o1/checkout/cancel");
}
