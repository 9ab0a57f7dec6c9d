use aruaru_pro::orders::order_permitted;
use aruaru_pro::auth::AuthUser;
use aruaru_pro::orders::{
    check_transition, default_commit_message, default_transition_message, is_valid_transition, prepare_order,
    validate_create, CreateOrderRequest, VALID_TRANSITIONS,
};

#[test]
fn validate_create_rejects_empty_buyer_name() {
    let body = CreateOrderRequest { buyer_name: "  ".to_string(), message: default_commit_message() };
    assert!(validate_create(&body).is_some());
}

#[test]
fn validate_create_accepts_non_empty_buyer_name() {
    let body = CreateOrderRequest { buyer_name: "山田太郎".to_string(), message: default_commit_message() };
    assert!(validate_create(&body).is_none());
}

#[test]
fn pending_to_completed_and_cancelled_are_the_only_valid_transitions() {
    assert!(VALID_TRANSITIONS.contains(&("pending", "completed")));
    assert!(VALID_TRANSITIONS.contains(&("pending", "cancelled")));
    assert!(!VALID_TRANSITIONS.contains(&("completed", "pending")));
    assert!(!VALID_TRANSITIONS.contains(&("cancelled", "completed")));
    assert!(!VALID_TRANSITIONS.contains(&("completed", "cancelled")));
}

#[test]
fn transition_check_agrees_with_the_table() {
    let statuses = ["pending", "completed", "cancelled", "unknown", ""];
    for from in statuses {
        for to in statuses {
            assert_eq!(is_valid_transition(from, to), VALID_TRANSITIONS.contains(&(from, to)));
        }
    }
}

#[test]
fn settled_orders_are_refused_with_the_statuses_named() {
    let e = check_transition("completed", "cancelled").unwrap();
    assert_eq!(e.status, 422);
    assert_eq!(e.message, "cannot transition from \"completed\" to \"cancelled\"");
    assert!(check_transition("pending", "completed").is_none());
}

#[test]
fn orders_need_the_buyer_to_be_the_user() {
    let user = AuthUser { name: "山田太郎".to_string(), role: "buyer".to_string() };
    let other = CreateOrderRequest { buyer_name: "鈴木一郎".to_string(), message: default_commit_message() };
    assert_eq!(prepare_order(&user, "svc-1", &other).unwrap_err().status, 403);
    let own = CreateOrderRequest { buyer_name: "山田太郎".to_string(), message: default_commit_message() };
    assert!(prepare_order(&user, "logo-0123", &own).unwrap().starts_with("logo-0123-"));
    let blank = CreateOrderRequest { buyer_name: " ".to_string(), message: default_commit_message() };
    assert_eq!(prepare_order(&user, "s", &blank).unwrap_err().message, "field \"buyer_name\" must not be empty");
}

#[test]
fn default_messages() {
    assert_eq!(default_commit_message(), "new order");
    assert_eq!(default_transition_message(), "order status transition");
}

#[test]
fn orders_need_a_buyer_and_an_existing_service() {
    let buyer = AuthUser { name: "山田太郎".to_string(), role: "buyer".to_string() };
    let seller = AuthUser { name: "山田太郎".to_string(), role: "seller".to_string() };
    let body = CreateOrderRequest { buyer_name: "山田太郎".to_string(), message: default_commit_message() };
    assert!(order_permitted(&buyer, true, "s-1", &body).unwrap().starts_with("s-1-"));
    assert_eq!(order_permitted(&buyer, false, "s-1", &body).unwrap_err().message, "service not found");
    assert_eq!(order_permitted(&seller, true, "s-1", &body).unwrap_err().status, 403);
}
