//! Orders: the checks on a new order, its id, and its status machine
//! (`pending` moves to `completed` or `cancelled`, and nothing moves after).
use vstd::prelude::*;
use crate::text::{is_blank, is_blank_text, same_text, concat3};
use crate::rejection::{Rejection, empty_field, empty_field_refusal, outcome, UNPROCESSABLE_ENTITY, FORBIDDEN};
use crate::auth::{AuthUser, require_role, require_name_matches, name_mismatch_message, role_mismatch_message};
use crate::rejection::NOT_FOUND;
use crate::ids::{make_id, id_of, texts_of};

verus! {

broadcast use vstd::string::group_string_axioms;

/// A new order for a service.
#[derive(Debug, Clone)]
pub struct CreateOrderRequest {
    pub buyer_name: String,
    pub message: String,
}

/// The commit message of a new order where the request gives none.
pub fn default_commit_message() -> (r: String)
    ensures
        r@ == "new order"@,
{
    String::from_str("new order")
}

pub open spec fn create_problem(body: CreateOrderRequest) -> Option<(u16, Seq<char>)> {
    if is_blank_text(body.buyer_name@) {
        Some(empty_field_refusal("buyer_name"@))
    } else {
        None
    }
}

/// A new order needs a buyer name.
pub fn validate_create(body: &CreateOrderRequest) -> (r: Option<Rejection>)
    ensures
        outcome(r) == create_problem(*body),
{
    if is_blank(body.buyer_name.as_str()) {
        return Some(empty_field("buyer_name"));
    }
    None
}

/// The id of an order: from the service id and the buyer's name, fallback `order`.
pub fn order_id(service_id: &str, buyer_name: &str) -> (id: String)
    ensures
        id@ == id_of(seq![service_id@, buyer_name@], "order"@),
{
    let parts: [&str; 2] = [service_id, buyer_name];
    assert(texts_of(parts@) =~= seq![service_id@, buyer_name@]);
    make_id(&parts, "order")
}

/// The checks on a new order from a signed-in buyer, in the order the request
/// makes them: the fields, then that the buyer is the user; then its id.
pub fn prepare_order(user: &AuthUser, service_id: &str, body: &CreateOrderRequest) -> (r: Result<String, Rejection>)
    ensures
        create_problem(*body) matches Some(p) ==> (r matches Err(e) && e@ == p),
        create_problem(*body) is None && user.name@ != body.buyer_name@ ==> (r matches Err(e) && e@
            == (FORBIDDEN, name_mismatch_message("buyer_name"@))),
        create_problem(*body) is None && user.name@ == body.buyer_name@ ==> (r matches Ok(id) && id@
            == id_of(seq![service_id@, body.buyer_name@], "order"@)),
{
    if let Some(e) = validate_create(body) {
        return Err(e);
    }
    if let Some(e) = require_name_matches(user, "buyer_name", body.buyer_name.as_str()) {
        return Err(e);
    }
    Ok(order_id(service_id, body.buyer_name.as_str()))
}

/// A requested change of an order's status.
#[derive(Debug, Clone)]
pub struct TransitionOrderRequest {
    pub status: String,
    pub message: String,
}

/// The commit message of a status change where the request gives none.
pub fn default_transition_message() -> (r: String)
    ensures
        r@ == "order status transition"@,
{
    String::from_str("order status transition")
}

/// The status changes that are allowed: from `pending` only, to `completed`
/// or `cancelled`. A settled order's status is never written over.
pub const VALID_TRANSITIONS: [(&'static str, &'static str); 2] = [
    ("pending", "completed"),
    ("pending", "cancelled"),
];

pub open spec fn valid_transition(from: Seq<char>, to: Seq<char>) -> bool {
    from == "pending"@ && (to == "completed"@ || to == "cancelled"@)
}

pub fn is_valid_transition(from: &str, to: &str) -> (r: bool)
    ensures
        r == valid_transition(from@, to@),
{
    same_text(from, "pending") && (same_text(to, "completed") || same_text(to, "cancelled"))
}

pub open spec fn transition_message(from: Seq<char>, to: Seq<char>) -> Seq<char> {
    "cannot transition from \""@ + from + "\" to \""@ + to + "\""@
}

/// `None` where the order may move from `current` to `requested`; else 422.
pub fn check_transition(current: &str, requested: &str) -> (r: Option<Rejection>)
    ensures
        r is None <==> valid_transition(current@, requested@),
        r matches Some(e) ==> e@ == (UNPROCESSABLE_ENTITY, transition_message(current@, requested@)),
{
    if is_valid_transition(current, requested) {
        None
    } else {
        let mut message = concat3("cannot transition from \"", current, "\" to \"");
        message.append(requested);
        message.append("\"");
        Some(Rejection { status: UNPROCESSABLE_ENTITY, message })
    }
}

/// Only a pending order changes status.
pub proof fn law_only_pending_orders_move(from: Seq<char>, to: Seq<char>)
    requires
        valid_transition(from, to),
    ensures
        from == "pending"@,
{
}

/// A completed or cancelled order never changes status again.
pub proof fn law_settled_orders_stay_settled(from: Seq<char>, to: Seq<char>)
    requires
        from == "completed"@ || from == "cancelled"@,
    ensures
        !valid_transition(from, to),
{
    reveal_strlit("pending");
    reveal_strlit("completed");
    reveal_strlit("cancelled");
    assert("pending"@.len() == 7);
    assert("completed"@.len() == 9);
    assert("cancelled"@.len() == 9);
}

/// No change leads back to `pending`, so an order changes status at most once.
pub proof fn law_no_transition_back_to_pending(from: Seq<char>, to: Seq<char>)
    requires
        valid_transition(from, to),
    ensures
        to != "pending"@,
        forall|next: Seq<char>| !valid_transition(to, next),
{
    law_settled_orders_stay_settled(to, to);
    reveal_strlit("pending");
    reveal_strlit("completed");
    reveal_strlit("cancelled");
    assert("pending"@.len() == 7);
    assert("completed"@.len() == 9);
    assert("cancelled"@.len() == 9);
    assert forall|next: Seq<char>| !valid_transition(to, next) by {
        law_settled_orders_stay_settled(to, next);
    }
}


/// The whole access rule for a new order, given whether the service exists:
/// the user must be a buyer, the service must exist, the fields must pass and
/// the buyer must be the user. Checked in that order; on success, the order's id.
pub fn order_permitted(
    user: &AuthUser,
    service_exists: bool,
    service_id: &str,
    body: &CreateOrderRequest,
) -> (r: Result<String, Rejection>)
    ensures
        r is Ok <==> user.role@ == "buyer"@ && service_exists && create_problem(*body) is None
            && user.name@ == body.buyer_name@,
        r matches Ok(id) ==> id@ == id_of(seq![service_id@, body.buyer_name@], "order"@),
        user.role@ != "buyer"@ ==> (r matches Err(e) && e@ == (FORBIDDEN, role_mismatch_message("buyer"@, user.role@))),
        user.role@ == "buyer"@ && !service_exists ==> (r matches Err(e) && e@ == (NOT_FOUND, "service not found"@)),
        user.role@ == "buyer"@ && service_exists ==> (create_problem(*body) matches Some(p) ==> (r matches Err(e)
            && e@ == p)),
        user.role@ == "buyer"@ && service_exists && create_problem(*body) is None && user.name@
            != body.buyer_name@ ==> (r matches Err(e) && e@ == (FORBIDDEN, name_mismatch_message("buyer_name"@))),
{
    if let Some(e) = require_role(user, "buyer") {
        return Err(e);
    }
    if !service_exists {
        return Err(Rejection::new(NOT_FOUND, "service not found"));
    }
    prepare_order(user, service_id, body)
}

} // verus!
