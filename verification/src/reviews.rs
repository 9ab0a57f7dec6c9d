//! Reviews of a service: the checks on a review and its id. Only a buyer
//! whose order for the service is completed may review it.
use vstd::prelude::*;
use crate::text::{is_blank, is_blank_text};
use crate::rejection::{Rejection, empty_field, empty_field_refusal, outcome, UNPROCESSABLE_ENTITY, FORBIDDEN};
use crate::auth::{AuthUser, require_role, require_name_matches, name_mismatch_message, role_mismatch_message};
use crate::rejection::NOT_FOUND;
use crate::ids::{make_id, id_of, texts_of};

verus! {

broadcast use vstd::string::group_string_axioms;

/// A new review of a service.
#[derive(Debug, Clone)]
pub struct CreateReviewRequest {
    pub reviewer_name: String,
    pub rating: i32,
    pub comment: String,
    pub message: String,
}

/// The commit message of a new review where the request gives none.
pub fn default_commit_message() -> (r: String)
    ensures
        r@ == "new review"@,
{
    String::from_str("new review")
}

pub open spec fn review_problem(body: CreateReviewRequest) -> Option<(u16, Seq<char>)> {
    if is_blank_text(body.reviewer_name@) {
        Some(empty_field_refusal("reviewer_name"@))
    } else if !(1 <= body.rating <= 5) {
        Some((UNPROCESSABLE_ENTITY, "rating must be between 1 and 5"@))
    } else {
        None
    }
}

/// A review needs its author's name and a rating from 1 to 5.
pub fn validate(body: &CreateReviewRequest) -> (r: Option<Rejection>)
    ensures
        outcome(r) == review_problem(*body),
{
    if is_blank(body.reviewer_name.as_str()) {
        return Some(empty_field("reviewer_name"));
    }
    if !(1 <= body.rating && body.rating <= 5) {
        return Some(Rejection::new(UNPROCESSABLE_ENTITY, "rating must be between 1 and 5"));
    }
    None
}

/// The checks on a review from a signed-in buyer, in the order the request
/// makes them: the fields, then that the author is the user.
pub fn prepare_review(user: &AuthUser, body: &CreateReviewRequest) -> (r: Option<Rejection>)
    ensures
        review_problem(*body) matches Some(p) ==> (r matches Some(e) && e@ == p),
        review_problem(*body) is None ==> (r is None <==> user.name@ == body.reviewer_name@),
        review_problem(*body) is None && r is Some ==> r->0@ == (FORBIDDEN, name_mismatch_message("reviewer_name"@)),
{
    if let Some(e) = validate(body) {
        return Some(e);
    }
    require_name_matches(user, "reviewer_name", body.reviewer_name.as_str())
}

/// 403: the author has no completed order for the service.
pub fn review_needs_completed_order() -> (r: Rejection)
    ensures
        r@ == (FORBIDDEN, "only a buyer with a completed order for this service may leave a review"@),
{
    Rejection::new(FORBIDDEN, "only a buyer with a completed order for this service may leave a review")
}

/// The id of a review: from the service id, the author and a fresh token
/// (a buyer may review a service more than once), fallback `review`.
pub fn review_id(service_id: &str, reviewer_name: &str, token: &str) -> (id: String)
    ensures
        id@ == id_of(seq![service_id@, reviewer_name@, token@], "review"@),
{
    let parts: [&str; 3] = [service_id, reviewer_name, token];
    assert(texts_of(parts@) =~= seq![service_id@, reviewer_name@, token@]);
    make_id(&parts, "review")
}


/// The whole access rule for a new review, given what the database answered:
/// the user must be a buyer, the service must exist, the fields must pass,
/// the author must be the user, and the user must have a completed order for
/// the service. Checked in that order; the first failure is the answer.
pub fn review_permitted(
    user: &AuthUser,
    service_exists: bool,
    body: &CreateReviewRequest,
    has_completed_order: bool,
) -> (r: Option<Rejection>)
    ensures
        r is None <==> user.role@ == "buyer"@ && service_exists && review_problem(*body) is None
            && user.name@ == body.reviewer_name@ && has_completed_order,
        user.role@ != "buyer"@ ==> (r matches Some(e) && e@ == (FORBIDDEN, role_mismatch_message("buyer"@, user.role@))),
        user.role@ == "buyer"@ && !service_exists ==> (r matches Some(e) && e@ == (NOT_FOUND, "service not found"@)),
        user.role@ == "buyer"@ && service_exists && review_problem(*body) is None
            && user.name@ == body.reviewer_name@ && !has_completed_order ==> (r matches Some(e) && e@ == (
            FORBIDDEN,
            "only a buyer with a completed order for this service may leave a review"@,
        )),
        user.role@ == "buyer"@ && service_exists ==> (review_problem(*body) matches Some(p) ==> (r matches Some(e)
            && e@ == p)),
        user.role@ == "buyer"@ && service_exists && review_problem(*body) is None && user.name@
            != body.reviewer_name@ ==> (r matches Some(e) && e@ == (FORBIDDEN, name_mismatch_message("reviewer_name"@))),
{
    if let Some(e) = require_role(user, "buyer") {
        return Some(e);
    }
    if !service_exists {
        return Some(Rejection::new(NOT_FOUND, "service not found"));
    }
    if let Some(e) = prepare_review(user, body) {
        return Some(e);
    }
    if !has_completed_order {
        return Some(review_needs_completed_order());
    }
    None
}

} // verus!
