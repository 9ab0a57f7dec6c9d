//! Service listings (what a seller offers): the checks on a listing before
//! it is stored, and its id.
use vstd::prelude::*;
use crate::text::{is_blank, is_blank_text, concat3, same_text};
use crate::rejection::{Rejection, empty_field, empty_field_refusal, empty_field_message, outcome, UNPROCESSABLE_ENTITY};
use crate::auth::{AuthUser, require_role, require_name_matches, name_mismatch_message, role_mismatch_message};
use crate::categories::{categories, category_names, is_listed_category};
use crate::ids::{make_id, id_of, texts_of};
use crate::rejection::FORBIDDEN;

verus! {

broadcast use vstd::string::group_string_axioms;

/// A new or changed service listing.
#[derive(Debug, Clone)]
pub struct UpsertServiceRequest {
    pub seller_name: String,
    pub category: String,
    pub title: String,
    pub description: String,
    pub price_yen: i32,
    pub message: String,
}

/// The commit message where the request gives none.
pub fn default_commit_message() -> (r: String)
    ensures
        r@ == "service listing update"@,
{
    String::from_str("service listing update")
}

/// What is wrong with a listing's fields, checked in this order: an empty
/// seller name, title, description or category; a price that is not positive.
pub open spec fn service_fields_problem(body: UpsertServiceRequest) -> Option<(u16, Seq<char>)> {
    if is_blank_text(body.seller_name@) {
        Some(empty_field_refusal("seller_name"@))
    } else if is_blank_text(body.title@) {
        Some(empty_field_refusal("title"@))
    } else if is_blank_text(body.description@) {
        Some(empty_field_refusal("description"@))
    } else if is_blank_text(body.category@) {
        Some(empty_field_refusal("category"@))
    } else if body.price_yen <= 0 {
        Some((UNPROCESSABLE_ENTITY, "price_yen must be a positive integer"@))
    } else {
        None
    }
}

/// Checks the required fields and the price (not the category: categories
/// added to the database later are known only there).
pub fn validate_upsert_fields(body: &UpsertServiceRequest) -> (r: Option<Rejection>)
    ensures
        outcome(r) == service_fields_problem(*body),
        r is None ==> !is_blank_text(body.seller_name@) && !is_blank_text(body.title@) && !is_blank_text(
            body.description@,
        ) && !is_blank_text(body.category@) && body.price_yen > 0,
        is_blank_text(body.seller_name@) ==> (r matches Some(e) && e@ == (UNPROCESSABLE_ENTITY, empty_field_message("seller_name"@))),
        !is_blank_text(body.seller_name@) && is_blank_text(body.title@) ==> (r matches Some(e) && e@ == (
            UNPROCESSABLE_ENTITY,
            empty_field_message("title"@),
        )),
        !is_blank_text(body.seller_name@) && !is_blank_text(body.title@) && is_blank_text(body.description@)
            ==> (r matches Some(e) && e@ == (UNPROCESSABLE_ENTITY, empty_field_message("description"@))),
        !is_blank_text(body.seller_name@) && !is_blank_text(body.title@) && !is_blank_text(body.description@)
            && is_blank_text(body.category@) ==> (r matches Some(e) && e@ == (UNPROCESSABLE_ENTITY, empty_field_message("category"@))),
{
    if is_blank(body.seller_name.as_str()) {
        return Some(empty_field("seller_name"));
    }
    if is_blank(body.title.as_str()) {
        return Some(empty_field("title"));
    }
    if is_blank(body.description.as_str()) {
        return Some(empty_field("description"));
    }
    if is_blank(body.category.as_str()) {
        return Some(empty_field("category"));
    }
    if body.price_yen <= 0 {
        return Some(Rejection::new(UNPROCESSABLE_ENTITY, "price_yen must be a positive integer"));
    }
    None
}

/// Whether `category` is one of the categories compiled into the master list
/// (no lookup in the database: categories added there later are not known).
pub fn category_is_known_statically(category: &str) -> (r: bool)
    ensures
        r == is_listed_category(category@),
{
    let list = categories();
    let mut i: usize = 0;
    while i < list.len()
        invariant
            i <= list@.len(),
            list@.len() == category_names().len(),
            forall|j: int| 0 <= j < list@.len() ==> (#[trigger] list@[j]).name@ == category_names()[j],
            forall|k: int| 0 <= k < i ==> category_names()[k] != category@,
        decreases list@.len() - i,
    {
        if same_text(list[i].name, category) {
            assert(category_names()[i as int] == category@);
            return true;
        }
        i += 1;
    }
    false
}

pub open spec fn unknown_category_message(category: Seq<char>) -> Seq<char> {
    "unknown category: \""@ + category + "\""@
}

/// 422: the category is in neither the master list nor the database.
pub fn unknown_category(category: &str) -> (r: Rejection)
    ensures
        r.status == UNPROCESSABLE_ENTITY,
        r.message@ == unknown_category_message(category@),
{
    Rejection { status: UNPROCESSABLE_ENTITY, message: concat3("unknown category: \"", category, "\"") }
}

/// The id of a listing: from the seller's name and the title, fallback `svc`.
pub fn service_id(seller_name: &str, title: &str) -> (id: String)
    ensures
        id@ == id_of(seq![seller_name@, title@], "svc"@),
{
    let parts: [&str; 2] = [seller_name, title];
    assert(texts_of(parts@) =~= seq![seller_name@, title@]);
    make_id(&parts, "svc")
}

/// A listing that passed the checks: its id, and whether its category is in
/// the master list (where it is not, the database must know it).
#[derive(Debug)]
pub struct ServiceUpsertPlan {
    pub id: String,
    pub category_known: bool,
}

/// The checks on a listing from a signed-in seller, in the order the request
/// makes them: the fields, then that the seller is the user.
pub fn prepare_service_upsert(user: &AuthUser, body: &UpsertServiceRequest) -> (r: Result<ServiceUpsertPlan, Rejection>)
    ensures
        service_fields_problem(*body) matches Some(p) ==> (r matches Err(e) && e@ == p),
        service_fields_problem(*body) is None && user.name@ != body.seller_name@ ==> (r matches Err(e)
            && e@ == (FORBIDDEN, name_mismatch_message("seller_name"@))),
        service_fields_problem(*body) is None && user.name@ == body.seller_name@ ==> (r matches Ok(plan)
            && plan.id@ == id_of(seq![body.seller_name@, body.title@], "svc"@)
            && plan.category_known == is_listed_category(body.category@)),
{
    if let Some(e) = validate_upsert_fields(body) {
        return Err(e);
    }
    if let Some(e) = require_name_matches(user, "seller_name", body.seller_name.as_str()) {
        return Err(e);
    }
    let category_known = category_is_known_statically(body.category.as_str());
    let id = service_id(body.seller_name.as_str(), body.title.as_str());
    Ok(ServiceUpsertPlan { id, category_known })
}


/// The whole access rule for a listing, given whether the database knows its
/// category: the user must be a seller, the fields must pass, the seller must
/// be the user, and the category must be in the master list or the database.
/// Checked in that order; on success, the listing's id.
pub fn service_upsert_permitted(
    user: &AuthUser,
    body: &UpsertServiceRequest,
    category_in_database: bool,
) -> (r: Result<String, Rejection>)
    ensures
        r is Ok <==> user.role@ == "seller"@ && service_fields_problem(*body) is None && user.name@
            == body.seller_name@ && (is_listed_category(body.category@) || category_in_database),
        r matches Ok(id) ==> id@ == id_of(seq![body.seller_name@, body.title@], "svc"@),
        user.role@ != "seller"@ ==> (r matches Err(e) && e@ == (FORBIDDEN, role_mismatch_message("seller"@, user.role@))),
        user.role@ == "seller"@ ==> (service_fields_problem(*body) matches Some(p) ==> (r matches Err(e) && e@ == p)),
        user.role@ == "seller"@ && service_fields_problem(*body) is None && user.name@ != body.seller_name@ ==> (
        r matches Err(e) && e@ == (FORBIDDEN, name_mismatch_message("seller_name"@))),
        user.role@ == "seller"@ && service_fields_problem(*body) is None && user.name@ == body.seller_name@
            && !is_listed_category(body.category@) && !category_in_database ==> (r matches Err(e) && e@ == (
            UNPROCESSABLE_ENTITY,
            unknown_category_message(body.category@),
        )),
{
    if let Some(e) = require_role(user, "seller") {
        return Err(e);
    }
    let plan = match prepare_service_upsert(user, body) {
        Ok(p) => p,
        Err(e) => return Err(e),
    };
    if !plan.category_known && !category_in_database {
        return Err(unknown_category(body.category.as_str()));
    }
    Ok(plan.id)
}


/// A listing passes the field checks only with a seller name, title,
/// description and category that are not blank and a positive price.
pub proof fn law_accepted_listing_has_every_field(body: UpsertServiceRequest)
    requires
        service_fields_problem(body) is None,
    ensures
        !is_blank_text(body.seller_name@),
        !is_blank_text(body.title@),
        !is_blank_text(body.description@),
        !is_blank_text(body.category@),
        body.price_yen > 0,
{
}

/// A listing whose description is blank (its seller name and title are not)
/// is refused with 422 naming the description.
pub proof fn law_blank_description_is_refused(body: UpsertServiceRequest)
    requires
        !is_blank_text(body.seller_name@),
        !is_blank_text(body.title@),
        is_blank_text(body.description@),
    ensures
        service_fields_problem(body) == Some((UNPROCESSABLE_ENTITY, empty_field_message("description"@))),
{
}

} // verus!
