//! Job and part-time listings: what an employer posts (place, wage, kind of
//! employment), the checks on a listing before it is stored, and its id.
use vstd::prelude::*;
use crate::text::{is_blank, is_blank_text, same_text, concat3};
use crate::rejection::{Rejection, empty_field, empty_field_refusal, empty_field_message, outcome, UNPROCESSABLE_ENTITY, FORBIDDEN};
use crate::auth::{AuthUser, require_role, require_name_matches, name_mismatch_message, role_mismatch_message};
use crate::ids::{make_id, id_of, texts_of};

verus! {

broadcast use vstd::string::group_string_axioms;

/// The kinds of employment a listing can offer (a fixed list, so that
/// searching by kind works).
pub const EMPLOYMENT_TYPES: [&'static str; 6] = ["正社員", "契約社員", "アルバイト", "パート", "業務委託", "派遣"];

pub open spec fn is_employment_type(t: Seq<char>) -> bool {
    ||| t == "正社員"@
    ||| t == "契約社員"@
    ||| t == "アルバイト"@
    ||| t == "パート"@
    ||| t == "業務委託"@
    ||| t == "派遣"@
}

pub fn is_known_employment_type(t: &str) -> (r: bool)
    ensures
        r == is_employment_type(t@),
{
    same_text(t, "正社員") || same_text(t, "契約社員") || same_text(t, "アルバイト") || same_text(t, "パート")
        || same_text(t, "業務委託") || same_text(t, "派遣")
}

/// A new or changed job listing.
#[derive(Debug, Clone)]
pub struct UpsertJobListingRequest {
    pub employer_name: String,
    pub title: String,
    pub description: String,
    pub location: String,
    pub employment_type: String,
    pub hourly_wage_yen: i32,
    pub message: String,
}

/// The commit message where the request gives none.
pub fn default_commit_message() -> (r: String)
    ensures
        r@ == "job listing update"@,
{
    String::from_str("job listing update")
}

pub open spec fn unknown_employment_type_message(t: Seq<char>) -> Seq<char> {
    "unknown employment_type: \""@ + t + "\" (expected one of [\"正社員\", \"契約社員\", \"アルバイト\", \"パート\", \"業務委託\", \"派遣\"])"@
}

/// What is wrong with a listing, checked in this order: an empty employer
/// name, title, description or location; an unknown kind of employment; a
/// wage that is not positive.
pub open spec fn job_listing_problem(body: UpsertJobListingRequest) -> Option<(u16, Seq<char>)> {
    if is_blank_text(body.employer_name@) {
        Some(empty_field_refusal("employer_name"@))
    } else if is_blank_text(body.title@) {
        Some(empty_field_refusal("title"@))
    } else if is_blank_text(body.description@) {
        Some(empty_field_refusal("description"@))
    } else if is_blank_text(body.location@) {
        Some(empty_field_refusal("location"@))
    } else if !is_employment_type(body.employment_type@) {
        Some((UNPROCESSABLE_ENTITY, unknown_employment_type_message(body.employment_type@)))
    } else if body.hourly_wage_yen <= 0 {
        Some((UNPROCESSABLE_ENTITY, "hourly_wage_yen must be a positive integer"@))
    } else {
        None
    }
}

pub fn validate_upsert(body: &UpsertJobListingRequest) -> (r: Option<Rejection>)
    ensures
        outcome(r) == job_listing_problem(*body),
        r is None ==> !is_blank_text(body.employer_name@) && !is_blank_text(body.title@) && !is_blank_text(
            body.description@,
        ) && !is_blank_text(body.location@) && body.hourly_wage_yen > 0 && seq![
            "正社員"@,
            "契約社員"@,
            "アルバイト"@,
            "パート"@,
            "業務委託"@,
            "派遣"@,
        ].contains(body.employment_type@),
        is_blank_text(body.employer_name@) ==> (r matches Some(e) && e@ == (UNPROCESSABLE_ENTITY, empty_field_message("employer_name"@))),
        !is_blank_text(body.employer_name@) && is_blank_text(body.title@) ==> (r matches Some(e) && e@ == (
            UNPROCESSABLE_ENTITY,
            empty_field_message("title"@),
        )),
        !is_blank_text(body.employer_name@) && !is_blank_text(body.title@) && is_blank_text(body.description@)
            ==> (r matches Some(e) && e@ == (UNPROCESSABLE_ENTITY, empty_field_message("description"@))),
        !is_blank_text(body.employer_name@) && !is_blank_text(body.title@) && !is_blank_text(body.description@)
            && is_blank_text(body.location@) ==> (r matches Some(e) && e@ == (UNPROCESSABLE_ENTITY, empty_field_message("location"@))),
{
    if is_blank(body.employer_name.as_str()) {
        return Some(empty_field("employer_name"));
    }
    if is_blank(body.title.as_str()) {
        return Some(empty_field("title"));
    }
    if is_blank(body.description.as_str()) {
        return Some(empty_field("description"));
    }
    if is_blank(body.location.as_str()) {
        return Some(empty_field("location"));
    }
    if !is_known_employment_type(body.employment_type.as_str()) {
        return Some(Rejection {
            status: UNPROCESSABLE_ENTITY,
            message: concat3(
                "unknown employment_type: \"",
                body.employment_type.as_str(),
                "\" (expected one of [\"正社員\", \"契約社員\", \"アルバイト\", \"パート\", \"業務委託\", \"派遣\"])",
            ),
        });
    }
    if body.hourly_wage_yen <= 0 {
        return Some(Rejection::new(UNPROCESSABLE_ENTITY, "hourly_wage_yen must be a positive integer"));
    }
    None
}

/// The id of a listing: from the employer's name and the title, fallback `job`.
pub fn job_listing_id(employer_name: &str, title: &str) -> (id: String)
    ensures
        id@ == id_of(seq![employer_name@, title@], "job"@),
{
    let parts: [&str; 2] = [employer_name, title];
    assert(texts_of(parts@) =~= seq![employer_name@, title@]);
    make_id(&parts, "job")
}

/// The checks on a listing from a signed-in recruiter, in the order the
/// request makes them: the fields, then that the employer is the user; then its id.
pub fn prepare_job_listing_upsert(user: &AuthUser, body: &UpsertJobListingRequest) -> (r: Result<String, Rejection>)
    ensures
        job_listing_problem(*body) matches Some(p) ==> (r matches Err(e) && e@ == p),
        job_listing_problem(*body) is None && user.name@ != body.employer_name@ ==> (r matches Err(e)
            && e@ == (FORBIDDEN, name_mismatch_message("employer_name"@))),
        job_listing_problem(*body) is None && user.name@ == body.employer_name@ ==> (r matches Ok(id)
            && id@ == id_of(seq![body.employer_name@, body.title@], "job"@)),
{
    if let Some(e) = validate_upsert(body) {
        return Err(e);
    }
    if let Some(e) = require_name_matches(user, "employer_name", body.employer_name.as_str()) {
        return Err(e);
    }
    Ok(job_listing_id(body.employer_name.as_str(), body.title.as_str()))
}


/// The whole access rule for a job listing: the user must be a recruiter,
/// the fields must pass and the employer must be the user. Checked in that
/// order; on success, the listing's id.
pub fn job_listing_upsert_permitted(user: &AuthUser, body: &UpsertJobListingRequest) -> (r: Result<String, Rejection>)
    ensures
        r is Ok <==> user.role@ == "recruiter"@ && job_listing_problem(*body) is None && user.name@
            == body.employer_name@,
        r matches Ok(id) ==> id@ == id_of(seq![body.employer_name@, body.title@], "job"@),
        user.role@ != "recruiter"@ ==> (r matches Err(e) && e@ == (FORBIDDEN, role_mismatch_message("recruiter"@, user.role@))),
        user.role@ == "recruiter"@ ==> (job_listing_problem(*body) matches Some(p) ==> (r matches Err(e) && e@ == p)),
        user.role@ == "recruiter"@ && job_listing_problem(*body) is None && user.name@ != body.employer_name@ ==> (
        r matches Err(e) && e@ == (FORBIDDEN, name_mismatch_message("employer_name"@))),
{
    if let Some(e) = require_role(user, "recruiter") {
        return Err(e);
    }
    prepare_job_listing_upsert(user, body)
}


/// A job listing passes the checks only with an employer name, title,
/// description and location that are not blank, one of the six kinds of
/// employment, and a positive hourly wage.
pub proof fn law_accepted_job_listing_has_every_field(body: UpsertJobListingRequest)
    requires
        job_listing_problem(body) is None,
    ensures
        !is_blank_text(body.employer_name@),
        !is_blank_text(body.title@),
        !is_blank_text(body.description@),
        !is_blank_text(body.location@),
        body.hourly_wage_yen > 0,
        seq!["正社員"@, "契約社員"@, "アルバイト"@, "パート"@, "業務委託"@, "派遣"@].contains(body.employment_type@),
{
    let kinds = seq!["正社員"@, "契約社員"@, "アルバイト"@, "パート"@, "業務委託"@, "派遣"@];
    let t = body.employment_type@;
    if t == "正社員"@ { assert(kinds[0] == t); }
    else if t == "契約社員"@ { assert(kinds[1] == t); }
    else if t == "アルバイト"@ { assert(kinds[2] == t); }
    else if t == "パート"@ { assert(kinds[3] == t); }
    else if t == "業務委託"@ { assert(kinds[4] == t); }
    else { assert(kinds[5] == t); }
}

/// A job listing with a blank title (its employer name is not) is refused
/// with 422 naming the title.
pub proof fn law_blank_title_is_refused(body: UpsertJobListingRequest)
    requires
        !is_blank_text(body.employer_name@),
        is_blank_text(body.title@),
    ensures
        job_listing_problem(body) == Some((UNPROCESSABLE_ENTITY, empty_field_message("title"@))),
{
}

} // verus!
