//! Career-agent programs: free IT training with job placement, offered by
//! recruiting agencies. The checks on a program before it is stored, and its id.
use vstd::prelude::*;
use crate::text::{is_blank, is_blank_text};
use crate::rejection::{Rejection, empty_field, empty_field_refusal, empty_field_message, outcome, UNPROCESSABLE_ENTITY, FORBIDDEN};
use crate::auth::{AuthUser, require_role, require_name_matches, name_mismatch_message, role_mismatch_message};
use crate::ids::{make_id, id_of, texts_of};

verus! {

broadcast use vstd::string::group_string_axioms;

/// A new or changed program.
#[derive(Debug, Clone)]
pub struct UpsertProgramRequest {
    pub agent_name: String,
    pub program_name: String,
    pub description: String,
    pub training_weeks: i32,
    pub target_job_type: String,
    pub is_free_for_trainee: bool,
    pub message: String,
}

/// Programs are free for trainees unless the request says otherwise.
pub fn default_is_free() -> (r: bool)
    ensures
        r,
{
    true
}

/// The commit message where the request gives none.
pub fn default_commit_message() -> (r: String)
    ensures
        r@ == "career agent program update"@,
{
    String::from_str("career agent program update")
}

/// What is wrong with a program, checked in this order: an empty agent name,
/// program name, description or target job type; a training length that is
/// not positive.
pub open spec fn program_problem(body: UpsertProgramRequest) -> Option<(u16, Seq<char>)> {
    if is_blank_text(body.agent_name@) {
        Some(empty_field_refusal("agent_name"@))
    } else if is_blank_text(body.program_name@) {
        Some(empty_field_refusal("program_name"@))
    } else if is_blank_text(body.description@) {
        Some(empty_field_refusal("description"@))
    } else if is_blank_text(body.target_job_type@) {
        Some(empty_field_refusal("target_job_type"@))
    } else if body.training_weeks <= 0 {
        Some((UNPROCESSABLE_ENTITY, "training_weeks must be a positive integer"@))
    } else {
        None
    }
}

pub fn validate_upsert(body: &UpsertProgramRequest) -> (r: Option<Rejection>)
    ensures
        outcome(r) == program_problem(*body),
        r is None ==> !is_blank_text(body.agent_name@) && !is_blank_text(body.program_name@) && !is_blank_text(
            body.description@,
        ) && !is_blank_text(body.target_job_type@) && body.training_weeks > 0,
        is_blank_text(body.agent_name@) ==> (r matches Some(e) && e@ == (UNPROCESSABLE_ENTITY, empty_field_message("agent_name"@))),
        !is_blank_text(body.agent_name@) && is_blank_text(body.program_name@) ==> (r matches Some(e) && e@ == (
            UNPROCESSABLE_ENTITY,
            empty_field_message("program_name"@),
        )),
        !is_blank_text(body.agent_name@) && !is_blank_text(body.program_name@) && is_blank_text(body.description@)
            ==> (r matches Some(e) && e@ == (UNPROCESSABLE_ENTITY, empty_field_message("description"@))),
        !is_blank_text(body.agent_name@) && !is_blank_text(body.program_name@) && !is_blank_text(body.description@)
            && is_blank_text(body.target_job_type@) ==> (r matches Some(e) && e@ == (UNPROCESSABLE_ENTITY, empty_field_message("target_job_type"@))),
{
    if is_blank(body.agent_name.as_str()) {
        return Some(empty_field("agent_name"));
    }
    if is_blank(body.program_name.as_str()) {
        return Some(empty_field("program_name"));
    }
    if is_blank(body.description.as_str()) {
        return Some(empty_field("description"));
    }
    if is_blank(body.target_job_type.as_str()) {
        return Some(empty_field("target_job_type"));
    }
    if body.training_weeks <= 0 {
        return Some(Rejection::new(UNPROCESSABLE_ENTITY, "training_weeks must be a positive integer"));
    }
    None
}

/// The id of a program: from the agency's name and the program's, fallback `program`.
pub fn program_id(agent_name: &str, program_name: &str) -> (id: String)
    ensures
        id@ == id_of(seq![agent_name@, program_name@], "program"@),
{
    let parts: [&str; 2] = [agent_name, program_name];
    assert(texts_of(parts@) =~= seq![agent_name@, program_name@]);
    make_id(&parts, "program")
}

/// The checks on a program from a signed-in recruiter, in the order the
/// request makes them: the fields, then that the agency is the user; then its id.
pub fn prepare_program_upsert(user: &AuthUser, body: &UpsertProgramRequest) -> (r: Result<String, Rejection>)
    ensures
        program_problem(*body) matches Some(p) ==> (r matches Err(e) && e@ == p),
        program_problem(*body) is None && user.name@ != body.agent_name@ ==> (r matches Err(e) && e@
            == (FORBIDDEN, name_mismatch_message("agent_name"@))),
        program_problem(*body) is None && user.name@ == body.agent_name@ ==> (r matches Ok(id) && id@
            == id_of(seq![body.agent_name@, body.program_name@], "program"@)),
{
    if let Some(e) = validate_upsert(body) {
        return Err(e);
    }
    if let Some(e) = require_name_matches(user, "agent_name", body.agent_name.as_str()) {
        return Err(e);
    }
    Ok(program_id(body.agent_name.as_str(), body.program_name.as_str()))
}


/// The whole access rule for a program: the user must be a recruiter (agencies
/// act under that role), the fields must pass and the agency must be the user.
/// Checked in that order; on success, the program's id.
pub fn program_upsert_permitted(user: &AuthUser, body: &UpsertProgramRequest) -> (r: Result<String, Rejection>)
    ensures
        r is Ok <==> user.role@ == "recruiter"@ && program_problem(*body) is None && user.name@
            == body.agent_name@,
        r matches Ok(id) ==> id@ == id_of(seq![body.agent_name@, body.program_name@], "program"@),
        user.role@ != "recruiter"@ ==> (r matches Err(e) && e@ == (FORBIDDEN, role_mismatch_message("recruiter"@, user.role@))),
        user.role@ == "recruiter"@ ==> (program_problem(*body) matches Some(p) ==> (r matches Err(e) && e@ == p)),
        user.role@ == "recruiter"@ && program_problem(*body) is None && user.name@ != body.agent_name@ ==> (
        r matches Err(e) && e@ == (FORBIDDEN, name_mismatch_message("agent_name"@))),
{
    if let Some(e) = require_role(user, "recruiter") {
        return Err(e);
    }
    prepare_program_upsert(user, body)
}


/// A program passes the checks only with an agency name, program name,
/// description and target job type that are not blank and a positive
/// training length.
pub proof fn law_accepted_program_has_every_field(body: UpsertProgramRequest)
    requires
        program_problem(body) is None,
    ensures
        !is_blank_text(body.agent_name@),
        !is_blank_text(body.program_name@),
        !is_blank_text(body.description@),
        !is_blank_text(body.target_job_type@),
        body.training_weeks > 0,
{
}

/// A program whose target job type is blank (its other text fields are not)
/// is refused with 422 naming the target job type.
pub proof fn law_blank_target_job_type_is_refused(body: UpsertProgramRequest)
    requires
        !is_blank_text(body.agent_name@),
        !is_blank_text(body.program_name@),
        !is_blank_text(body.description@),
        is_blank_text(body.target_job_type@),
    ensures
        program_problem(body) == Some((UNPROCESSABLE_ENTITY, empty_field_message("target_job_type"@))),
{
}

} // verus!
