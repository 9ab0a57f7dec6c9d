use aruaru_pro::career_agent_programs::program_upsert_permitted;
use aruaru_pro::job_listings::job_listing_upsert_permitted;
use aruaru_pro::services::service_upsert_permitted;
use aruaru_pro::auth::AuthUser;
use aruaru_pro::career_agent_programs::{self, default_is_free, UpsertProgramRequest};
use aruaru_pro::job_listings::{self, UpsertJobListingRequest, EMPLOYMENT_TYPES};
use aruaru_pro::services::{
    self, category_is_known_statically, prepare_service_upsert, validate_upsert_fields, UpsertServiceRequest,
};
use aruaru_pro::categories::categories;

fn well_formed_program() -> UpsertProgramRequest {
    UpsertProgramRequest {
        agent_name: "株式会社キャリアエージェント".to_string(),
        program_name: "未経験からのITエンジニア転職コース".to_string(),
        description: "12週間の実務研修後に提携企業へ紹介".to_string(),
        training_weeks: 12,
        target_job_type: "Webエンジニア".to_string(),
        is_free_for_trainee: true,
        message: career_agent_programs::default_commit_message(),
    }
}

#[test]
fn career_agent_programs_validate_upsert_accepts_a_well_formed_request() {
    assert!(career_agent_programs::validate_upsert(&well_formed_program()).is_none());
}

#[test]
fn career_agent_programs_validate_upsert_rejects_empty_required_fields() {
    let mut body = well_formed_program();
    body.program_name = "  ".to_string();
    assert!(career_agent_programs::validate_upsert(&body).is_some());
}

#[test]
fn validate_upsert_rejects_non_positive_training_weeks() {
    let mut body = well_formed_program();
    body.training_weeks = 0;
    assert!(career_agent_programs::validate_upsert(&body).is_some());
}

#[test]
fn is_free_for_trainee_defaults_to_true() {
    assert!(default_is_free());
}

#[test]
fn program_checks_report_the_first_problem() {
    let mut body = well_formed_program();
    body.agent_name = String::new();
    body.training_weeks = -3;
    assert_eq!(
        career_agent_programs::validate_upsert(&body).unwrap().message,
        "field \"agent_name\" must not be empty"
    );
    let mut weeks = well_formed_program();
    weeks.training_weeks = -3;
    assert_eq!(
        career_agent_programs::validate_upsert(&weeks).unwrap().message,
        "training_weeks must be a positive integer"
    );
    let user = AuthUser { name: "株式会社キャリアエージェント".to_string(), role: "recruiter".to_string() };
    assert!(career_agent_programs::prepare_program_upsert(&user, &well_formed_program()).unwrap().starts_with("it-"));
}

fn well_formed_job() -> UpsertJobListingRequest {
    UpsertJobListingRequest {
        employer_name: "株式会社サンプル".to_string(),
        title: "接客スタッフ".to_string(),
        description: "カフェでの接客業務".to_string(),
        location: "東京都渋谷区".to_string(),
        employment_type: "アルバイト".to_string(),
        hourly_wage_yen: 1200,
        message: job_listings::default_commit_message(),
    }
}

#[test]
fn job_listings_validate_upsert_accepts_a_well_formed_request() {
    assert!(job_listings::validate_upsert(&well_formed_job()).is_none());
}

#[test]
fn job_listings_validate_upsert_rejects_empty_required_fields() {
    let mut body = well_formed_job();
    body.location = "  ".to_string();
    assert!(job_listings::validate_upsert(&body).is_some());
}

#[test]
fn validate_upsert_rejects_unknown_employment_type() {
    let mut body = well_formed_job();
    body.employment_type = "フリーランス".to_string();
    assert!(job_listings::validate_upsert(&body).is_some());
}

#[test]
fn validate_upsert_rejects_non_positive_wage() {
    let mut body = well_formed_job();
    body.hourly_wage_yen = 0;
    assert!(job_listings::validate_upsert(&body).is_some());
}

#[test]
fn validate_upsert_accepts_every_known_employment_type() {
    for employment_type in EMPLOYMENT_TYPES {
        let mut body = well_formed_job();
        body.employment_type = employment_type.to_string();
        assert!(job_listings::validate_upsert(&body).is_none(), "employment_type {employment_type} must be accepted");
    }
}

#[test]
fn unknown_employment_type_message_lists_the_kinds() {
    let mut body = well_formed_job();
    body.employment_type = "フリーランス".to_string();
    assert_eq!(
        job_listings::validate_upsert(&body).unwrap().message,
        format!("unknown employment_type: \"フリーランス\" (expected one of {:?})", EMPLOYMENT_TYPES)
    );
    let user = AuthUser { name: "別の会社".to_string(), role: "recruiter".to_string() };
    assert_eq!(job_listings::prepare_job_listing_upsert(&user, &well_formed_job()).unwrap_err().status, 403);
}

#[test]
fn services_validate_upsert_rejects_empty_required_fields() {
    let body = UpsertServiceRequest {
        seller_name: "  ".to_string(),
        category: "デザイン制作".to_string(),
        title: "ロゴ制作".to_string(),
        description: "説明".to_string(),
        price_yen: 1000,
        message: services::default_commit_message(),
    };
    assert!(validate_upsert_fields(&body).is_some());
}

#[test]
fn validate_upsert_rejects_non_positive_price() {
    let body = UpsertServiceRequest {
        seller_name: "鈴木一郎".to_string(),
        category: "デザイン制作".to_string(),
        title: "ロゴ制作".to_string(),
        description: "説明".to_string(),
        price_yen: 0,
        message: services::default_commit_message(),
    };
    assert!(validate_upsert_fields(&body).is_some());
}

#[test]
fn category_is_known_statically_rejects_unknown_category() {
    assert!(!category_is_known_statically("存在しないカテゴリ"));
}

#[test]
fn category_is_known_statically_accepts_every_seeded_category() {
    for cat in categories() {
        assert!(category_is_known_statically(cat.name), "category {} must be known statically", cat.name);
    }
}

#[test]
fn services_validate_upsert_accepts_a_well_formed_request() {
    let body = UpsertServiceRequest {
        seller_name: "鈴木一郎".to_string(),
        category: "デザイン制作".to_string(),
        title: "ロゴ制作".to_string(),
        description: "説明".to_string(),
        price_yen: 5000,
        message: services::default_commit_message(),
    };
    assert!(validate_upsert_fields(&body).is_none());
}

#[test]
fn service_plan_says_whether_the_category_is_listed() {
    let user = AuthUser { name: "鈴木一郎".to_string(), role: "seller".to_string() };
    let mut body = UpsertServiceRequest {
        seller_name: "鈴木一郎".to_string(),
        category: "デザイン制作".to_string(),
        title: "Logo".to_string(),
        description: "説明".to_string(),
        price_yen: 5000,
        message: services::default_commit_message(),
    };
    let plan = prepare_service_upsert(&user, &body).unwrap();
    assert!(plan.category_known);
    assert!(plan.id.starts_with("logo-"));
    body.category = "新カテゴリ".to_string();
    assert!(!prepare_service_upsert(&user, &body).unwrap().category_known);
    body.price_yen = -1;
    assert_eq!(prepare_service_upsert(&user, &body).unwrap_err().message, "price_yen must be a positive integer");
    assert_eq!(services::unknown_category("x").message, "unknown category: \"x\"");
}

#[test]
fn writes_need_the_right_role_and_the_users_own_name() {

    let seller = AuthUser { name: "鈴木一郎".to_string(), role: "seller".to_string() };
    let buyer = AuthUser { name: "鈴木一郎".to_string(), role: "buyer".to_string() };
    let body = UpsertServiceRequest {
        seller_name: "鈴木一郎".to_string(),
        category: "新カテゴリ".to_string(),
        title: "Logo".to_string(),
        description: "説明".to_string(),
        price_yen: 5000,
        message: services::default_commit_message(),
    };
    assert_eq!(
        service_upsert_permitted(&buyer, &body, true).unwrap_err().message,
        "this action requires role \"seller\", but the authenticated user has role \"buyer\""
    );
    assert_eq!(service_upsert_permitted(&seller, &body, false).unwrap_err().message, "unknown category: \"新カテゴリ\"");
    assert!(service_upsert_permitted(&seller, &body, true).unwrap().starts_with("logo-"));

    let recruiter = AuthUser { name: "株式会社サンプル".to_string(), role: "recruiter".to_string() };
    assert!(job_listing_upsert_permitted(&recruiter, &well_formed_job()).is_ok());
    assert_eq!(job_listing_upsert_permitted(&seller, &well_formed_job()).unwrap_err().status, 403);

    let agency = AuthUser { name: "株式会社キャリアエージェント".to_string(), role: "recruiter".to_string() };
    assert!(program_upsert_permitted(&agency, &well_formed_program()).is_ok());
    assert_eq!(program_upsert_permitted(&recruiter, &well_formed_program()).unwrap_err().status, 403);
}
