use aruaru_pro::reviews::review_permitted;
use aruaru_pro::auth::AuthUser;
use aruaru_pro::reviews::{
    default_commit_message, prepare_review, review_id, review_needs_completed_order, validate, CreateReviewRequest,
};

#[test]
fn validate_rejects_empty_reviewer_name() {
    let body = CreateReviewRequest {
        reviewer_name: "  ".to_string(),
        rating: 5,
        comment: "良かったです".to_string(),
        message: default_commit_message(),
    };
    assert!(validate(&body).is_some());
}

#[test]
fn validate_rejects_out_of_range_rating() {
    for rating in [0, 6, -1] {
        let body = CreateReviewRequest {
            reviewer_name: "山田太郎".to_string(),
            rating,
            comment: "コメント".to_string(),
            message: default_commit_message(),
        };
        assert!(validate(&body).is_some(), "rating {rating} must be rejected");
    }
}

#[test]
fn validate_accepts_a_well_formed_request() {
    let body = CreateReviewRequest {
        reviewer_name: "山田太郎".to_string(),
        rating: 5,
        comment: "良かったです".to_string(),
        message: default_commit_message(),
    };
    assert!(validate(&body).is_none());
}

#[test]
fn ratings_one_to_five_pass_with_the_bounds_included() {
    for rating in 1..=5 {
        let body = CreateReviewRequest {
            reviewer_name: "山田太郎".to_string(),
            rating,
            comment: String::new(),
            message: default_commit_message(),
        };
        assert!(validate(&body).is_none());
    }
    let body = CreateReviewRequest {
        reviewer_name: "山田太郎".to_string(),
        rating: 9,
        comment: String::new(),
        message: default_commit_message(),
    };
    assert_eq!(validate(&body).unwrap().message, "rating must be between 1 and 5");
}

#[test]
fn reviews_need_the_reviewer_to_be_the_user() {
    let user = AuthUser { name: "山田太郎".to_string(), role: "buyer".to_string() };
    let body = CreateReviewRequest {
        reviewer_name: "鈴木一郎".to_string(),
        rating: 4,
        comment: String::new(),
        message: default_commit_message(),
    };
    assert_eq!(prepare_review(&user, &body).unwrap().status, 403);
    assert_eq!(review_needs_completed_order().status, 403);
    assert!(review_id("svc-1", "山田太郎", "abc").starts_with("svc-1--abc-"));
}

#[test]
fn only_a_buyer_with_a_completed_order_may_review() {
    let buyer = AuthUser { name: "山田太郎".to_string(), role: "buyer".to_string() };
    let seller = AuthUser { name: "山田太郎".to_string(), role: "seller".to_string() };
    let body = CreateReviewRequest {
        reviewer_name: "山田太郎".to_string(),
        rating: 5,
        comment: String::new(),
        message: default_commit_message(),
    };
    assert!(review_permitted(&buyer, true, &body, true).is_none());
    assert_eq!(
        review_permitted(&buyer, true, &body, false).unwrap().message,
        "only a buyer with a completed order for this service may leave a review"
    );
    assert_eq!(review_permitted(&buyer, false, &body, true).unwrap().status, 404);
    assert_eq!(review_permitted(&seller, true, &body, true).unwrap().status, 403);
}
