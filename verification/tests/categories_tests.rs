use aruaru_pro::categories::{categories, DESIGN_CATEGORY_INDEX};

#[test]
fn categories_are_non_empty_and_names_are_unique() {
    let list = categories();
    assert!(!list.is_empty());
    let mut names: Vec<&str> = list.iter().map(|c| c.name).collect();
    let len_before = names.len();
    names.sort();
    names.dedup();
    assert_eq!(names.len(), len_before, "category names must be unique");
}

#[test]
fn design_category_carries_its_coconala_subcategories() {
    let list = categories();
    let design = list.iter().find(|c| c.name == "デザイン制作").expect("デザイン制作 must exist");
    assert!(design.children.contains(&"ロゴ作成・ロゴデザイン"));
    assert!(design.children.len() >= 20);
}

#[test]
fn only_the_design_category_has_children_and_jobs_come_last() {
    let list = categories();
    for (i, c) in list.iter().enumerate() {
        assert_eq!(c.children.is_empty(), i != DESIGN_CATEGORY_INDEX);
    }
    assert_eq!(list.last().unwrap().name, "求人・アルバイト情報");
}
