use aruaru_pro::ids::{hash_parts, make_id, make_id_with_hash, make_token, slugify, token_from_bytes};
use std::collections::hash_map::DefaultHasher;
use std::hash::{Hash, Hasher};

#[test]
fn different_japanese_inputs_do_not_collide() {
    let id_a = make_id(&["鈴木一郎", "ロゴ制作"], "svc");
    let id_b = make_id(&["佐藤花子", "ロゴ制作"], "svc");
    assert_ne!(id_a, id_b);
}

#[test]
fn same_input_is_deterministic() {
    let id_a = make_id(&["鈴木一郎", "ロゴ制作"], "svc");
    let id_b = make_id(&["鈴木一郎", "ロゴ制作"], "svc");
    assert_eq!(id_a, id_b);
}

#[test]
fn ascii_input_gets_a_readable_slug_prefix() {
    let id = make_id(&["Taro Suzuki", "Logo Design"], "svc");
    assert!(id.starts_with("taro-suzuki--logo-design-"), "got: {id}");
}

#[test]
fn all_japanese_input_falls_back_to_the_prefix() {
    let id = make_id(&["鈴木一郎", "ロゴ制作"], "svc");
    assert!(id.starts_with("svc-"), "got: {id}");
}

#[test]
fn hash_is_the_one_that_hashing_each_part_gives() {
    let parts = ["鈴木一郎", "Logo Design", ""];
    let mut hasher = DefaultHasher::new();
    for part in &parts {
        part.hash(&mut hasher);
        0u8.hash(&mut hasher);
    }
    assert_eq!(hash_parts(&parts), hasher.finish());
}

#[test]
fn id_ends_in_sixteen_lowercase_hex_digits() {
    assert_eq!(make_id_with_hash(&["a"], "p", 0xab), "a-00000000000000ab");
    assert_eq!(make_id_with_hash(&["日本"], "p", u64::MAX), "p-ffffffffffffffff");
    let id = make_id(&["x"], "p");
    let tail = &id[id.len() - 16..];
    assert!(tail.chars().all(|c| c.is_ascii_hexdigit() && !c.is_ascii_uppercase()));
    assert_eq!(&id[id.len() - 17..id.len() - 16], "-");
}

#[test]
fn slugs_keep_ascii_runs_joined_by_single_dashes() {
    assert_eq!(slugify("  Hello,   World!! "), "hello-world");
    assert_eq!(slugify("鈴木 Taro 一郎"), "taro");
    assert_eq!(slugify("---"), "");
    assert_eq!(slugify(""), "");
    assert_eq!(slugify("A1b2"), "a1b2");
    assert_eq!(slugify("\u{212A}elvin"), "kelvin");
}

#[test]
fn empty_slugs_are_left_out_of_the_id() {
    assert_eq!(make_id_with_hash(&["鈴木", "Logo", "!!"], "svc", 1), "logo-0000000000000001");
}

#[test]
fn tokens_are_thirty_two_lowercase_hex_digits() {
    let t = make_token().expect("random source");
    assert_eq!(t.len(), 32);
    assert!(t.chars().all(|c| c.is_ascii_hexdigit() && !c.is_ascii_uppercase()));
    assert_ne!(t, make_token().unwrap());
    assert_eq!(token_from_bytes(&[0x00, 0x0f, 0xa5, 0xff]), "000fa5ff");
}
