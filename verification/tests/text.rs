use job_queue::tags::{normalize_tags, share_tag, worker_takes};
use job_queue::text::{copy_texts, decimal_text, holds_text, signed_decimal_text};

fn strings(items: &[&str]) -> Vec<String> {
    items.iter().map(|s| s.to_string()).collect()
}

#[test]
fn decimal_text_writes_numbers() {
    assert_eq!(decimal_text(0), "0");
    assert_eq!(decimal_text(7), "7");
    assert_eq!(decimal_text(10), "10");
    assert_eq!(decimal_text(1234567890), "1234567890");
    assert_eq!(decimal_text(u128::MAX), u128::MAX.to_string());
}

#[test]
fn signed_decimal_text_writes_sign() {
    assert_eq!(signed_decimal_text(0), "0");
    assert_eq!(signed_decimal_text(10), "10");
    assert_eq!(signed_decimal_text(-5), "-5");
    assert_eq!(signed_decimal_text(i64::MAX), "9223372036854775807");
    assert_eq!(signed_decimal_text(i64::MIN), "-9223372036854775808");
}

#[test]
fn copy_texts_copies() {
    let list = strings(&["a", "bc", ""]);
    assert_eq!(copy_texts(&list), list);
    assert_eq!(copy_texts(&[]), Vec::<String>::new());
}

#[test]
fn holds_text_finds_member() {
    let list = strings(&["email", "sms"]);
    assert!(holds_text(&list, &"sms".to_string()));
    assert!(!holds_text(&list, &"push".to_string()));
    assert!(!holds_text(&[], &"sms".to_string()));
}

#[test]
fn share_tag_is_intersection() {
    assert!(share_tag(&strings(&["email"]), &strings(&["email", "priority"])));
    assert!(share_tag(&strings(&["a", "priority"]), &strings(&["email", "priority"])));
    assert!(!share_tag(&strings(&["sms"]), &strings(&["email", "priority"])));
    assert!(!share_tag(&strings(&["sms"]), &[]));
    assert!(!share_tag(&[], &strings(&["email"])));
}

#[test]
fn untagged_worker_takes_untagged_jobs_only() {
    assert!(worker_takes(&[], &None));
    assert!(!worker_takes(&[], &Some(strings(&["email"]))));
    assert!(!worker_takes(&[], &Some(vec![])));
}

#[test]
fn tagged_worker_takes_jobs_with_one_of_its_tags() {
    let worker = strings(&["email"]);
    assert!(worker_takes(&worker, &Some(strings(&["email"]))));
    assert!(worker_takes(&worker, &Some(strings(&["email", "priority"]))));
    assert!(!worker_takes(&worker, &Some(strings(&["sms"]))));
    assert!(!worker_takes(&worker, &None));
    assert!(!worker_takes(&worker, &Some(vec![])));
}

#[test]
fn normalize_tags_drops_empty_list() {
    assert_eq!(normalize_tags(None), None);
    assert_eq!(normalize_tags(Some(vec![])), None);
    assert_eq!(normalize_tags(Some(strings(&["a"]))), Some(strings(&["a"])));
}
