use tasker::create::{new_hash, new_webhook, normalize_url, parse_kind_filter, parse_state_filter, CreateError};
use tasker::hashing::{derive_hash, derive_hash_with_salt, encode_derived, HashError, HashParams};
use tasker::lifecycle::TaskState;
use tasker::task::{Task, TaskKind};
use tasker::timing::TimeError;

const NOW: i64 = 1_893_456_000_000;

#[test]
fn webhook_request_is_accepted() {
    let c = new_webhook("2030-01-01T00:00:00.200Z", "example.com/hook".to_string(), "ping".to_string(), NOW)
        .unwrap();
    assert_eq!(c.deadline_ms, NOW + 200);
    match c.task {
        Task::Webhook(w) => {
            assert_eq!(w.id.len(), 36);
            assert_eq!(w.state, "todo");
            assert_eq!(w.execution_time, "2030-01-01T00:00:00.200+00:00");
            assert_eq!(w.url, "http://example.com/hook");
            assert_eq!(w.body, "ping");
        }
        Task::Hash(_) => panic!("expected a webhook"),
    }
}

#[test]
fn webhook_request_checks_in_order() {
    let e = new_webhook("yesterday", String::new(), String::new(), NOW).unwrap_err();
    assert_eq!(e, CreateError::Time(TimeError::NotRfc3339));
    let e = new_webhook("2029-01-01T00:00:00Z", "x".to_string(), "b".to_string(), NOW).unwrap_err();
    assert_eq!(e, CreateError::Time(TimeError::InPast));
    let e = new_webhook("2031-01-01T00:00:00Z", String::new(), String::new(), NOW).unwrap_err();
    assert_eq!(e, CreateError::EmptyUrl);
    let e = new_webhook("2031-01-01T00:00:00Z", "x".to_string(), String::new(), NOW).unwrap_err();
    assert_eq!(e, CreateError::EmptyBody);
}

#[test]
fn hash_request_is_accepted_or_refused() {
    let c = new_hash("2031-01-01T00:00:00+02:00", "s3cr3t".to_string(), NOW).unwrap();
    assert_eq!(c.task.kind(), TaskKind::Hash);
    assert_eq!(c.task.execution_time(), "2031-01-01T00:00:00+02:00");
    let e = new_hash("2031-01-01T00:00:00Z", String::new(), NOW).unwrap_err();
    assert_eq!(e, CreateError::EmptySecret);
}

#[test]
fn fresh_ids_differ() {
    let a = new_hash("2031-01-01T00:00:00Z", "s".to_string(), NOW).unwrap();
    let b = new_hash("2031-01-01T00:00:00Z", "s".to_string(), NOW).unwrap();
    assert_ne!(a.task.id(), b.task.id());
}

#[test]
fn url_scheme_is_kept_or_added() {
    assert_eq!(normalize_url("https://a.b".to_string()), "https://a.b");
    assert_eq!(normalize_url("http://a.b".to_string()), "http://a.b");
    assert_eq!(normalize_url("a.b".to_string()), "http://a.b");
    assert_eq!(normalize_url("httpx://a".to_string()), "http://httpx://a");
}

#[test]
fn listing_filters_ignore_case() {
    assert_eq!(parse_state_filter("In_Progress"), Some(TaskState::InProgress));
    assert_eq!(parse_state_filter("DONE"), Some(TaskState::Done));
    assert_eq!(parse_state_filter("running"), None);
    assert_eq!(parse_kind_filter("WebHook"), Some(TaskKind::Webhook));
    assert_eq!(parse_kind_filter("hash"), Some(TaskKind::Hash));
    assert_eq!(parse_kind_filter("hashes"), None);
}

#[test]
fn derived_outcome_is_encoded() {
    assert_eq!(encode_derived(Ok("abc".to_string())).unwrap(), "YWJj");
    assert_eq!(encode_derived(Ok("$pbkdf2".to_string())).unwrap(), "JHBia2RmMg==");
    assert_eq!(
        encode_derived(Err(pbkdf2::password_hash::Error::Password)).unwrap_err(),
        HashError::Derivation
    );
}

#[test]
fn secret_hash_with_standard_parameters() {
    let h = derive_hash("s3cr3t", HashParams::standard()).unwrap();
    assert!(!h.is_empty());
    assert_ne!(h, "s3cr3t");
}

#[test]
fn same_secret_hashes_differently() {
    let params = HashParams { rounds: 1_000, output_length: 32 };
    let a = derive_hash("s3cr3t", params).unwrap();
    let b = derive_hash("s3cr3t", params).unwrap();
    assert!(!a.is_empty());
    assert_ne!(a, b);
}

#[test]
fn invalid_output_length_fails() {
    let params = HashParams { rounds: 1_000, output_length: 1_000 };
    assert_eq!(derive_hash("s3cr3t", params).unwrap_err(), HashError::Derivation);
}

#[test]
fn different_salts_give_different_hashes() {
    let params = HashParams { rounds: 1_000, output_length: 32 };
    let a = derive_hash_with_salt("s3cr3t", "c2FsdHNhbHRzYWx0", params).unwrap();
    let a2 = derive_hash_with_salt("s3cr3t", "c2FsdHNhbHRzYWx0", params).unwrap();
    let b = derive_hash_with_salt("s3cr3t", "b3RoZXJzYWx0c2FsdA", params).unwrap();
    assert_eq!(a, a2);
    assert_ne!(a, b);
    assert!(!a.is_empty());
}

#[test]
fn salt_outside_the_alphabet_fails() {
    let params = HashParams { rounds: 1_000, output_length: 32 };
    assert_eq!(derive_hash_with_salt("s3cr3t", "$$$$$$$$", params).unwrap_err(), HashError::Derivation);
    assert_eq!(derive_hash_with_salt("s3cr3t", "abc", params).unwrap_err(), HashError::Derivation);
}
