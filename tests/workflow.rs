use onlyfangs::auth::{can_access, is_admin, TwitchAdminUser, TwitchUser, User};
use onlyfangs::config::{random_secret, TwitchConfig};
use onlyfangs::enums::{ApplicationStatus, TwitchAccountType};
use onlyfangs::error::{ApiError, Response};
use onlyfangs::query::{build_query, contains_text, substring_pattern, ApplicationQuery};
use onlyfangs::store::{check_comment_body, gate, submission, ApplicationStore};
use onlyfangs::workflow::{can_transition, transition_comment};

fn user(id: i32, name: &str, tier: TwitchAccountType, follows: i32) -> User {
    User {
        twitch_user_id: id,
        twitch_username: name.to_string(),
        twitch_display_name: name.to_uppercase(),
        twitch_profile_image_url: format!("https://img.example/{}.png", name),
        twitch_account_type: tier,
        follow_count: follows,
    }
}

fn no_filter() -> ApplicationQuery {
    ApplicationQuery { status: None, twitch_account_type: None, min_follow_count: None, twitch_username: None }
}

const ALL: [ApplicationStatus; 4] = [
    ApplicationStatus::Pending,
    ApplicationStatus::Approved,
    ApplicationStatus::Maybe,
    ApplicationStatus::Rejected,
];

#[test]
fn status_labels_round_trip() {
    for s in ALL {
        let bytes = s.to_sql_bytes();
        assert_eq!(ApplicationStatus::from_sql_bytes(&bytes), Some(s));
    }
    assert_eq!(ApplicationStatus::Approved.to_sql_bytes(), b"approved".to_vec());
    assert_eq!(ApplicationStatus::from_sql_bytes(b"pending"), Some(ApplicationStatus::Pending));
    assert_eq!(ApplicationStatus::from_sql_bytes(b"Pending"), None);
    assert_eq!(ApplicationStatus::from_sql_bytes(b""), None);
}

#[test]
fn account_type_labels_round_trip() {
    for t in [TwitchAccountType::Pleb, TwitchAccountType::Affiliate, TwitchAccountType::Partner] {
        let bytes = t.to_sql_bytes();
        assert_eq!(TwitchAccountType::from_sql_bytes(&bytes), Some(t));
    }
    assert_eq!(TwitchAccountType::Affiliate.to_sql_bytes(), b"affiliate".to_vec());
    assert_eq!(TwitchAccountType::from_sql_bytes(b"partners"), None);
}

#[test]
fn access_is_owner_or_admin() {
    let admins = vec![1, 2, 3];
    let u7 = user(7, "seven", TwitchAccountType::Pleb, 0);
    let admin = user(2, "boss", TwitchAccountType::Partner, 0);
    assert!(can_access(&u7, 7, &admins));
    assert!(!can_access(&u7, 42, &admins));
    assert!(can_access(&admin, 42, &admins));
    assert!(is_admin(3, &admins));
    assert!(!is_admin(4, &admins));
    assert!(!is_admin(4, &vec![]));
}

#[test]
fn resolve_needs_claims_and_admin_list() {
    let admins = vec![5];
    let err = TwitchUser::resolve(None).unwrap_err();
    assert_eq!(err.status, 401);
    assert_eq!(err.message, "Unauthorized");
    let ok = TwitchUser::resolve(Some(user(7, "seven", TwitchAccountType::Pleb, 1))).unwrap();
    assert_eq!(ok.0.twitch_user_id, 7);
    let err = TwitchAdminUser::resolve(Some(user(7, "seven", TwitchAccountType::Pleb, 1)), &admins).unwrap_err();
    assert_eq!(err.status, 403);
    let err = TwitchAdminUser::resolve(None, &admins).unwrap_err();
    assert_eq!(err.status, 401);
    let admin = TwitchAdminUser::resolve(Some(user(5, "boss", TwitchAccountType::Partner, 1)), &admins).unwrap();
    assert_eq!(admin.as_user().twitch_user_id, 5);
}

#[test]
fn error_constructors() {
    assert_eq!(ApiError::not_found().status, 404);
    assert_eq!(ApiError::not_found().message, "Not found");
    assert_eq!(ApiError::internal_server_error().status, 500);
    assert_eq!(ApiError::not_implemented().status, 501);
    assert_eq!(ApiError::forbidden().status, 403);
    let e = ApiError::bad_request("comment too long");
    assert_eq!((e.status, e.message.as_str()), (400, "comment too long"));
    let e = ApiError::new(418, "teapot".to_string());
    assert_eq!(e.status, 418);
    let r = Response { status: 200, data: 3 };
    assert_eq!((r.status, r.data), (200, 3));
}

#[test]
fn transition_table_is_all_to_all() {
    for a in ALL {
        for b in ALL {
            assert!(can_transition(a, b));
        }
    }
    assert_eq!(transition_comment(ApplicationStatus::Approved), "Moved to accepted");
    assert_eq!(transition_comment(ApplicationStatus::Rejected), "Moved to rejected");
    assert_eq!(transition_comment(ApplicationStatus::Maybe), "Moved to maybe");
    assert_eq!(transition_comment(ApplicationStatus::Pending), "Moved to pending");
}

#[test]
fn query_rejects_negative_follow_count() {
    let q = ApplicationQuery { min_follow_count: Some(-1), ..no_filter() };
    let e = build_query(q).unwrap_err();
    assert_eq!(e.status, 400);
    assert_eq!(e.message, "min_follow_count must be greater than 0");
    let q = ApplicationQuery { min_follow_count: Some(0), ..no_filter() };
    assert!(build_query(q).is_ok());
}

#[test]
fn query_rejects_long_username() {
    let q = ApplicationQuery { twitch_username: Some("a".repeat(101)), ..no_filter() };
    let e = build_query(q).unwrap_err();
    assert_eq!(e.status, 400);
    assert_eq!(e.message, "twitch_username too long");
    let q = ApplicationQuery { twitch_username: Some("a".repeat(100)), ..no_filter() };
    let plan = build_query(q).unwrap();
    assert_eq!(plan.twitch_username.unwrap().len(), 100);
}

#[test]
fn substring_search() {
    assert!(contains_text("xqcow", "qco"));
    assert!(contains_text("xqcow", ""));
    assert!(contains_text("xqcow", "xqcow"));
    assert!(!contains_text("xqcow", "xqcowx"));
    assert!(!contains_text("xqcow", "QCO"));
    assert!(!contains_text("", "a"));
}

fn store_with_three() -> (ApplicationStore, Vec<i32>) {
    let mut store = ApplicationStore::new(1, 1);
    store.submit_application(&user(10, "AlphaWolf", TwitchAccountType::Partner, 5000), &vec![], "r1".into(), "c1".into(), 100).unwrap();
    store.submit_application(&user(11, "betaFox", TwitchAccountType::Affiliate, 40), &vec![], "r2".into(), "c2".into(), 101).unwrap();
    store.submit_application(&user(12, "gammawolf", TwitchAccountType::Pleb, 300), &vec![], "r3".into(), "c3".into(), 102).unwrap();
    (store, vec![99])
}

#[test]
fn filter_by_status_returns_only_that_status() {
    let (mut store, admins) = store_with_three();
    let admin = user(99, "boss", TwitchAccountType::Partner, 0);
    store.update_application(2, ApplicationStatus::Approved, &admin, &admins, 200).unwrap();
    let q = ApplicationQuery { status: Some(ApplicationStatus::Approved), ..no_filter() };
    let found = store.get_applications(&admin, &admins, q).unwrap();
    assert_eq!(found.len(), 1);
    assert_eq!(found[0].id, 2);
    assert!(found.iter().all(|a| a.status == ApplicationStatus::Approved));
}

#[test]
fn filter_criteria_combine() {
    let (store, admins) = store_with_three();
    let admin = user(99, "boss", TwitchAccountType::Partner, 0);
    let all = store.get_applications(&admin, &admins, no_filter()).unwrap();
    assert_eq!(all.iter().map(|a| a.id).collect::<Vec<_>>(), vec![1, 2, 3]);
    let q = ApplicationQuery { twitch_username: Some("WOLF".into()), ..no_filter() };
    let wolves = store.get_applications(&admin, &admins, q).unwrap();
    assert_eq!(wolves.iter().map(|a| a.id).collect::<Vec<_>>(), vec![1, 3]);
    let q = ApplicationQuery { twitch_username: Some("wolf".into()), min_follow_count: Some(1000), ..no_filter() };
    let big = store.get_applications(&admin, &admins, q).unwrap();
    assert_eq!(big.iter().map(|a| a.id).collect::<Vec<_>>(), vec![1]);
    let q = ApplicationQuery { twitch_account_type: Some(TwitchAccountType::Affiliate), ..no_filter() };
    let aff = store.get_applications(&admin, &admins, q).unwrap();
    assert_eq!(aff.iter().map(|a| a.id).collect::<Vec<_>>(), vec![2]);
    let q = ApplicationQuery { min_follow_count: Some(-1), ..no_filter() };
    assert_eq!(store.get_applications(&admin, &admins, q).unwrap_err().status, 400);
    let someone = user(10, "AlphaWolf", TwitchAccountType::Partner, 5000);
    assert_eq!(store.get_applications(&someone, &admins, no_filter()).unwrap_err().status, 403);
}

#[test]
fn submission_is_pending_with_snapshot() {
    let mut store = ApplicationStore::new(1, 1);
    let u = user(7, "seven", TwitchAccountType::Affiliate, 77);
    let id = store.submit_application(&u, &vec![], "because".into(), "https://clip".into(), 1234).unwrap();
    assert_eq!(id, 1);
    let a = store.fetch_by_id(id).unwrap();
    assert_eq!(a.status, ApplicationStatus::Pending);
    assert_eq!(a.twitch_id, 7);
    assert_eq!(a.twitch_username, "seven");
    assert_eq!(a.twitch_display_name, "SEVEN");
    assert_eq!(a.twitch_profile_image_url, "https://img.example/seven.png");
    assert_eq!(a.twitch_account_type, TwitchAccountType::Affiliate);
    assert_eq!(a.follow_count, 77);
    assert_eq!(a.reason, "because");
    assert_eq!(a.support_clip_url, "https://clip");
    assert_eq!((a.created_at, a.updated_at, a.completed_at), (1234, 1234, None));
    assert!(store.fetch_by_id(2).is_none());
}

#[test]
fn identifiers_exhausted_is_internal() {
    let mut store = ApplicationStore::new(i32::MAX, 1);
    let u = user(7, "seven", TwitchAccountType::Pleb, 0);
    assert_eq!(store.submit_application(&u, &vec![], "a".into(), "b".into(), 1).unwrap(), i32::MAX);
    let e = store.submit_application(&u, &vec![], "a".into(), "b".into(), 2).unwrap_err();
    assert_eq!(e.status, 500);
    assert_eq!(store.get_my_applications(&u).len(), 1);
}

#[test]
fn every_transition_appends_one_matching_comment() {
    let admins = vec![1];
    let admin = user(1, "boss", TwitchAccountType::Partner, 0);
    for from in ALL {
        for to in ALL {
            let mut store = ApplicationStore::new(1, 1);
            let owner = user(7, "seven", TwitchAccountType::Pleb, 3);
            let id = store.submit_application(&owner, &vec![], "r".into(), "c".into(), 10).unwrap();
            store.update_application(id, from, &admin, &admins, 20).unwrap();
            let before = store.get_comments(id, &owner, &admins).unwrap().len();
            assert_eq!(store.update_application(id, to, &admin, &admins, 30).unwrap(), id);
            let comments = store.get_comments(id, &owner, &admins).unwrap();
            assert_eq!(comments.len(), before + 1);
            let last = comments.last().unwrap();
            assert_eq!(last.comment, transition_comment(to));
            assert_eq!(last.twitch_user_id, 1);
            assert_eq!(last.twitch_username, "boss");
            assert_eq!(last.created_at, 30);
            let a = store.fetch_by_id(id).unwrap();
            assert_eq!((a.status, a.updated_at, a.created_at), (to, 30, 10));
        }
    }
}

#[test]
fn non_admin_transition_changes_nothing() {
    let admins = vec![1];
    let mut store = ApplicationStore::new(1, 1);
    let owner = user(7, "seven", TwitchAccountType::Pleb, 3);
    let id = store.submit_application(&owner, &vec![], "r".into(), "c".into(), 10).unwrap();
    let e = store.update_application(id, ApplicationStatus::Approved, &owner, &admins, 20).unwrap_err();
    assert_eq!(e.status, 403);
    let a = store.fetch_by_id(id).unwrap();
    assert_eq!((a.status, a.updated_at), (ApplicationStatus::Pending, 10));
    assert!(store.get_comments(id, &owner, &admins).unwrap().is_empty());
    let admin = user(1, "boss", TwitchAccountType::Partner, 0);
    let e = store.update_application(55, ApplicationStatus::Approved, &admin, &admins, 20).unwrap_err();
    assert_eq!(e.status, 404);
}

#[test]
fn comment_length_limit() {
    let admins = vec![1];
    let mut store = ApplicationStore::new(1, 1);
    let owner = user(7, "seven", TwitchAccountType::Pleb, 3);
    let id = store.submit_application(&owner, &vec![], "r".into(), "c".into(), 10).unwrap();
    let e = store.add_comment(id, &owner, &admins, "x".repeat(1001), 11).unwrap_err();
    assert_eq!(e.status, 400);
    assert_eq!(e.message, "comment too long");
    assert!(store.get_comments(id, &owner, &admins).unwrap().is_empty());
    let cid = store.add_comment(id, &owner, &admins, "x".repeat(1000), 12).unwrap();
    assert_eq!(cid, 1);
    let cs = store.get_comments(id, &owner, &admins).unwrap();
    assert_eq!(cs.len(), 1);
    assert_eq!(cs[0].comment.len(), 1000);
    assert_eq!(cs[0].application_id, id);
    let cid = store.add_comment(id, &owner, &admins, "\u{e9}".repeat(1000), 13).unwrap();
    assert_eq!(cid, 2);
}

#[test]
fn comments_stay_with_their_application() {
    let admins = vec![1];
    let mut store = ApplicationStore::new(1, 1);
    let a = user(7, "seven", TwitchAccountType::Pleb, 3);
    let b = user(8, "eight", TwitchAccountType::Pleb, 3);
    let ia = store.submit_application(&a, &vec![], "r".into(), "c".into(), 10).unwrap();
    let ib = store.submit_application(&b, &vec![], "r".into(), "c".into(), 10).unwrap();
    store.add_comment(ia, &a, &admins, "first".into(), 11).unwrap();
    store.add_comment(ib, &b, &admins, "other".into(), 12).unwrap();
    store.add_comment(ia, &a, &admins, "second".into(), 13).unwrap();
    let cs = store.get_comments(ia, &a, &admins).unwrap();
    assert_eq!(cs.iter().map(|c| c.comment.as_str()).collect::<Vec<_>>(), vec!["first", "second"]);
    assert_eq!(store.add_comment(ia, &b, &admins, "sneaky".into(), 14).unwrap_err().status, 404);
    assert_eq!(store.get_comments(ia, &b, &admins).unwrap_err().status, 404);
    assert_eq!(store.get_comments(77, &a, &admins).unwrap_err().status, 404);
    assert_eq!(store.get_my_applications(&a).iter().map(|x| x.id).collect::<Vec<_>>(), vec![ia]);
}

#[test]
fn other_users_application_is_not_found() {
    let admins = vec![1];
    let mut store = ApplicationStore::new(1, 1);
    let owner = user(42, "owner", TwitchAccountType::Pleb, 3);
    let id = store.submit_application(&owner, &vec![], "r".into(), "c".into(), 10).unwrap();
    let caller = user(7, "seven", TwitchAccountType::Pleb, 3);
    let e = store.get_application(id, &caller, &admins).unwrap_err();
    assert_eq!(e.status, 404);
    assert_eq!(e.message, "Not found");
    assert_eq!(store.get_application(id, &owner, &admins).unwrap().twitch_id, 42);
    let admin = user(1, "boss", TwitchAccountType::Partner, 0);
    assert_eq!(store.get_application(id, &admin, &admins).unwrap().id, id);
}

#[test]
fn end_to_end_review() {
    let admins = vec![1];
    let admin = user(1, "boss", TwitchAccountType::Partner, 0);
    let u7 = user(7, "seven", TwitchAccountType::Pleb, 3);
    let mut store = ApplicationStore::new(101, 1);
    let id = store.submit_application(&u7, &vec![], "let me in".into(), "https://clip".into(), 1000).unwrap();
    assert_eq!(id, 101);
    assert_eq!(store.get_application(101, &u7, &admins).unwrap().status, ApplicationStatus::Pending);
    assert_eq!(store.update_application(101, ApplicationStatus::Approved, &admin, &admins, 2000).unwrap(), 101);
    let a = store.get_application(101, &u7, &admins).unwrap();
    assert_eq!(a.status, ApplicationStatus::Approved);
    assert_ne!(a.updated_at, a.created_at);
    let comments = store.get_comments(101, &u7, &admins).unwrap();
    assert!(comments.iter().any(|c| c.comment == "Moved to accepted"));
    let u99 = user(99, "nosy", TwitchAccountType::Pleb, 0);
    assert_eq!(store.get_application(101, &u99, &admins).unwrap_err().status, 404);
}

#[test]
fn secrets_are_hex_and_fresh() {
    let a = random_secret();
    let b = random_secret();
    assert_eq!(a.len(), 64);
    assert!(a.chars().all(|c| c.is_ascii_digit() || ('a'..='f').contains(&c)));
    assert_ne!(a, b);
    let cfg = TwitchConfig::default();
    assert!(cfg.client_id.is_empty() && cfg.client_secret.is_empty() && cfg.redirect_uri.is_empty());
}

#[test]
fn gate_hides_absence_and_denial_alike() {
    let admins = vec![1];
    let mut store = ApplicationStore::new(1, 1);
    let owner = user(42, "owner", TwitchAccountType::Pleb, 3);
    store.submit_application(&owner, &vec![], "r".into(), "c".into(), 10).unwrap();
    let app = store.fetch_by_id(1);
    let stranger = user(7, "seven", TwitchAccountType::Pleb, 3);
    let admin = user(1, "boss", TwitchAccountType::Partner, 0);
    assert!(gate(app.as_ref(), &owner, &admins).is_ok());
    assert!(gate(app.as_ref(), &admin, &admins).is_ok());
    let denied = gate(app.as_ref(), &stranger, &admins).unwrap_err();
    let absent = gate(None, &owner, &admins).unwrap_err();
    assert_eq!((denied.status, denied.message.as_str()), (absent.status, absent.message.as_str()));
    assert_eq!(denied.status, 404);
}

#[test]
fn comment_body_limit_counts_characters() {
    assert!(check_comment_body("").is_ok());
    assert!(check_comment_body(&"y".repeat(1000)).is_ok());
    assert!(check_comment_body(&"\u{e9}".repeat(1000)).is_ok());
    let e = check_comment_body(&"y".repeat(1001)).unwrap_err();
    assert_eq!((e.status, e.message.as_str()), (400, "comment too long"));
}

#[test]
fn admins_cannot_submit() {
    let admins = vec![1];
    let mut store = ApplicationStore::new(1, 1);
    let admin = user(1, "boss", TwitchAccountType::Partner, 0);
    let e = store.submit_application(&admin, &admins, "r".into(), "c".into(), 10).unwrap_err();
    assert_eq!((e.status, e.message.as_str()), (403, "Forbidden"));
    assert!(store.fetch_by_id(1).is_none());
    assert!(store.get_my_applications(&admin).is_empty());
    let u7 = user(7, "seven", TwitchAccountType::Affiliate, 70);
    assert_eq!(store.submit_application(&u7, &admins, "r".into(), "c".into(), 10).unwrap(), 1);
    let record = submission(&u7, &admins, "why".into(), "clip".into()).unwrap();
    assert_eq!(record.status, ApplicationStatus::Pending);
    assert_eq!((record.twitch_id, record.follow_count), (7, 70));
    assert_eq!(record.twitch_username, "seven");
    assert_eq!((record.reason.as_str(), record.support_clip_url.as_str()), ("why", "clip"));
    assert_eq!(submission(&admin, &admins, "r".into(), "c".into()).unwrap_err().status, 403);
}

#[test]
fn search_errors_carry_their_reason() {
    let (store, admins) = store_with_three();
    let admin = user(99, "boss", TwitchAccountType::Partner, 0);
    let q = ApplicationQuery { twitch_username: Some("a".repeat(101)), ..no_filter() };
    let e = store.get_applications(&admin, &admins, q).unwrap_err();
    assert_eq!((e.status, e.message.as_str()), (400, "twitch_username too long"));
    let q = ApplicationQuery { min_follow_count: Some(-1), twitch_username: Some("a".repeat(101)), ..no_filter() };
    let e = store.get_applications(&admin, &admins, q).unwrap_err();
    assert_eq!((e.status, e.message.as_str()), (400, "min_follow_count must be greater than 0"));
}

#[test]
fn like_pattern_escapes_wildcards() {
    assert_eq!(substring_pattern("wolf"), "%wolf%");
    assert_eq!(substring_pattern(""), "%%");
    assert_eq!(substring_pattern("a_b%c\\d"), "%a\\_b\\%c\\\\d%");
    assert_eq!(substring_pattern("\u{e9}t\u{e9}"), "%\u{e9}t\u{e9}%");
}
