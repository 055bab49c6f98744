use cashwises::db::db_user_ext::{user_lookup, verification_step, UserLookup, VerificationStep};
use cashwises::extractors::api_key_middleware::{ApiKeyMiddleware, ApiKeyMiddlewareService};
use cashwises::handlers::auth_handler::{
    login_verdict, registration_failure, token_cookie_max_age,
    verification_outcome,
};
use cashwises::handlers::config::{DBConfig, EmailConfig};
use cashwises::handlers::email_handler::EmailModel;
use cashwises::handlers::generate_random_string::{code_text, generate_random_string};
use cashwises::handlers::pagination::{
    at_least_one_page, list_window, pages_count, sql_int, user_list_window, users_query_window,
};
use cashwises::handlers::replies::{
    delete_reply, insert_failure_reply, list_failure_reply, lookup_missing_reply,
    unmark_reply, update_failure_reply, Lookup, Resource,
};
use cashwises::handlers::users_handler::missing_user_error;
use cashwises::models::user_model::{UserModel, UserRole};
use cashwises::schema::provider_schema::ProviderFilterOptions;
use cashwises::schema::response_schema::FilterOptions;

fn email_config() -> EmailConfig {
    EmailConfig::from_settings(
        "smtp.example.com".to_string(),
        "587",
        "mailer".to_string(),
        "SECRET-REDACTED".to_string(),
        "noreply@example.com".to_string(),
        "team@example.com".to_string(),
    )
    .unwrap()
}

fn user(name: &str) -> UserModel {
    UserModel {
        id: "8c3f1c52-5d0e-4d7e-9f57-8d1c2a0b9e11".to_string(),
        name: name.to_string(),
        email: "john@example.com".to_string(),
        password: "hash".to_string(),
        photo: "default.png".to_string(),
        verified: false,
        verification_code: "1234".to_string(),
        role: UserRole::User,
    }
}

#[test]
fn random_codes_are_four_digits_in_range() {
    let mut seen = std::collections::HashSet::new();
    for _ in 0..200 {
        let code = generate_random_string();
        seen.insert(code.clone());
        assert_eq!(code.len(), 4);
        let n: u32 = code.parse().unwrap();
        assert!((1111..9999).contains(&n), "code {}", code);
    }
    assert!(seen.len() > 1);
    assert_eq!(code_text(1111), "1111");
    assert_eq!(code_text(9998), "9998");
}

#[test]
fn list_window_defaults_and_offsets() {
    assert_eq!(list_window(None, None), (10, 0));
    assert_eq!(list_window(Some(3), Some(20)), (20, 40));
    assert_eq!(list_window(Some(1), Some(0)), (0, 0));
    let opts = FilterOptions::from_query_fields(Some(2), None, None, None, None);
    assert_eq!(opts.window(), (10, 10));
    let p = ProviderFilterOptions { page: None, limit: Some(5), query: Some("x".to_string()) };
    assert_eq!(p.window(), (5, 0));
}

#[test]
fn pages_count_divides_toward_zero() {
    assert_eq!(pages_count(25, 10), 2);
    assert_eq!(pages_count(30, 10), 3);
    assert_eq!(pages_count(0, 10), 0);
    assert_eq!(pages_count(-7, 2), -3);
    assert_eq!(pages_count(i64::MIN, 1), i64::MIN);
    assert_eq!(pages_count(7, usize::MAX), -7);
    assert_eq!(at_least_one_page(0), 1);
    assert_eq!(at_least_one_page(-5), 1);
    assert_eq!(at_least_one_page(4), 4);
}

#[test]
fn whole_pages_law_on_values() {
    for (total, limit) in [(0i64, 1usize), (25, 10), (30, 10), (9, 4), (100, 7)] {
        let pages = pages_count(total, limit) as i64;
        let l = limit as i64;
        assert!(pages * l <= total && total < (pages + 1) * l);
    }
}

#[test]
fn sql_ints_truncate() {
    assert_eq!(sql_int(10), 10);
    assert_eq!(sql_int(4_294_967_297), 1);
}

#[test]
fn user_list_window_multiplies_in_u32() {
    assert_eq!(user_list_window(2, 10), (10, 10));
    assert_eq!(user_list_window(1, 50), (50, 0));
    assert_eq!(users_query_window(None, None), (10, 0));
    assert_eq!(users_query_window(Some(4), Some(25)), (25, 75));
}

#[test]
fn filter_options_split_lists() {
    let opts = FilterOptions::from_query_fields(
        None,
        Some(5),
        Some("shoes".to_string()),
        Some("a,b".to_string()),
        None,
    );
    assert_eq!(opts.tags, Some(vec!["a".to_string(), "b".to_string()]));
    assert_eq!(opts.categories, None);
    assert_eq!(opts.query.as_deref(), Some("shoes"));
    assert_eq!(opts.limit, Some(5));
}

#[test]
fn configs_parse_their_numbers() {
    let c = email_config();
    assert_eq!(c.smtp_port, 587);
    assert_eq!(c.smtp_host, "smtp.example.com");
    assert!(EmailConfig::from_settings(
        String::new(),
        "70000",
        String::new(),
        String::new(),
        String::new(),
        String::new()
    )
    .is_none());
    let d = DBConfig::from_settings("postgres://db".to_string(), "SECRET-REDACTED".to_string(), "60").unwrap();
    assert_eq!((d.jwt_maxage, d.port), (60, 8000));
    assert_eq!(d.database_url, "postgres://db");
    assert!(DBConfig::from_settings(String::new(), String::new(), "sixty").is_none());
}

#[test]
fn api_key_admits_only_the_key() {
    assert!(ApiKeyMiddlewareService::<()>::admits(Some(b"secret-key"), "secret-key"));
    assert!(!ApiKeyMiddlewareService::<()>::admits(Some(b"secret-kez"), "secret-key"));
    assert!(!ApiKeyMiddlewareService::<()>::admits(Some(b"secret"), "secret-key"));
    assert!(!ApiKeyMiddlewareService::<()>::admits(None, "secret-key"));
    assert!(ApiKeyMiddlewareService::<()>::admits(Some("ключ".as_bytes()), "ключ"));
    let service = ApiKeyMiddleware.new_transform(7u8);
    assert_eq!(*service.service, 7);
}

#[test]
fn email_model_addresses() {
    let m = EmailModel::new(user("John Smith"), "4321".to_string(), email_config());
    assert_eq!(m.from(), "Cashwises <noreply@example.com>");
    assert_eq!(m.recipient(), "John Smith <john@example.com>");
    assert_eq!(m.verification_code(), "4321");
    assert_eq!(m.user().name, "John Smith");
    assert_eq!(m.config().smtp_port, 587);
    let data = m.render_data("verification_code").unwrap();
    assert_eq!(data.first_name, "John");
    assert_eq!(data.subject, "verification_code");
    assert_eq!(data.verification_code, "4321");
    let blank = EmailModel::new(user("   "), "1".to_string(), email_config());
    assert!(blank.render_data("verification_code").is_none());
    assert_eq!(
        EmailModel::verification_message(),
        ("verification_code", "Your account verification code")
    );
}

#[test]
fn insert_failures_are_classified() {
    let dup = "error returned from database: duplicate key value violates unique constraint \"t\"";
    let r = insert_failure_reply(Resource::Category, dup, "Database(..)".to_string());
    assert_eq!((r.http_status, r.body.status), (409, "fail"));
    assert_eq!(r.body.message, "Category with that title already exists");
    let r = insert_failure_reply(Resource::Provider, dup, String::new());
    assert_eq!((r.http_status, r.body.message.as_str()), (409, "Provider with that title already exists"));
    let r = insert_failure_reply(Resource::Tag, dup, String::new());
    assert_eq!((r.http_status, r.body.message.as_str()), (400, "Note with that title already exists"));
    let r = insert_failure_reply(Resource::Deal, dup, String::new());
    assert_eq!((r.http_status, r.body.message.as_str()), (400, "Note with that title already exists"));
    let r = insert_failure_reply(Resource::Tag, "pool timed out", "PoolTimedOut".to_string());
    assert_eq!((r.http_status, r.body.status, r.body.message.as_str()), (500, "error", "PoolTimedOut"));
}

#[test]
fn deletes_that_find_nothing_are_404() {
    assert!(delete_reply(Resource::Category, 1, "id").is_none());
    let r = delete_reply(Resource::Category, 0, "abc").unwrap();
    assert_eq!((r.http_status, r.body.status), (404, "fail"));
    assert_eq!(r.body.message, "Category with ID: abc note found");
    assert_eq!(delete_reply(Resource::Deal, 0, "d").unwrap().body.message, "Note with ID: d note found");
    assert_eq!(delete_reply(Resource::Tag, 0, "t").unwrap().body.message, "Tag with ID: t note found");
    assert_eq!(delete_reply(Resource::Provider, 0, "p").unwrap().body.message, "Provider with ID: p note found");
    assert!(unmark_reply(2).is_none());
    assert_eq!(unmark_reply(0), Some((404, "Deal marked with ID: not found".to_string())));
}

#[test]
fn lookups_that_find_nothing_are_404() {
    let r = lookup_missing_reply(Lookup::CategoryGet, "c1", "ignored");
    assert_eq!((r.http_status, r.body.status), (404, "fail"));
    assert_eq!(r.body.message, "category with ID: c1 not found");
    assert_eq!(lookup_missing_reply(Lookup::CategoryPatch, "c1", "").body.message, "Category with ID: c1 not found");
    assert_eq!(lookup_missing_reply(Lookup::Deal, "d1", "").body.message, "Note with ID: d1 not found");
    assert_eq!(
        lookup_missing_reply(Lookup::Tag, "t1", "no rows returned").body.message,
        "tag with ID: t1 not found err: no rows returned"
    );
}

#[test]
fn list_and_update_failures_are_500() {
    let r = list_failure_reply(Resource::Category);
    assert_eq!((r.http_status, r.body.status), (500, "error"));
    assert_eq!(r.body.message, "Something bad happened while fetching all deal items");
    assert_eq!(list_failure_reply(Resource::Tag).body.message, "Something bad happened while fetching all tags items");
    let r = update_failure_reply("RowNotFound");
    assert_eq!((r.http_status, r.body.message.as_str()), (500, "Error: RowNotFound"));
}

#[test]
fn verification_outcomes() {
    assert!(verification_outcome(Ok(true)).is_ok());
    let e = verification_outcome(Ok(false)).unwrap_err();
    assert_eq!((e.status, e.message.as_str()), (400, "Failed Verification"));
    let e = verification_outcome(Err("db down".to_string())).unwrap_err();
    assert_eq!((e.status, e.message.as_str()), (500, "db down"));
}

#[test]
fn registration_failures() {
    let e = registration_failure(true, "dup".to_string());
    assert_eq!((e.status, e.message.as_str()), (409, "A user with this email already exists"));
    let e = registration_failure(false, "other".to_string());
    assert_eq!((e.status, e.message.as_str()), (500, "other"));
}

#[test]
fn login_lets_on_only_a_matching_password() {
    assert!(login_verdict(Some(Ok(true))).is_ok());
    for check in [None, Some(Ok(false)), Some(Err(()))] {
        let e = login_verdict(check).unwrap_err();
        assert_eq!((e.status, e.message.as_str()), (401, "Email or password is wrong"));
    }
    assert_eq!(token_cookie_max_age(60), 3600);
    let e = missing_user_error();
    assert_eq!((e.status, e.message.as_str()), (500, "User not found"));
}

#[test]
fn user_lookup_prefers_id_then_name_then_email() {
    assert_eq!(user_lookup(true, true, true), Some(UserLookup::Id));
    assert_eq!(user_lookup(false, true, true), Some(UserLookup::Name));
    assert_eq!(user_lookup(false, false, true), Some(UserLookup::Email));
    assert_eq!(user_lookup(false, false, false), None);
}

#[test]
fn verification_steps() {
    assert_eq!(verification_step(None, None), VerificationStep::StoreCode);
    assert_eq!(verification_step(Some("1234"), None), VerificationStep::FetchUser);
    assert_eq!(verification_step(Some("1234"), Some(None)), VerificationStep::Refuse);
    assert_eq!(verification_step(Some("1234"), Some(Some("1234"))), VerificationStep::MarkVerified);
    assert_eq!(verification_step(Some("1234"), Some(Some("4321"))), VerificationStep::Refuse);
    assert_eq!(verification_step(None, Some(Some("1234"))), VerificationStep::StoreCode);
}

#[test]
fn filter_options_compare_by_fields() {
    let a = FilterOptions::from_query_fields(Some(1), None, None, Some("x,y".to_string()), Some(String::new()));
    let b = FilterOptions {
        page: Some(1),
        limit: None,
        query: None,
        tags: Some(vec!["x".to_string(), "y".to_string()]),
        categories: Some(vec![String::new()]),
    };
    assert_eq!(a, b);
}
