use splitwise_cli::api::{
    check_comment_deleted, check_reply, check_status, check_success, status_is_success, ApiError, Method,
    Reply, Request,
};
use splitwise_cli::cli::{
    check_add_to_group, expense_create_form, expense_update_form, expenses_params,
    notifications_params, parse_key_val, split_on,
};
use splitwise_cli::config::{key_to_save, token_from_env, token_from_file, ConfigError};
use splitwise_cli::models::SuccessResponse;

fn s(x: &str) -> String {
    x.to_string()
}

fn pairs(v: &[(&str, &str)]) -> Vec<(String, String)> {
    v.iter().map(|(k, x)| (s(k), s(x))).collect()
}

// ── key=value ──

#[test]
fn key_value_arguments() {
    assert_eq!(parse_key_val("first_name=John"), Ok((s("first_name"), s("John"))));
    assert_eq!(parse_key_val("a=b=c"), Ok((s("a"), s("b=c"))));
    assert_eq!(parse_key_val("=x"), Ok((s(""), s("x"))));
    assert_eq!(parse_key_val("k="), Ok((s("k"), s(""))));
    assert_eq!(parse_key_val("nokey"), Err(s("invalid key=value: no `=` in `nokey`")));
    assert_eq!(parse_key_val(""), Err(s("invalid key=value: no `=` in ``")));
}

#[test]
fn key_value_reads_back_what_was_written() {
    for (k, v) in [("last_name", "Doe"), ("email", "a=b@example.com"), ("x", "")] {
        let written = format!("{k}={v}");
        assert_eq!(parse_key_val(&written), Ok((s(k), s(v))));
    }
}

// ── listings ──

#[test]
fn expense_listing_query() {
    assert_eq!(expenses_params(None, None, None, None, 20, None), pairs(&[("limit", "20")]));
    assert_eq!(
        expenses_params(Some(5), Some(9), Some(s("2024-01-01")), Some(s("2024-02-01")), 3, Some(40)),
        pairs(&[
            ("limit", "3"),
            ("group_id", "5"),
            ("friend_id", "9"),
            ("dated_after", "2024-01-01"),
            ("dated_before", "2024-02-01"),
            ("offset", "40"),
        ])
    );
    assert_eq!(
        expenses_params(None, Some(2), None, Some(s("2024-02-01")), 20, None),
        pairs(&[("limit", "20"), ("friend_id", "2"), ("dated_before", "2024-02-01")])
    );
}

#[test]
fn notification_listing_query() {
    assert_eq!(notifications_params(None, None), pairs(&[]));
    assert_eq!(
        notifications_params(Some(s("2024-05-01")), Some(10)),
        pairs(&[("updated_after", "2024-05-01"), ("limit", "10")])
    );
    assert_eq!(notifications_params(None, Some(0)), pairs(&[("limit", "0")]));
}

// ── expense forms ──

#[test]
fn split_at_colons() {
    assert_eq!(split_on("1:2:3", ':'), vec!["1", "2", "3"]);
    assert_eq!(split_on("", ':'), vec![""]);
    assert_eq!(split_on("a::", ':'), vec!["a", "", ""]);
    assert_eq!(split_on("111:2000", ':'), vec!["111", "2000"]);
}

#[test]
fn create_form_with_base_fields_only() {
    let f = expense_create_form(s("Lunch"), s("50.00"), 7, None, None, None, false, &vec![]);
    assert_eq!(f, Ok(pairs(&[("description", "Lunch"), ("cost", "50.00"), ("group_id", "7")])));
    let f = expense_create_form(
        s("Lunch"),
        s("50.00"),
        7,
        Some(s("EUR")),
        Some(15),
        Some(s("2024-03-05")),
        false,
        &vec![],
    );
    assert_eq!(
        f,
        Ok(pairs(&[
            ("description", "Lunch"),
            ("cost", "50.00"),
            ("group_id", "7"),
            ("currency_code", "EUR"),
            ("category_id", "15"),
            ("date", "2024-03-05"),
        ]))
    );
}

#[test]
fn create_form_split_equally() {
    let users = vec![s("bad")];
    let f = expense_create_form(s("Taxi"), s("12"), 1, None, None, None, true, &users);
    assert_eq!(
        f,
        Ok(pairs(&[
            ("description", "Taxi"),
            ("cost", "12"),
            ("group_id", "1"),
            ("split_equally", "true"),
        ]))
    );
}

#[test]
fn create_form_custom_shares() {
    let users = vec![s("111:20.00:10.00"), s("222:0.00:10.00")];
    let f = expense_create_form(s("Dinner"), s("20.00"), 3, None, None, None, false, &users);
    assert_eq!(
        f,
        Ok(pairs(&[
            ("description", "Dinner"),
            ("cost", "20.00"),
            ("group_id", "3"),
            ("users__0__user_id", "111"),
            ("users__0__paid_share", "20.00"),
            ("users__0__owed_share", "10.00"),
            ("users__1__user_id", "222"),
            ("users__1__paid_share", "0.00"),
            ("users__1__owed_share", "10.00"),
        ]))
    );
}

#[test]
fn create_form_refuses_a_malformed_share() {
    let users = vec![s("111:20.00:10.00"), s("111:2000"), s("x")];
    let f = expense_create_form(s("Dinner"), s("20.00"), 3, None, None, None, false, &users);
    assert_eq!(f, Err(s("--user format: uid:paid_share:owed_share (got \"111:2000\")")));
    let users = vec![s("1:2:3:4")];
    let f = expense_create_form(s("D"), s("1"), 3, None, None, None, false, &users);
    assert_eq!(f, Err(s("--user format: uid:paid_share:owed_share (got \"1:2:3:4\")")));
}

#[test]
fn update_form_keeps_the_given_fields() {
    assert_eq!(expense_update_form(None, None, None, None, None, None), pairs(&[]));
    assert_eq!(
        expense_update_form(Some(s("New")), None, Some(4), None, Some(2), Some(s("2024-01-02"))),
        pairs(&[("description", "New"), ("group_id", "4"), ("category_id", "2"), ("date", "2024-01-02")])
    );
    assert_eq!(
        expense_update_form(None, Some(s("9.99")), None, Some(s("GBP")), None, None),
        pairs(&[("cost", "9.99"), ("currency_code", "GBP")])
    );
}

#[test]
fn adding_to_a_group_needs_an_id_or_email() {
    assert_eq!(check_add_to_group(&None, &None), Err(s("provide --user-id or --email")));
    assert_eq!(check_add_to_group(&Some(3), &None), Ok(()));
    assert_eq!(check_add_to_group(&None, &Some(s("a@b.c"))), Ok(()));
}

// ── requests ──

fn is_get(r: &Request, path: &str, query: &[(&str, &str)]) -> bool {
    r.method == Method::Get
        && r.path == path
        && r.query == pairs(query)
        && r.form.is_none()
        && r.reply == Reply::Record
}

fn is_post(r: &Request, path: &str, form: &[(&str, &str)], reply: Reply) -> bool {
    r.method == Method::Post
        && r.path == path
        && r.query.is_empty()
        && r.form == Some(pairs(form))
        && r.reply == reply
}

#[test]
fn reading_requests() {
    assert!(is_get(&Request::get_current_user(), "/get_current_user", &[]));
    assert!(is_get(&Request::get_user(42), "/get_user/42", &[]));
    assert!(is_get(&Request::get_groups(), "/get_groups", &[]));
    assert!(is_get(&Request::get_group(0), "/get_group/0", &[]));
    assert!(is_get(&Request::get_friends(), "/get_friends", &[]));
    assert!(is_get(&Request::get_friend(8), "/get_friend/8", &[]));
    assert!(is_get(&Request::get_expense(99), "/get_expense/99", &[]));
    assert!(is_get(&Request::get_comments(5), "/get_comments", &[("expense_id", "5")]));
    assert!(is_get(&Request::get_currencies(), "/get_currencies", &[]));
    assert!(is_get(&Request::get_categories(), "/get_categories", &[]));
    let q = pairs(&[("limit", "20"), ("group_id", "3")]);
    assert!(is_get(&Request::get_expenses(&q), "/get_expenses", &[("limit", "20"), ("group_id", "3")]));
    let q = pairs(&[("updated_after", "2024-01-01")]);
    assert!(is_get(
        &Request::get_notifications(&q),
        "/get_notifications",
        &[("updated_after", "2024-01-01")]
    ));
}

#[test]
fn writing_requests() {
    let f = pairs(&[("first_name", "John")]);
    assert!(is_post(&Request::update_user(7, &f), "/update_user/7", &[("first_name", "John")], Reply::Record));
    assert!(is_post(
        &Request::create_group("Flat", Some("apartment"), true),
        "/create_group",
        &[("name", "Flat"), ("group_type", "apartment"), ("simplify_by_default", "true")],
        Reply::Record
    ));
    assert!(is_post(&Request::create_group("Flat", None, false), "/create_group", &[("name", "Flat")], Reply::Record));
    assert!(is_post(&Request::delete_group(3), "/delete_group/3", &[], Reply::SuccessFlag));
    assert!(is_post(&Request::restore_group(3), "/undelete_group/3", &[], Reply::SuccessFlag));
    assert!(is_post(
        &Request::add_to_group(3, Some(11), None, Some("Ann"), None),
        "/add_user_to_group",
        &[("group_id", "3"), ("user_id", "11"), ("first_name", "Ann")],
        Reply::SuccessFlag
    ));
    assert!(is_post(
        &Request::add_to_group(3, None, Some("a@b.c"), Some("Ann"), Some("Lee")),
        "/add_user_to_group",
        &[("group_id", "3"), ("email", "a@b.c"), ("first_name", "Ann"), ("last_name", "Lee")],
        Reply::SuccessFlag
    ));
    assert!(is_post(
        &Request::remove_from_group(3, 11),
        "/remove_user_from_group",
        &[("group_id", "3"), ("user_id", "11")],
        Reply::SuccessFlag
    ));
    assert!(is_post(
        &Request::add_friend("a@b.c", None, Some("Lee")),
        "/create_friend",
        &[("user_email", "a@b.c"), ("user_last_name", "Lee")],
        Reply::Record
    ));
    assert!(is_post(&Request::delete_friend(4), "/delete_friend/4", &[], Reply::SuccessFlag));
    let f = pairs(&[("description", "Lunch"), ("cost", "5")]);
    assert!(is_post(&Request::create_expense(&f), "/create_expense", &[("description", "Lunch"), ("cost", "5")], Reply::Record));
    assert!(is_post(&Request::update_expense(12, &f), "/update_expense/12", &[("description", "Lunch"), ("cost", "5")], Reply::Record));
    assert!(is_post(&Request::delete_expense(12), "/delete_expense/12", &[], Reply::SuccessFlag));
    assert!(is_post(&Request::restore_expense(12), "/undelete_expense/12", &[], Reply::SuccessFlag));
    assert!(is_post(
        &Request::create_comment(12, "Nice"),
        "/create_comment",
        &[("expense_id", "12"), ("content", "Nice")],
        Reply::Record
    ));
}

#[test]
fn deleting_a_comment_sends_no_body() {
    let r = Request::delete_comment(77);
    assert_eq!(r.method, Method::Post);
    assert_eq!(r.path, "/delete_comment/77");
    assert!(r.query.is_empty());
    assert!(r.form.is_none());
    assert_eq!(r.reply, Reply::StatusOnly);
}

#[test]
fn request_addresses_and_contexts() {
    let r = Request::get_user(42);
    assert_eq!(r.url(), "https://secure.splitwise.com/api/v3.0/get_user/42");
    assert_eq!(r.failure_context(), "GET /get_user/42 failed");
    assert_eq!(r.parse_context(), "failed to parse GET /get_user/42 response");
    let r = Request::delete_group(3);
    assert_eq!(r.failure_context(), "POST /delete_group/3 failed");
    assert_eq!(r.parse_context(), "failed to parse POST /delete_group/3 response");
}

// ── replies ──

#[test]
fn success_statuses() {
    assert!(!status_is_success(199));
    assert!(status_is_success(200));
    assert!(status_is_success(204));
    assert!(status_is_success(299));
    assert!(!status_is_success(300));
    assert!(!status_is_success(404));
}

#[test]
fn status_check_passes_the_body_or_fails() {
    assert_eq!(check_status(200, Some(s("OK")), s("{}")).ok(), Some(s("{}")));
    let e = check_status(404, Some(s("Not Found")), s("oops")).unwrap_err();
    assert!(matches!(&e, ApiError::Status { code: 404, .. }));
    assert_eq!(e.message(), "API error (404 Not Found): oops");
    let e = check_status(599, None, s("")).unwrap_err();
    assert_eq!(e.message(), "API error (599 <unknown status code>): ");
}

#[test]
fn reply_check_names_the_status() {
    assert_eq!(check_reply(200, s("{\"a\":1}")).ok(), Some(s("{\"a\":1}")));
    assert_eq!(check_reply(204, s("")).ok(), Some(s("")));
    let e = check_reply(404, s("oops")).unwrap_err();
    assert_eq!(e.message(), "API error (404 Not Found): oops");
    let e = check_reply(401, s("{\"error\":\"Invalid API request\"}")).unwrap_err();
    assert_eq!(e.message(), "API error (401 Unauthorized): {\"error\":\"Invalid API request\"}");
    let e = check_reply(503, s("down")).unwrap_err();
    assert_eq!(e.message(), "API error (503 Service Unavailable): down");
    let e = check_reply(599, s("x")).unwrap_err();
    assert_eq!(e.message(), "API error (599 <unknown status code>): x");
    let e = check_reply(42, s("x")).unwrap_err();
    assert_eq!(e.message(), "API error (42 <unknown status code>): x");
}

#[test]
fn success_flag_check() {
    assert!(check_success(SuccessResponse { success: true, errors: Some(s("ignored")) }).is_ok());
    let e = check_success(SuccessResponse { success: false, errors: Some(s("{\"base\":[\"no\"]}")) })
        .unwrap_err();
    assert_eq!(e.message(), "API error: {\"base\":[\"no\"]}");
    let e = check_success(SuccessResponse { success: false, errors: None }).unwrap_err();
    assert!(matches!(e, ApiError::Unsuccessful));
    assert_eq!(e.message(), "API returned success=false");
}

#[test]
fn comment_deletion_check() {
    assert!(check_comment_deleted(5, 200).is_ok());
    let e = check_comment_deleted(5, 403).unwrap_err();
    assert!(matches!(e, ApiError::CommentNotDeleted { id: 5 }));
    assert_eq!(e.message(), "failed to delete comment 5");
}

// ── the API key ──

#[test]
fn key_from_the_environment() {
    assert_eq!(token_from_env(None), None);
    assert_eq!(token_from_env(Some(s(""))), None);
    assert_eq!(token_from_env(Some(s(" abc "))), Some(s(" abc ")));
}

#[test]
fn key_from_the_file() {
    assert_eq!(token_from_file("  key\n").ok(), Some(s("key")));
    assert_eq!(token_from_file("k e y").ok(), Some(s("k e y")));
    let e = token_from_file(" \t\n ").unwrap_err();
    assert!(matches!(e, ConfigError::Empty));
    assert_eq!(e.message(), "API key is empty. Run `splitwise auth <key>` or set SPLITWISE_API_KEY");
    assert!(token_from_file("").is_err());
}

#[test]
fn saved_key_is_read_back_trimmed() {
    for key in ["abc", "  abc\n", "\tx y\t", "   ", ""] {
        let saved = key_to_save(key);
        assert_eq!(saved, key.trim());
        match token_from_file(&saved) {
            Ok(k) => assert_eq!(k, key.trim()),
            Err(e) => {
                assert!(key.trim().is_empty());
                assert!(matches!(e, ConfigError::Empty));
            }
        }
    }
}

#[test]
fn unreadable_key_file_message() {
    let e = ConfigError::Unreadable { path: s("/home/u/.splitwise-cli") };
    assert_eq!(
        e.message(),
        "could not read API key from /home/u/.splitwise-cli\nRun `splitwise auth <key>` or set SPLITWISE_API_KEY"
    );
}

// ── the usage examples ──

#[test]
fn usage_custom_split() {
    let users = vec![s("111:2000:1200"), s("222:0:800")];
    let f = expense_create_form(s("Rent"), s("2000"), 456, None, None, None, false, &users);
    assert_eq!(
        f,
        Ok(pairs(&[
            ("description", "Rent"),
            ("cost", "2000"),
            ("group_id", "456"),
            ("users__0__user_id", "111"),
            ("users__0__paid_share", "2000"),
            ("users__0__owed_share", "1200"),
            ("users__1__user_id", "222"),
            ("users__1__paid_share", "0"),
            ("users__1__owed_share", "800"),
        ]))
    );
}

#[test]
fn usage_split_equally_and_listing() {
    let f = expense_create_form(s("Dinner"), s("80.00"), 456, None, None, None, true, &vec![]);
    assert_eq!(
        f,
        Ok(pairs(&[
            ("description", "Dinner"),
            ("cost", "80.00"),
            ("group_id", "456"),
            ("split_equally", "true"),
        ]))
    );
    assert_eq!(
        expenses_params(Some(456), None, None, None, 10, None),
        pairs(&[("limit", "10"), ("group_id", "456")])
    );
    assert_eq!(notifications_params(None, Some(10)), pairs(&[("limit", "10")]));
    assert_eq!(parse_key_val("first_name=New"), Ok((s("first_name"), s("New"))));
    assert!(is_post(
        &Request::add_to_group(456, None, Some("a@b.com"), Some("Alex"), None),
        "/add_user_to_group",
        &[("group_id", "456"), ("email", "a@b.com"), ("first_name", "Alex")],
        Reply::SuccessFlag
    ));
    assert_eq!(
        expense_update_form(Some(s("Updated dinner")), Some(s("90.00")), None, None, None, None),
        pairs(&[("description", "Updated dinner"), ("cost", "90.00")])
    );
}
