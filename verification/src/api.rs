//! The requests that each operation of the service sends, and how a reply is
//! judged. Sending them is left to the caller.
use vstd::prelude::*;
use crate::cli::{add_field, add_opt_num_field, field_view, fields, opt_num_field, Field};
use crate::models::SuccessResponse;
use crate::text::{decimal, opt_view, push_decimal, to_owned, u64_to_string};

verus! {

/// The HTTP method of a request.
#[derive(Clone, Copy, Debug, PartialEq, Eq, Structural)]
pub enum Method {
    Get,
    Post,
}

/// What the caller does with the body of a successful reply.
#[derive(Clone, Copy, Debug, PartialEq, Eq, Structural)]
pub enum Reply {
    /// Read it as the record the operation returns.
    Record,
    /// Read it as a success flag, checked by `check_success`.
    SuccessFlag,
    /// Ignore it: the status alone tells the outcome.
    StatusOnly,
}

/// A request to the service.
#[derive(Debug)]
pub struct Request {
    pub method: Method,
    /// The path below the base address, e.g. `/get_user/7`.
    pub path: String,
    /// The query parameters (sent with a GET).
    pub query: Vec<(String, String)>,
    /// The form fields of a POST, or `None` for a POST without a body.
    pub form: Option<Vec<(String, String)>>,
    pub reply: Reply,
}

/// Why an exchange with the service failed.
#[derive(Debug)]
pub enum ApiError {
    /// The reply had a status outside 200..=299.
    Status { code: u16, reason: Option<String>, body: String },
    /// The service refused the operation and said why (a JSON text).
    Rejected { errors: String },
    /// The service refused the operation without saying why.
    Unsuccessful,
    /// A comment could not be deleted.
    CommentNotDeleted { id: u64 },
}

// ───────────────────────── specifications ─────────────────────────

/// The address that every path is appended to.
pub open spec fn base_url() -> Seq<char> {
    "https://secure.splitwise.com/api/v3.0"@
}

/// A present text as a one-element list of pairs.
pub open spec fn opt_text_field(key: Seq<char>, o: Option<&str>) -> Seq<Field> {
    match o {
        Some(v) => seq![(key, v@)],
        None => Seq::empty(),
    }
}

/// `r` reads a record with a GET of `path` and `query`.
pub open spec fn is_get(r: Request, path: Seq<char>, query: Seq<Field>) -> bool {
    &&& r.method == Method::Get
    &&& r.path@ == path
    &&& fields(r.query@) == query
    &&& r.form is None
    &&& r.reply == Reply::Record
}

/// `r` is a POST of `path` with the form `form`, whose reply is read as `reply`.
pub open spec fn is_post(r: Request, path: Seq<char>, form: Seq<Field>, reply: Reply) -> bool {
    &&& r.method == Method::Post
    &&& r.path@ == path
    &&& fields(r.query@) == Seq::<Field>::empty()
    &&& r.form matches Some(f) && fields(f@) == form
    &&& r.reply == reply
}

/// The status codes of success.
pub open spec fn is_success_status(code: u16) -> bool {
    200 <= code && code < 300
}

/// The text of a failure, as the program reports it.
pub open spec fn error_message(e: ApiError) -> Seq<char> {
    match e {
        ApiError::Status { code, reason, body } => "API error ("@ + decimal(code as nat) + " "@
            + match reason {
            Some(r) => r@,
            None => "<unknown status code>"@,
        } + "): "@ + body@,
        ApiError::Rejected { errors } => "API error: "@ + errors@,
        ApiError::Unsuccessful => "API returned success=false"@,
        ApiError::CommentNotDeleted { id } => "failed to delete comment "@ + decimal(id as nat),
    }
}

/// The name of a method.
pub open spec fn method_name(m: Method) -> Seq<char> {
    match m {
        Method::Get => "GET"@,
        Method::Post => "POST"@,
    }
}

// ───────────────────────── builders ─────────────────────────

fn get(path: String, query: Vec<(String, String)>) -> (r: Request)
    ensures
        is_get(r, path@, fields(query@)),
{
    Request { method: Method::Get, path, query, form: None, reply: Reply::Record }
}

fn post(path: String, form: Vec<(String, String)>, reply: Reply) -> (r: Request)
    ensures
        is_post(r, path@, fields(form@), reply),
{
    let query: Vec<(String, String)> = Vec::new();
    assert(fields(query@) =~= Seq::<Field>::empty());
    Request { method: Method::Post, path, query, form: Some(form), reply }
}

fn no_fields() -> (r: Vec<(String, String)>)
    ensures
        fields(r@) == Seq::<Field>::empty(),
{
    let r: Vec<(String, String)> = Vec::new();
    assert(fields(r@) =~= Seq::<Field>::empty());
    r
}

/// `prefix` followed by the decimal `id`.
fn path_with_id(prefix: &str, id: u64) -> (r: String)
    ensures
        r@ == prefix@ + decimal(id as nat),
{
    let mut p = to_owned(prefix);
    push_decimal(&mut p, id);
    p
}

/// Copies of the pairs.
fn copy_fields(v: &[(String, String)]) -> (r: Vec<(String, String)>)
    ensures
        fields(r@) == v@.map_values(field_view()),
{
    let mut r: Vec<(String, String)> = Vec::new();
    let mut i: usize = 0;
    while i < v.len()
        invariant
            i <= v@.len(),
            fields(r@) == v@.take(i as int).map_values(field_view()),
        decreases v.len() - i,
    {
        let k = to_owned(v[i].0.as_str());
        let val = to_owned(v[i].1.as_str());
        let ghost before = r@;
        let ghost kv = (k@, val@);
        r.push((k, val));
        assert(fields(r@) =~= fields(before).push(kv));
        assert(v@.take(i + 1).map_values(field_view()) =~= v@.take(i as int).map_values(
            field_view(),
        ).push(kv));
        i += 1;
    }
    assert(v@.take(v@.len() as int) =~= v@);
    r
}

/// Appends the pair for a present text.
fn add_opt_text_field(v: &mut Vec<(String, String)>, key: &str, o: Option<&str>)
    ensures
        fields(final(v)@) == fields(old(v)@) + opt_text_field(key@, o),
{
    let ghost before = fields(v@);
    match o {
        Some(s) => add_field(v, key, to_owned(s)),
        None => {},
    }
    assert(fields(v@) =~= before + opt_text_field(key@, o));
}

impl Request {
    /// The full address of the request.
    pub fn url(&self) -> (r: String)
        ensures
            r@ == base_url() + self.path@,
    {
        let mut u = to_owned("https://secure.splitwise.com/api/v3.0");
        u.append(self.path.as_str());
        u
    }

    /// The current user.
    pub fn get_current_user() -> (r: Request)
        ensures
            is_get(r, "/get_current_user"@, Seq::empty()),
    {
        get(to_owned("/get_current_user"), no_fields())
    }

    /// A user by id.
    pub fn get_user(id: u64) -> (r: Request)
        ensures
            is_get(r, "/get_user/"@ + decimal(id as nat), Seq::empty()),
    {
        get(path_with_id("/get_user/", id), no_fields())
    }

    /// Changes the given fields of a user.
    pub fn update_user(id: u64, user_fields: &[(String, String)]) -> (r: Request)
        ensures
            is_post(
                r,
                "/update_user/"@ + decimal(id as nat),
                user_fields@.map_values(field_view()),
                Reply::Record,
            ),
    {
        post(path_with_id("/update_user/", id), copy_fields(user_fields), Reply::Record)
    }

    /// All groups.
    pub fn get_groups() -> (r: Request)
        ensures
            is_get(r, "/get_groups"@, Seq::empty()),
    {
        get(to_owned("/get_groups"), no_fields())
    }

    /// A group by id.
    pub fn get_group(id: u64) -> (r: Request)
        ensures
            is_get(r, "/get_group/"@ + decimal(id as nat), Seq::empty()),
    {
        get(path_with_id("/get_group/", id), no_fields())
    }

    /// A new group.
    pub fn create_group(name: &str, group_type: Option<&str>, simplify: bool) -> (r: Request)
        ensures
            is_post(
                r,
                "/create_group"@,
                seq![("name"@, name@)] + opt_text_field("group_type"@, group_type) + if simplify {
                    seq![("simplify_by_default"@, "true"@)]
                } else {
                    Seq::empty()
                },
                Reply::Record,
            ),
    {
        let mut form = no_fields();
        add_field(&mut form, "name", to_owned(name));
        add_opt_text_field(&mut form, "group_type", group_type);
        let ghost before = fields(form@);
        if simplify {
            add_field(&mut form, "simplify_by_default", to_owned("true"));
        }
        assert(fields(form@) =~= seq![("name"@, name@)] + opt_text_field("group_type"@, group_type)
            + if simplify {
            seq![("simplify_by_default"@, "true"@)]
        } else {
            Seq::empty()
        });
        post(to_owned("/create_group"), form, Reply::Record)
    }

    /// Deletes a group.
    pub fn delete_group(id: u64) -> (r: Request)
        ensures
            is_post(r, "/delete_group/"@ + decimal(id as nat), Seq::empty(), Reply::SuccessFlag),
    {
        post(path_with_id("/delete_group/", id), no_fields(), Reply::SuccessFlag)
    }

    /// Restores a deleted group.
    pub fn restore_group(id: u64) -> (r: Request)
        ensures
            is_post(r, "/undelete_group/"@ + decimal(id as nat), Seq::empty(), Reply::SuccessFlag),
    {
        post(path_with_id("/undelete_group/", id), no_fields(), Reply::SuccessFlag)
    }

    /// Adds a user to a group, by id or by invitation.
    pub fn add_to_group(
        group_id: u64,
        user_id: Option<u64>,
        email: Option<&str>,
        first_name: Option<&str>,
        last_name: Option<&str>,
    ) -> (r: Request)
        ensures
            is_post(
                r,
                "/add_user_to_group"@,
                seq![("group_id"@, decimal(group_id as nat))] + opt_num_field("user_id"@, user_id)
                    + opt_text_field("email"@, email) + opt_text_field("first_name"@, first_name)
                    + opt_text_field("last_name"@, last_name),
                Reply::SuccessFlag,
            ),
    {
        let mut form = no_fields();
        add_field(&mut form, "group_id", u64_to_string(group_id));
        add_opt_num_field(&mut form, "user_id", user_id);
        add_opt_text_field(&mut form, "email", email);
        add_opt_text_field(&mut form, "first_name", first_name);
        add_opt_text_field(&mut form, "last_name", last_name);
        assert(fields(form@) =~= seq![("group_id"@, decimal(group_id as nat))] + opt_num_field(
            "user_id"@,
            user_id,
        ) + opt_text_field("email"@, email) + opt_text_field("first_name"@, first_name)
            + opt_text_field("last_name"@, last_name));
        post(to_owned("/add_user_to_group"), form, Reply::SuccessFlag)
    }

    /// Removes a user from a group.
    pub fn remove_from_group(group_id: u64, user_id: u64) -> (r: Request)
        ensures
            is_post(
                r,
                "/remove_user_from_group"@,
                seq![
                    ("group_id"@, decimal(group_id as nat)),
                    ("user_id"@, decimal(user_id as nat)),
                ],
                Reply::SuccessFlag,
            ),
    {
        let mut form = no_fields();
        add_field(&mut form, "group_id", u64_to_string(group_id));
        add_field(&mut form, "user_id", u64_to_string(user_id));
        assert(fields(form@) =~= seq![
            ("group_id"@, decimal(group_id as nat)),
            ("user_id"@, decimal(user_id as nat)),
        ]);
        post(to_owned("/remove_user_from_group"), form, Reply::SuccessFlag)
    }

    /// All friends.
    pub fn get_friends() -> (r: Request)
        ensures
            is_get(r, "/get_friends"@, Seq::empty()),
    {
        get(to_owned("/get_friends"), no_fields())
    }

    /// A friend by id.
    pub fn get_friend(id: u64) -> (r: Request)
        ensures
            is_get(r, "/get_friend/"@ + decimal(id as nat), Seq::empty()),
    {
        get(path_with_id("/get_friend/", id), no_fields())
    }

    /// Adds a friend by email address.
    pub fn add_friend(email: &str, first_name: Option<&str>, last_name: Option<&str>) -> (r:
        Request)
        ensures
            is_post(
                r,
                "/create_friend"@,
                seq![("user_email"@, email@)] + opt_text_field("user_first_name"@, first_name)
                    + opt_text_field("user_last_name"@, last_name),
                Reply::Record,
            ),
    {
        let mut form = no_fields();
        add_field(&mut form, "user_email", to_owned(email));
        add_opt_text_field(&mut form, "user_first_name", first_name);
        add_opt_text_field(&mut form, "user_last_name", last_name);
        assert(fields(form@) =~= seq![("user_email"@, email@)] + opt_text_field(
            "user_first_name"@,
            first_name,
        ) + opt_text_field("user_last_name"@, last_name));
        post(to_owned("/create_friend"), form, Reply::Record)
    }

    /// Removes a friend.
    pub fn delete_friend(id: u64) -> (r: Request)
        ensures
            is_post(r, "/delete_friend/"@ + decimal(id as nat), Seq::empty(), Reply::SuccessFlag),
    {
        post(path_with_id("/delete_friend/", id), no_fields(), Reply::SuccessFlag)
    }

    /// Expenses, filtered by the query.
    pub fn get_expenses(params: &[(String, String)]) -> (r: Request)
        ensures
            is_get(r, "/get_expenses"@, params@.map_values(field_view())),
    {
        get(to_owned("/get_expenses"), copy_fields(params))
    }

    /// An expense by id.
    pub fn get_expense(id: u64) -> (r: Request)
        ensures
            is_get(r, "/get_expense/"@ + decimal(id as nat), Seq::empty()),
    {
        get(path_with_id("/get_expense/", id), no_fields())
    }

    /// A new expense.
    pub fn create_expense(form: &[(String, String)]) -> (r: Request)
        ensures
            is_post(r, "/create_expense"@, form@.map_values(field_view()), Reply::Record),
    {
        post(to_owned("/create_expense"), copy_fields(form), Reply::Record)
    }

    /// Changes an expense.
    pub fn update_expense(id: u64, form: &[(String, String)]) -> (r: Request)
        ensures
            is_post(
                r,
                "/update_expense/"@ + decimal(id as nat),
                form@.map_values(field_view()),
                Reply::Record,
            ),
    {
        post(path_with_id("/update_expense/", id), copy_fields(form), Reply::Record)
    }

    /// Deletes an expense.
    pub fn delete_expense(id: u64) -> (r: Request)
        ensures
            is_post(r, "/delete_expense/"@ + decimal(id as nat), Seq::empty(), Reply::SuccessFlag),
    {
        post(path_with_id("/delete_expense/", id), no_fields(), Reply::SuccessFlag)
    }

    /// Restores a deleted expense.
    pub fn restore_expense(id: u64) -> (r: Request)
        ensures
            is_post(
                r,
                "/undelete_expense/"@ + decimal(id as nat),
                Seq::empty(),
                Reply::SuccessFlag,
            ),
    {
        post(path_with_id("/undelete_expense/", id), no_fields(), Reply::SuccessFlag)
    }

    /// The comments on an expense.
    pub fn get_comments(expense_id: u64) -> (r: Request)
        ensures
            is_get(r, "/get_comments"@, seq![("expense_id"@, decimal(expense_id as nat))]),
    {
        let mut q = no_fields();
        add_field(&mut q, "expense_id", u64_to_string(expense_id));
        assert(fields(q@) =~= seq![("expense_id"@, decimal(expense_id as nat))]);
        get(to_owned("/get_comments"), q)
    }

    /// A new comment on an expense.
    pub fn create_comment(expense_id: u64, content: &str) -> (r: Request)
        ensures
            is_post(
                r,
                "/create_comment"@,
                seq![("expense_id"@, decimal(expense_id as nat)), ("content"@, content@)],
                Reply::Record,
            ),
    {
        let mut form = no_fields();
        add_field(&mut form, "expense_id", u64_to_string(expense_id));
        add_field(&mut form, "content", to_owned(content));
        assert(fields(form@) =~= seq![
            ("expense_id"@, decimal(expense_id as nat)),
            ("content"@, content@),
        ]);
        post(to_owned("/create_comment"), form, Reply::Record)
    }

    /// Deletes a comment: a POST without a body, judged by its status alone.
    pub fn delete_comment(id: u64) -> (r: Request)
        ensures
            r.method == Method::Post,
            r.path@ == "/delete_comment/"@ + decimal(id as nat),
            fields(r.query@) == Seq::<Field>::empty(),
            r.form is None,
            r.reply == Reply::StatusOnly,
    {
        let query = no_fields();
        Request {
            method: Method::Post,
            path: path_with_id("/delete_comment/", id),
            query,
            form: None,
            reply: Reply::StatusOnly,
        }
    }

    /// Notifications, filtered by the query.
    pub fn get_notifications(params: &[(String, String)]) -> (r: Request)
        ensures
            is_get(r, "/get_notifications"@, params@.map_values(field_view())),
    {
        get(to_owned("/get_notifications"), copy_fields(params))
    }

    /// The supported currencies.
    pub fn get_currencies() -> (r: Request)
        ensures
            is_get(r, "/get_currencies"@, Seq::empty()),
    {
        get(to_owned("/get_currencies"), no_fields())
    }

    /// The expense categories.
    pub fn get_categories() -> (r: Request)
        ensures
            is_get(r, "/get_categories"@, Seq::empty()),
    {
        get(to_owned("/get_categories"), no_fields())
    }

    /// The context of a failure to exchange the request: "METHOD PATH failed".
    pub fn failure_context(&self) -> (r: String)
        ensures
            r@ == method_name(self.method) + " "@ + self.path@ + " failed"@,
    {
        let mut s = match self.method {
            Method::Get => to_owned("GET"),
            Method::Post => to_owned("POST"),
        };
        s.append(" ");
        s.append(self.path.as_str());
        s.append(" failed");
        s
    }

    /// The context of a reply that cannot be read: "failed to parse METHOD PATH
    /// response".
    pub fn parse_context(&self) -> (r: String)
        ensures
            r@ == "failed to parse "@ + method_name(self.method) + " "@ + self.path@
                + " response"@,
    {
        let mut s = to_owned("failed to parse ");
        match self.method {
            Method::Get => s.append("GET"),
            Method::Post => s.append("POST"),
        }
        s.append(" ");
        s.append(self.path.as_str());
        s.append(" response");
        s
    }
}

// ───────────────────────── replies ─────────────────────────

/// Whether a status code means success (what `StatusCode::is_success` tells).
pub fn status_is_success(code: u16) -> (r: bool)
    ensures
        r == is_success_status(code),
{
    200 <= code && code < 300
}

/// The reason phrase that `http` gives a status code (such as "Not Found" for
/// 404), if it knows one.
pub uninterp spec fn reason_phrase(code: u16) -> Option<Seq<char>>;

/// `http::StatusCode::canonical_reason`, trusted: its result is the reason
/// phrase of the code, a fixed function of the code (a table in the `http`
/// source); a code outside 100..=999, which `StatusCode::from_u16` refuses,
/// has none. Which phrase each code has is not stated here.
#[verifier::external_body]
fn canonical_reason(code: u16) -> (r: Option<String>)
    ensures
        opt_view(r) == reason_phrase(code),
        !(100 <= code && code <= 999) ==> r is None,
{
    match http::StatusCode::from_u16(code) {
        Ok(status) => status.canonical_reason().map(String::from),
        Err(_) => None,
    }
}

/// Judges a reply by its status code and body: the body when the status is a
/// success, else the failure with the status's reason phrase.
pub fn check_reply(code: u16, body: String) -> (r: Result<String, ApiError>)
    ensures
        is_success_status(code) ==> (r matches Ok(b) && b@ == body@),
        !is_success_status(code) ==> (r matches Err(ApiError::Status { code: c, reason, body: b })
            && c == code && opt_view(reason) == reason_phrase(code) && b@ == body@),
{
    if status_is_success(code) {
        return Ok(body);
    }
    let reason = canonical_reason(code);
    check_status(code, reason, body)
}

/// Judges a reply by its status: the body when the status is a success, the
/// failure otherwise.
pub fn check_status(code: u16, reason: Option<String>, body: String) -> (r: Result<
    String,
    ApiError,
>)
    ensures
        is_success_status(code) ==> (r matches Ok(b) && b@ == body@),
        !is_success_status(code) ==> (r matches Err(e) && e == (ApiError::Status {
            code,
            reason,
            body,
        })),
{
    if status_is_success(code) {
        Ok(body)
    } else {
        Err(ApiError::Status { code, reason, body })
    }
}

/// Judges the success flag of a reply: success, a refusal with its reasons,
/// or a refusal without them.
pub fn check_success(resp: SuccessResponse) -> (r: Result<(), ApiError>)
    ensures
        resp.success ==> r is Ok,
        !resp.success ==> match resp.errors {
            Some(t) => r matches Err(e) && e == (ApiError::Rejected { errors: t }),
            None => r matches Err(e) && e == ApiError::Unsuccessful,
        },
{
    if resp.success {
        Ok(())
    } else {
        match resp.errors {
            Some(t) => Err(ApiError::Rejected { errors: t }),
            None => Err(ApiError::Unsuccessful),
        }
    }
}

/// Judges the reply to the deletion of a comment by its status alone.
pub fn check_comment_deleted(id: u64, code: u16) -> (r: Result<(), ApiError>)
    ensures
        is_success_status(code) ==> r is Ok,
        !is_success_status(code) ==> (r matches Err(e) && e == (ApiError::CommentNotDeleted {
            id,
        })),
{
    if status_is_success(code) {
        Ok(())
    } else {
        Err(ApiError::CommentNotDeleted { id })
    }
}

impl ApiError {
    /// The text of the failure.
    pub fn message(&self) -> (r: String)
        ensures
            r@ == error_message(*self),
    {
        match self {
            ApiError::Status { code, reason, body } => {
                let mut s = to_owned("API error (");
                push_decimal(&mut s, *code as u64);
                s.append(" ");
                match reason {
                    Some(t) => s.append(t.as_str()),
                    None => s.append("<unknown status code>"),
                }
                s.append("): ");
                s.append(body.as_str());
                s
            },
            ApiError::Rejected { errors } => {
                let mut s = to_owned("API error: ");
                s.append(errors.as_str());
                s
            },
            ApiError::Unsuccessful => to_owned("API returned success=false"),
            ApiError::CommentNotDeleted { id } => {
                let mut s = to_owned("failed to delete comment ");
                push_decimal(&mut s, *id);
                s
            },
        }
    }
}

} // verus!
