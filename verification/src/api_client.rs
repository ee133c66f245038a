//! Requests to the WorkingClaw Market platform, and the reading of its
//! replies. The endpoints are those of the platform's HTTP API; sending a
//! request is left to the caller.

use vstd::prelude::*;
use crate::text::{contains_text, decimal_digits, lemma_contains_in_wider, lemma_text_contains_itself};

verus! {

/// The HTTP client type of `reqwest`, carried by [`ApiClient`].
#[verifier::external_type_specification]
#[verifier::external_body]
pub struct ExHttpClient(reqwest::Client);

/// Makes a fresh HTTP client.
///
/// Trusted: calls `reqwest::Client::new`. Nothing is stated of the client.
/// The function panics when no TLS backend can be set up or the resolver
/// cannot read the system configuration; that depends on the machine and
/// no argument rules it out.
#[verifier::external_body]
fn new_http_client() -> reqwest::Client {
    reqwest::Client::new()
}

/// The text `Display` writes for an HTTP status code: the code, a space
/// and the reason phrase.
pub uninterp spec fn status_line_text(code: u16) -> Seq<char>;

/// Writes an HTTP status code with its reason phrase, as a reply's status
/// displays it.
///
/// Trusted: calls `reqwest::StatusCode::from_u16` and the status code's
/// `Display`. The source writes the three digits, a space and the reason
/// phrase (or a stand-in when the code has none); the result is stated
/// through a name of its own and its first four characters.
#[verifier::external_body]
fn status_line(code: u16) -> (res: String)
    requires
        100 <= code <= 999,
    ensures
        res@ == status_line_text(code),
        res@.len() >= 4,
        res@.take(4) == decimal_digits(code as nat).push(' '),
{
    match reqwest::StatusCode::from_u16(code) {
        Ok(status) => status.to_string(),
        Err(_) => String::new(),
    }
}

/// An HTTP method.
#[derive(Clone, Copy, Debug, PartialEq, Eq, Structural)]
pub enum HttpMethod {
    Get,
    Post,
}

/// A task as the platform hands it out.
#[derive(Clone, Debug)]
pub struct PlatformTask {
    pub id: String,
    pub title: String,
    pub description: Option<String>,
    pub category_name: String,
    pub input_text: Option<String>,
    pub input_file_url: Option<String>,
    pub price: i64,
    pub operator_payout: i64,
}

/// The result of a task as it is submitted.
pub struct TaskResultPayload {
    pub output: String,
    pub model_used: String,
    pub tokens_used: u64,
    pub processing_time: u64,
}

/// The operator's availability as it is reported.
pub struct OnlinePayload {
    pub is_online: bool,
}

/// A task's failure as it is reported.
pub struct TaskFailurePayload {
    pub error: String,
}

/// A request for a certification run.
pub struct CertificationRequest {
    pub category: String,
    pub model: String,
}

/// The JSON body of a request.
pub enum RequestBody {
    Empty,
    TaskResult(TaskResultPayload),
    TaskFailure(TaskFailurePayload),
    Online(OnlinePayload),
    Certification(CertificationRequest),
}

/// A request to the platform, ready to be sent.
pub struct ApiRequest {
    pub method: HttpMethod,
    pub url: String,
    /// Value of the `Authorization` header
    pub authorization: String,
    pub body: RequestBody,
}

/// What a request body holds.
pub enum BodyView {
    Empty,
    TaskResult {
        output: Seq<char>,
        model_used: Seq<char>,
        tokens_used: u64,
        processing_time: u64,
    },
    TaskFailure { error: Seq<char> },
    Online { is_online: bool },
    Certification { category: Seq<char>, model: Seq<char> },
}

/// What a request holds.
pub struct RequestView {
    pub method: HttpMethod,
    pub url: Seq<char>,
    pub authorization: Seq<char>,
    pub body: BodyView,
}

impl View for RequestBody {
    type V = BodyView;

    open spec fn view(&self) -> BodyView {
        match self {
            RequestBody::Empty => BodyView::Empty,
            RequestBody::TaskResult(p) => BodyView::TaskResult {
                output: p.output@,
                model_used: p.model_used@,
                tokens_used: p.tokens_used,
                processing_time: p.processing_time,
            },
            RequestBody::TaskFailure(p) => BodyView::TaskFailure { error: p.error@ },
            RequestBody::Online(p) => BodyView::Online { is_online: p.is_online },
            RequestBody::Certification(p) => BodyView::Certification {
                category: p.category@,
                model: p.model@,
            },
        }
    }
}

impl View for ApiRequest {
    type V = RequestView;

    open spec fn view(&self) -> RequestView {
        RequestView {
            method: self.method,
            url: self.url@,
            authorization: self.authorization@,
            body: self.body@,
        }
    }
}

/// Client of the platform API for one operator.
pub struct ApiClient {
    client: reqwest::Client,
    base_url: String,
    token: String,
}

/// What an [`ApiClient`] is configured with.
pub struct ClientView {
    pub base_url: Seq<char>,
    pub token: Seq<char>,
}

impl ApiClient {
    /// The HTTP client the platform client was made with.
    pub closed spec fn http_client(self) -> reqwest::Client {
        self.client
    }
}

impl View for ApiClient {
    type V = ClientView;

    closed spec fn view(&self) -> ClientView {
        ClientView { base_url: self.base_url@, token: self.token@ }
    }
}

/// The `Authorization` header for an operator token.
pub open spec fn bearer(token: Seq<char>) -> Seq<char> {
    "Bearer "@ + token
}

/// A request with the client's address and token.
pub open spec fn request_to(
    c: ClientView,
    method: HttpMethod,
    path: Seq<char>,
    body: BodyView,
) -> RequestView {
    RequestView { method, url: c.base_url + path, authorization: bearer(c.token), body }
}

/// The request for the tasks assigned to the operator.
pub open spec fn poll_tasks_spec(c: ClientView) -> RequestView {
    request_to(c, HttpMethod::Get, "/api/operators/tasks/pending"@, BodyView::Empty)
}

/// The path under which a task's reports go.
pub open spec fn task_path(task_id: Seq<char>, what: Seq<char>) -> Seq<char> {
    "/api/tasks/"@ + task_id + what
}

/// The request that tells the platform a task has started.
pub open spec fn task_started_spec(c: ClientView, task_id: Seq<char>) -> RequestView {
    request_to(c, HttpMethod::Post, task_path(task_id, "/started"@), BodyView::Empty)
}

/// The request that submits a task's result.
pub open spec fn submit_result_spec(
    c: ClientView,
    task_id: Seq<char>,
    output: Seq<char>,
    model_used: Seq<char>,
    tokens_used: u64,
    processing_time: u64,
) -> RequestView {
    request_to(
        c,
        HttpMethod::Post,
        task_path(task_id, "/result"@),
        BodyView::TaskResult { output, model_used, tokens_used, processing_time },
    )
}

/// The request that reports a task's failure.
pub open spec fn task_failed_spec(c: ClientView, task_id: Seq<char>, error: Seq<char>) -> RequestView {
    request_to(c, HttpMethod::Post, task_path(task_id, "/failed"@), BodyView::TaskFailure { error })
}

/// The request that sets the operator online or offline.
pub open spec fn set_online_spec(c: ClientView, online: bool) -> RequestView {
    request_to(c, HttpMethod::Post, "/api/operators/status"@, BodyView::Online { is_online: online })
}

/// The request that runs a certification benchmark.
pub open spec fn certification_spec(c: ClientView, category: Seq<char>, model: Seq<char>) -> RequestView {
    request_to(
        c,
        HttpMethod::Post,
        "/api/operators/certify"@,
        BodyView::Certification { category, model },
    )
}

impl ApiClient {
    /// A client for the platform at `base_url`, authenticated by `token`.
    pub fn new(base_url: String, token: String) -> (res: Self)
        ensures
            res@ == (ClientView { base_url: base_url@, token: token@ }),
    {
        ApiClient { client: new_http_client(), base_url, token }
    }

    /// The HTTP client that sends the requests.
    pub fn client(&self) -> (res: &reqwest::Client)
        ensures
            *res == self.http_client(),
    {
        &self.client
    }

    /// The `Authorization` header value.
    pub fn auth_header(&self) -> (res: String)
        ensures
            res@ == bearer(self@.token),
    {
        let mut h = "Bearer ".to_owned();
        h.append(self.token.as_str());
        h
    }

    fn url_for(&self, path: &str) -> (res: String)
        ensures
            res@ == self@.base_url + path@,
    {
        let mut u = self.base_url.clone();
        u.append(path);
        u
    }

    fn task_url(&self, task_id: &str, what: &str) -> (res: String)
        ensures
            res@ == self@.base_url + task_path(task_id@, what@),
    {
        let mut u = self.base_url.clone();
        u.append("/api/tasks/");
        u.append(task_id);
        u.append(what);
        assert(u@ =~= self@.base_url + task_path(task_id@, what@));
        u
    }

    /// Poll for available tasks assigned to this operator.
    pub fn poll_tasks_request(&self) -> (res: ApiRequest)
        ensures
            res@ == poll_tasks_spec(self@),
    {
        ApiRequest {
            method: HttpMethod::Get,
            url: self.url_for("/api/operators/tasks/pending"),
            authorization: self.auth_header(),
            body: RequestBody::Empty,
        }
    }

    /// Notify platform that task processing has started.
    pub fn task_started_request(&self, task_id: &str) -> (res: ApiRequest)
        ensures
            res@ == task_started_spec(self@, task_id@),
    {
        ApiRequest {
            method: HttpMethod::Post,
            url: self.task_url(task_id, "/started"),
            authorization: self.auth_header(),
            body: RequestBody::Empty,
        }
    }

    /// Submit task result to platform.
    pub fn submit_result_request(
        &self,
        task_id: &str,
        output: &str,
        model_used: &str,
        tokens_used: u64,
        processing_time_secs: u64,
    ) -> (res: ApiRequest)
        ensures
            res@ == submit_result_spec(
                self@,
                task_id@,
                output@,
                model_used@,
                tokens_used,
                processing_time_secs,
            ),
    {
        let payload = TaskResultPayload {
            output: output.to_owned(),
            model_used: model_used.to_owned(),
            tokens_used,
            processing_time: processing_time_secs,
        };
        ApiRequest {
            method: HttpMethod::Post,
            url: self.task_url(task_id, "/result"),
            authorization: self.auth_header(),
            body: RequestBody::TaskResult(payload),
        }
    }

    /// Report task failure to platform.
    pub fn task_failed_request(&self, task_id: &str, error: &str) -> (res: ApiRequest)
        ensures
            res@ == task_failed_spec(self@, task_id@, error@),
    {
        ApiRequest {
            method: HttpMethod::Post,
            url: self.task_url(task_id, "/failed"),
            authorization: self.auth_header(),
            body: RequestBody::TaskFailure(TaskFailurePayload { error: error.to_owned() }),
        }
    }

    /// Set operator online/offline status.
    pub fn set_online_request(&self, online: bool) -> (res: ApiRequest)
        ensures
            res@ == set_online_spec(self@, online),
    {
        ApiRequest {
            method: HttpMethod::Post,
            url: self.url_for("/api/operators/status"),
            authorization: self.auth_header(),
            body: RequestBody::Online(OnlinePayload { is_online: online }),
        }
    }

    /// Run certification benchmark for a task category.
    pub fn certification_request(&self, category: &str, model: &str) -> (res: ApiRequest)
        ensures
            res@ == certification_spec(self@, category@, model@),
    {
        ApiRequest {
            method: HttpMethod::Post,
            url: self.url_for("/api/operators/certify"),
            authorization: self.auth_header(),
            body: RequestBody::Certification(
                CertificationRequest { category: category.to_owned(), model: model.to_owned() },
            ),
        }
    }
}

/// Whether an HTTP status code reports success (200 to 299).
pub open spec fn success_code(code: u16) -> bool {
    200 <= code < 300
}

/// Tells whether an HTTP status code reports success, as
/// `StatusCode::is_success` does.
pub fn is_success(code: u16) -> (res: bool)
    ensures
        res == success_code(code),
{
    200 <= code && code < 300
}

/// The message for a refused poll, given the displayed status and the
/// reply's body.
pub open spec fn poll_failure_text(status_line: Seq<char>, body: Seq<char>) -> Seq<char> {
    "Poll failed ("@ + status_line + "): "@ + body
}

/// Writes the message for a refused poll.
pub fn poll_failure_message(status_line: &str, body: &str) -> (res: String)
    ensures
        res@ == poll_failure_text(status_line@, body@),
{
    let mut m = "Poll failed (".to_owned();
    m.append(status_line);
    m.append("): ");
    m.append(body);
    m
}

/// Reads the status of a reply to a poll: success lets the task list be
/// read, anything else is refused with the status and the body.
pub fn poll_response(status: u16, body: &str) -> (res: Result<(), String>)
    requires
        100 <= status <= 999,
    ensures
        res is Ok <==> success_code(status),
        res matches Err(m) ==> m@ == poll_failure_text(status_line_text(status), body@),
{
    if is_success(status) {
        Ok(())
    } else {
        let line = status_line(status);
        Err(poll_failure_message(line.as_str(), body))
    }
}

/// The message for a refused result submission.
pub open spec fn submit_failure_text(body: Seq<char>) -> Seq<char> {
    "Submit result failed: "@ + body
}

/// Reads the status of a reply to a result submission.
pub fn submit_response(status: u16, body: &str) -> (res: Result<(), String>)
    ensures
        res is Ok <==> success_code(status),
        res matches Err(m) ==> m@ == submit_failure_text(body@),
{
    if is_success(status) {
        Ok(())
    } else {
        let mut m = "Submit result failed: ".to_owned();
        m.append(body);
        Err(m)
    }
}

/// Every request the client builds goes to an address under the client's
/// base URL and carries the operator's bearer token.
pub proof fn lemma_requests_address_platform(
    c: ClientView,
    task_id: Seq<char>,
    output: Seq<char>,
    model_used: Seq<char>,
    tokens_used: u64,
    processing_time: u64,
    error: Seq<char>,
    online: bool,
    category: Seq<char>,
    model: Seq<char>,
)
    ensures
        ({
            let all = seq![
                poll_tasks_spec(c),
                task_started_spec(c, task_id),
                submit_result_spec(c, task_id, output, model_used, tokens_used, processing_time),
                task_failed_spec(c, task_id, error),
                set_online_spec(c, online),
                certification_spec(c, category, model),
            ];
            forall|i: int|
                0 <= i < all.len() ==> (#[trigger] all[i]).url.take(c.base_url.len() as int)
                    == c.base_url && all[i].authorization == bearer(c.token)
        }),
{
    let all = seq![
        poll_tasks_spec(c),
        task_started_spec(c, task_id),
        submit_result_spec(c, task_id, output, model_used, tokens_used, processing_time),
        task_failed_spec(c, task_id, error),
        set_online_spec(c, online),
        certification_spec(c, category, model),
    ];
    assert forall|i: int| 0 <= i < all.len() implies (#[trigger] all[i]).url.take(
        c.base_url.len() as int,
    ) == c.base_url && all[i].authorization == bearer(c.token) by {
        let r = all[i];
        assert(exists|p: Seq<char>| r.url == c.base_url + p);
        let p = choose|p: Seq<char>| r.url == c.base_url + p;
        assert((c.base_url + p).take(c.base_url.len() as int) =~= c.base_url);
    }
}

/// The availability report carries the flag it was given: going offline
/// and going online send different requests, each with its own flag in
/// the body, to the same address.
pub proof fn lemma_status_request_carries_flag(c: ClientView, online: bool)
    ensures
        set_online_spec(c, online).body matches BodyView::Online { is_online } && is_online == online,
        set_online_spec(c, true) != set_online_spec(c, false),
        set_online_spec(c, true).url == set_online_spec(c, false).url,
        set_online_spec(c, online).method == HttpMethod::Post,
{
    assert(set_online_spec(c, true).body != set_online_spec(c, false).body);
}

/// Each request carries what it was given: the task's reports go to an
/// address that holds the task's id, each of the three to a different
/// address; the result, the failure and the certification carry their
/// arguments in the body; and every request's authorization holds the
/// operator's token.
pub proof fn lemma_requests_carry_their_arguments(
    c: ClientView,
    task_id: Seq<char>,
    output: Seq<char>,
    model_used: Seq<char>,
    tokens_used: u64,
    processing_time: u64,
    error: Seq<char>,
    category: Seq<char>,
    model: Seq<char>,
)
    ensures
        contains_text(task_started_spec(c, task_id).url, task_id),
        contains_text(
            submit_result_spec(c, task_id, output, model_used, tokens_used, processing_time).url,
            task_id,
        ),
        contains_text(task_failed_spec(c, task_id, error).url, task_id),
        task_started_spec(c, task_id).url != submit_result_spec(
            c,
            task_id,
            output,
            model_used,
            tokens_used,
            processing_time,
        ).url,
        task_started_spec(c, task_id).url != task_failed_spec(c, task_id, error).url,
        submit_result_spec(c, task_id, output, model_used, tokens_used, processing_time).url
            != task_failed_spec(c, task_id, error).url,
        submit_result_spec(c, task_id, output, model_used, tokens_used, processing_time).body
            matches BodyView::TaskResult { output: o, model_used: m, tokens_used: t, processing_time: p }
            && o == output && m == model_used && t == tokens_used && p == processing_time,
        task_failed_spec(c, task_id, error).body matches BodyView::TaskFailure { error: e } && e
            == error,
        certification_spec(c, category, model).body matches BodyView::Certification {
            category: k,
            model: m,
        } && k == category && m == model,
        contains_text(poll_tasks_spec(c).authorization, c.token),
{
    reveal_strlit("/api/tasks/");
    reveal_strlit("/started");
    reveal_strlit("/result");
    reveal_strlit("/failed");
    lemma_text_contains_itself(task_id);
    lemma_text_contains_itself(c.token);
    let head = c.base_url + "/api/tasks/"@;
    lemma_contains_in_wider(head, task_id, "/started"@, task_id);
    lemma_contains_in_wider(head, task_id, "/result"@, task_id);
    lemma_contains_in_wider(head, task_id, "/failed"@, task_id);
    assert(task_started_spec(c, task_id).url =~= head + task_id + "/started"@);
    assert(submit_result_spec(c, task_id, output, model_used, tokens_used, processing_time).url
        =~= head + task_id + "/result"@);
    assert(task_failed_spec(c, task_id, error).url =~= head + task_id + "/failed"@);
    let k: int = (head.len() + task_id.len() + 1) as int;
    assert(task_started_spec(c, task_id).url[k] == 's');
    assert(submit_result_spec(c, task_id, output, model_used, tokens_used, processing_time).url[k]
        == 'r');
    assert(task_failed_spec(c, task_id, error).url[k] == 'f');
    lemma_contains_in_wider("Bearer "@, c.token, Seq::empty(), c.token);
    assert("Bearer "@ + c.token + Seq::<char>::empty() =~= bearer(c.token));
}

} // verus!
