//! The client: requests relative to a base URL, and the course of one
//! transfer as a script of steps for the engine.

use vstd::prelude::*;
use crate::body::{BodyBuffer, Sink};
use crate::easy::{Context, Curl, InfoError, InfoValue, Value, ValueView};
use crate::errors::{kind_of_status, Error, ErrorKind, CURLE_FAILED_INIT, CURLE_OK};
use crate::http::{HeaderParser, Method, Request, Response};
use crate::opt;

verus! {

/// One option and the value to set it to.
#[derive(Clone, Debug, PartialEq, Eq)]
pub struct Setting {
    pub option: i32,
    pub value: Value,
}

/// A [`Setting`] as a mathematical value.
pub struct SettingView {
    pub option: i32,
    pub value: ValueView,
}

impl View for Setting {
    type V = SettingView;

    open spec fn view(&self) -> SettingView {
        SettingView { option: self.option, value: self.value@ }
    }
}

/// One step of a transfer.
#[derive(Clone, Debug, PartialEq, Eq)]
pub enum Action {
    /// Set an option on the engine, and note the status it answers with.
    SetOption(Setting),
    /// Let the engine carry out the transfer, and note the status it
    /// answers with.
    Perform,
    /// The transfer succeeded: ask the engine for the response code and the
    /// effective URL, and conclude.
    Succeed,
    /// The transfer failed with this status: conclude with the engine's
    /// message for it.
    Fail(i32),
}

/// An [`Action`] as a mathematical value.
pub enum ActionView {
    SetOption(SettingView),
    Perform,
    Succeed,
    Fail(i32),
}

impl View for Action {
    type V = ActionView;

    open spec fn view(&self) -> ActionView {
        match self {
            Action::SetOption(setting) => ActionView::SetOption(setting@),
            Action::Perform => ActionView::Perform,
            Action::Succeed => ActionView::Succeed,
            Action::Fail(status) => ActionView::Fail(*status),
        }
    }
}

/// The views of a run of actions.
pub open spec fn action_views(actions: Seq<Action>) -> Seq<ActionView> {
    Seq::new(actions.len(), |i: int| actions[i]@)
}

/// The step that sets `option` to `value`.
pub open spec fn step(option: i32, value: ValueView) -> ActionView {
    ActionView::SetOption(SettingView { option: option, value: value })
}

/// The name under which the client presents itself.
pub const USER_AGENT: &'static str = "CRust/0.0.1";

/// The steps that prepare a client's session, once, when it is made: signals
/// are kept out of timeouts, the entry points of the four callbacks are
/// installed, and the engine is shown where to render its error messages.
pub open spec fn setup_script() -> Seq<ActionView> {
    seq![
        step(opt::NOSIGNAL, ValueView::Bool(true)),
        step(opt::WRITEFUNCTION, ValueView::Word(0)),
        step(opt::HEADERFUNCTION, ValueView::Word(0)),
        step(opt::READFUNCTION, ValueView::Word(0)),
        step(opt::PROGRESSFUNCTION, ValueView::Word(0)),
        step(opt::ERRORBUFFER, ValueView::Context(Context::ErrorBuffer)),
    ]
}

/// The first steps of a transfer: the URL, the user agent, the header lines
/// if the request has any, and silence.
pub open spec fn opening(req: &Request) -> Seq<ActionView> {
    seq![
        step(opt::URL, ValueView::Text(req.url@)),
        step(opt::USERAGENT, ValueView::Text(USER_AGENT@)),
    ] + (if req.headers@ == Map::<Seq<u8>, Seq<u8>>::empty() {
        Seq::<ActionView>::empty()
    } else {
        seq![step(opt::HTTPHEADER, ValueView::List(req.headers.line_seq()))]
    }) + seq![step(opt::VERBOSE, ValueView::Bool(false))]
}

/// The steps that tell the engine the method. `HEAD` is a `GET` without a
/// body: the body is switched off only if the engine accepted the `GET`.
pub open spec fn verb(method: Method, get_accepted: bool) -> Seq<ActionView> {
    match method {
        Method::Get => seq![step(opt::HTTPGET, ValueView::Bool(true))],
        Method::Post => seq![step(opt::POST, ValueView::Bool(true))],
        Method::Put => seq![step(opt::UPLOAD, ValueView::Bool(true))],
        Method::Delete => seq![step(opt::CUSTOMREQUEST, ValueView::Text("DELETE"@))],
        Method::Custom(name) => seq![step(opt::CUSTOMREQUEST, ValueView::Text(name@))],
        Method::Head => if get_accepted {
            seq![
                step(opt::HTTPGET, ValueView::Bool(true)),
                step(opt::NOBODY, ValueView::Bool(true)),
            ]
        } else {
            seq![step(opt::HTTPGET, ValueView::Bool(true))]
        },
    }
}

/// The timeouts of a request, each set only if the request has it.
pub open spec fn timeouts(req: &Request) -> Seq<ActionView> {
    (match req.timeout {
        Some(seconds) => seq![step(opt::TIMEOUT, ValueView::Word(seconds))],
        None => Seq::<ActionView>::empty(),
    }) + (match req.connection_timeout {
        Some(seconds) => seq![step(opt::CONNECTTIMEOUT, ValueView::Word(seconds))],
        None => Seq::<ActionView>::empty(),
    })
}

/// The steps around the transfer itself: the head and the body buffer are
/// bound to their callbacks, the engine runs, and both are unbound again at
/// once.
pub open spec fn transfer() -> Seq<ActionView> {
    seq![
        step(opt::HEADERDATA, ValueView::Context(Context::Head)),
        step(opt::WRITEDATA, ValueView::Context(Context::Body)),
        ActionView::Perform,
        step(opt::HEADERDATA, ValueView::Word(0)),
        step(opt::WRITEDATA, ValueView::Word(0)),
    ]
}

/// The last steps of a transfer: redirects are followed, and the referer
/// passed on, as the request says; the timeouts; the transfer.
pub open spec fn closing(req: &Request) -> Seq<ActionView> {
    seq![
        step(opt::FOLLOWLOCATION, ValueView::Bool(req.follow_redirects)),
        step(opt::AUTOREFERER, ValueView::Bool(req.follow_redirects)),
    ] + timeouts(req) + transfer()
}

/// All steps of a transfer, in order.
pub open spec fn script(req: &Request, get_accepted: bool) -> Seq<ActionView> {
    opening(req) + verb(req.method, get_accepted) + closing(req)
}

/// Whether the engine has not refused the first step of the method: the
/// status noted for it, if one was noted yet, is zero.
pub open spec fn get_accepted(req: &Request, history: Seq<i32>) -> bool {
    history.len() > opening(req).len() ==> history[opening(req).len() as int] == CURLE_OK
}

/// Where in a script the engine runs the transfer.
pub open spec fn perform_index(plan: Seq<ActionView>) -> int {
    plan.len() - 3
}

/// The step that follows a history: the statuses that the engine answered
/// the steps before it with, in order.
///
/// As long as the script has steps left, it is the script's next step. After
/// that it is the outcome: success if the engine answered the transfer with
/// zero, else failure with the status that it answered.
pub open spec fn action_after(req: &Request, history: Seq<i32>) -> ActionView {
    let plan = script(req, get_accepted(req, history));
    if history.len() < plan.len() {
        plan[history.len() as int]
    } else if history[perform_index(plan)] == CURLE_OK {
        ActionView::Succeed
    } else {
        ActionView::Fail(history[perform_index(plan)])
    }
}

/// The low sixteen bits of a response code.
pub open spec fn low_bits(code: i64) -> u16 {
    (code & 0xffff) as u16
}

/// The number that an answer to a query holds, if it holds one.
pub open spec fn long_of(answer: Result<Option<InfoValue>, InfoError>) -> Option<i64> {
    match answer {
        Ok(Some(InfoValue::Long(n))) => Some(n),
        _ => None,
    }
}

/// The text that an answer to a query holds, if it holds one.
pub open spec fn text_of(answer: Result<Option<InfoValue>, InfoError>) -> Option<String> {
    match answer {
        Ok(Some(InfoValue::Text(text))) => Some(text),
        _ => None,
    }
}

/// The general HTTP client, tied to a base URL. It owns one session of the
/// engine, which keeps its state, cookies among it, from one request to the
/// next.
pub struct Client {
    base_url: String,
    session: Curl,
}

fn make_set(option: i32, value: Value) -> (r: Action)
    ensures
        r@ == step(option, value@),
{
    Action::SetOption(Setting { option: option, value: value })
}

impl Client {
    #[verifier::type_invariant]
    spec fn holds_session(&self) -> bool {
        self.session.raw() != 0
    }

    /// The base URL.
    pub closed spec fn base(&self) -> Seq<char> {
        self.base_url@
    }

    /// The session.
    pub closed spec fn held(&self) -> Curl {
        self.session
    }

    /// A client for `base_url` over `session`. A session without a handle
    /// is refused at once.
    pub fn new(base_url: &str, session: Curl) -> (r: Result<Client, Error>)
        ensures
            match r {
                Ok(client) => session.raw() != 0 && client.base() == base_url@ && client.held()
                    == session,
                Err(e) => session.raw() == 0 && e.spec_kind() == ErrorKind::Engine
                    && e.spec_diagnostic().code == CURLE_FAILED_INIT
                    && e.spec_diagnostic().message@ == Seq::<char>::empty(),
            },
    {
        if session.is_null() {
            Err(Error::from_status(CURLE_FAILED_INIT, String::new()))
        } else {
            Ok(Client { base_url: base_url.to_owned(), session: session })
        }
    }

    /// The session. It holds a handle as long as the client lives.
    pub fn session(&self) -> (r: &Curl)
        ensures
            *r == self.held(),
            r.raw() != 0,
    {
        proof {
            use_type_invariant(self);
        }
        &self.session
    }

    /// Explicit release. The client stays as it is and keeps its session:
    /// the session is given up where the client ends, by
    /// [`Client::release`], and nowhere else.
    pub fn cleanup(&self) {
    }

    /// Ends the client and gives its session up, with the handle for the
    /// engine to destroy. The client is taken by value, so that its session
    /// is given up once.
    pub fn release(self) -> (given: Option<usize>)
        ensures
            given == Some(self.held().raw()),
            given == self.held().given(),
    {
        proof {
            use_type_invariant(&self);
        }
        self.session.release()
    }

    /// The steps that prepare the session of a new client.
    pub fn setup() -> (r: Vec<Action>)
        ensures
            action_views(r@) == setup_script(),
    {
        let mut out: Vec<Action> = Vec::new();
        out.push(make_set(opt::NOSIGNAL, Value::Bool(true)));
        out.push(make_set(opt::WRITEFUNCTION, Value::Word(0)));
        out.push(make_set(opt::HEADERFUNCTION, Value::Word(0)));
        out.push(make_set(opt::READFUNCTION, Value::Word(0)));
        out.push(make_set(opt::PROGRESSFUNCTION, Value::Word(0)));
        out.push(make_set(opt::ERRORBUFFER, Value::Context(Context::ErrorBuffer)));
        assert(action_views(out@) =~= setup_script());
        out
    }

    /// `base_url`, a slash, `rel_url`: nothing else is added and nothing
    /// taken out, so a slash that `rel_url` begins with stands behind the
    /// one that joins them.
    pub fn get_rel_url(base_url: &str, rel_url: &str) -> (res: String)
        ensures
            res@ == base_url@ + seq!['/'] + rel_url@,
    {
        let mut res = base_url.to_owned();
        res.append("/");
        res.append(rel_url);
        proof {
            reveal_strlit("/");
            assert("/"@ =~= seq!['/']);
        }
        res
    }

    /// A request with `method` for `rel_url` under the base URL.
    pub fn new_request(&self, rel_url: &str, method: Method) -> (r: Request)
        ensures
            r.wf(),
            r.url@ == self.base() + seq!['/'] + rel_url@,
            r.method == method,
            r.headers@ == Map::<Seq<u8>, Seq<u8>>::empty(),
            r.follow_redirects == false,
            r.timeout == None::<usize>,
            r.connection_timeout == Some(0usize),
    {
        let url = Client::get_rel_url(self.base_url.as_str(), rel_url);
        Request::new(url.as_str(), method)
    }

    /// Constructs GET request relatively to base URL
    pub fn new_get_request(&self, rel_url: &str) -> (r: Request)
        ensures
            r.wf(),
            r.url@ == self.base() + seq!['/'] + rel_url@,
            r.method == Method::Get,
            r.headers@ == Map::<Seq<u8>, Seq<u8>>::empty(),
            r.follow_redirects == false,
            r.timeout == None::<usize>,
            r.connection_timeout == Some(0usize),
    {
        self.new_request(rel_url, Method::Get)
    }

    /// Constructs POST request relatively to base URL
    pub fn new_post_request(&self, rel_url: &str) -> (r: Request)
        ensures
            r.wf(),
            r.url@ == self.base() + seq!['/'] + rel_url@,
            r.method == Method::Post,
            r.headers@ == Map::<Seq<u8>, Seq<u8>>::empty(),
            r.follow_redirects == false,
            r.timeout == None::<usize>,
            r.connection_timeout == Some(0usize),
    {
        self.new_request(rel_url, Method::Post)
    }

    /// The steps that tell the engine the method.
    pub fn update_for_method(method: Method, get_accepted: bool) -> (r: Vec<Action>)
        ensures
            action_views(r@) == verb(method, get_accepted),
    {
        let mut out: Vec<Action> = Vec::new();
        match method {
            Method::Get => {
                out.push(make_set(opt::HTTPGET, Value::Bool(true)));
            },
            Method::Post => {
                out.push(make_set(opt::POST, Value::Bool(true)));
            },
            Method::Put => {
                out.push(make_set(opt::UPLOAD, Value::Bool(true)));
            },
            Method::Delete => {
                out.push(make_set(opt::CUSTOMREQUEST, Value::Text("DELETE".to_owned())));
            },
            Method::Custom(name) => {
                out.push(make_set(opt::CUSTOMREQUEST, Value::Text(name.to_owned())));
            },
            Method::Head => {
                out.push(make_set(opt::HTTPGET, Value::Bool(true)));
                if get_accepted {
                    out.push(make_set(opt::NOBODY, Value::Bool(true)));
                }
            },
        }
        assert(action_views(out@) =~= verb(method, get_accepted));
        out
    }

    /// The first steps of a transfer.
    pub fn opening_steps(req: &Request) -> (r: Vec<Action>)
        requires
            req.wf(),
        ensures
            action_views(r@) == opening(req),
    {
        let mut out: Vec<Action> = Vec::new();
        out.push(make_set(opt::URL, Value::Text(req.url.clone())));
        out.push(make_set(opt::USERAGENT, Value::Text(USER_AGENT.to_owned())));
        if !req.headers.is_empty() {
            out.push(make_set(opt::HTTPHEADER, Value::List(req.headers.lines())));
        }
        out.push(make_set(opt::VERBOSE, Value::Bool(false)));
        assert(action_views(out@) =~= opening(req));
        out
    }

    /// The last steps of a transfer.
    pub fn closing_steps(req: &Request) -> (r: Vec<Action>)
        ensures
            action_views(r@) == closing(req),
    {
        let mut out: Vec<Action> = Vec::new();
        out.push(make_set(opt::FOLLOWLOCATION, Value::Bool(req.follow_redirects)));
        out.push(make_set(opt::AUTOREFERER, Value::Bool(req.follow_redirects)));
        match req.timeout {
            Some(seconds) => {
                out.push(make_set(opt::TIMEOUT, Value::Word(seconds)));
            },
            None => {},
        }
        match req.connection_timeout {
            Some(seconds) => {
                out.push(make_set(opt::CONNECTTIMEOUT, Value::Word(seconds)));
            },
            None => {},
        }
        out.push(make_set(opt::HEADERDATA, Value::Context(Context::Head)));
        out.push(make_set(opt::WRITEDATA, Value::Context(Context::Body)));
        out.push(Action::Perform);
        out.push(make_set(opt::HEADERDATA, Value::Word(0)));
        out.push(make_set(opt::WRITEDATA, Value::Word(0)));
        assert(action_views(out@) =~= closing(req));
        out
    }

    /// The step of a transfer of `req` that follows `history`: the statuses
    /// with which the engine answered the steps before it, in order.
    pub fn next_action(req: &Request, history: &[i32]) -> (r: Action)
        requires
            req.wf(),
        ensures
            r@ == action_after(req, history@),
    {
        let mut plan = Client::opening_steps(req);
        let gate = plan.len();
        let accepted = !(history.len() > gate && history[gate] != CURLE_OK);
        let mut middle = Client::update_for_method(req.method, accepted);
        let mut end = Client::closing_steps(req);
        plan.append(&mut middle);
        plan.append(&mut end);
        assert(action_views(plan@) =~= script(req, accepted));
        assert(accepted == get_accepted(req, history@));
        let done = history.len();
        if done < plan.len() {
            let step = plan.remove(done);
            step
        } else {
            let status = history[plan.len() - 3];
            if status == CURLE_OK {
                Action::Succeed
            } else {
                Action::Fail(status)
            }
        }
    }

    /// The engine's message for a failure: what it rendered into the error
    /// buffer during the transfer, or, if that is empty, its general message
    /// for the status.
    pub fn failure_message(captured: String, general: String) -> (r: String)
        ensures
            r == if captured@.len() == 0 {
                general
            } else {
                captured
            },
    {
        if captured.as_str().is_empty() {
            general
        } else {
            captured
        }
    }

    /// The outcome of a transfer.
    ///
    /// With a status of zero it is the response whose head `parser` has
    /// read, with what `body` has collected as its content, and with the
    /// response code and the effective URL that the engine answered the
    /// queries with; a query without an answer leaves its field as it was.
    /// With any other status it is the error of that status, with `message`.
    pub fn conclude(
        status: i32,
        message: String,
        parser: HeaderParser,
        body: BodyBuffer,
        code: Result<Option<InfoValue>, InfoError>,
        url: Result<Option<InfoValue>, InfoError>,
    ) -> (r: Result<Response, Error>)
        requires
            parser.wf(),
        ensures
            match r {
                Ok(response) => {
                    &&& status == CURLE_OK
                    &&& response.wf()
                    &&& response.headers == parser.response.headers
                    &&& response.status_message == parser.response.status_message
                    &&& response.status_code == match long_of(code) {
                        Some(n) => low_bits(n),
                        None => parser.response.status_code,
                    }
                    &&& response.url == match text_of(url) {
                        Some(text) => text,
                        None => parser.response.url,
                    }
                    &&& response.content_data matches Some(reader) && reader@ == body@
                },
                Err(e) => {
                    &&& status != CURLE_OK
                    &&& e.spec_kind() == kind_of_status(status)
                    &&& e.spec_diagnostic().code == status
                    &&& e.spec_diagnostic().message == message
                },
            },
    {
        if status != CURLE_OK {
            return Err(Error::from_status(status, message));
        }
        let mut response = parser.into_response();
        match code {
            Ok(Some(InfoValue::Long(n))) => {
                assert(0 <= (n & 0xffff) <= 0xffff) by (bit_vector);
                response.status_code = (n & 0xffff) as u16;
            },
            _ => {},
        }
        match url {
            Ok(Some(InfoValue::Text(text))) => {
                response.url = text;
            },
            _ => {},
        }
        response.content_data = Some(body.consume());
        Ok(response)
    }

    /// The number of bytes in `nmemb` elements of `size` bytes each, if it
    /// fits.
    pub fn total_bytes(size: usize, nmemb: usize) -> (r: Option<usize>)
        ensures
            r == if size * nmemb > usize::MAX {
                None::<usize>
            } else {
                Some((size * nmemb) as usize)
            },
    {
        size.checked_mul(nmemb)
    }

    /// The write callback: hands `chunk` to the body buffer, if one is
    /// bound, and says how many bytes were taken. Without a buffer the chunk
    /// is acknowledged and dropped, so that the transfer goes on.
    pub fn http_write_fn(sink: Option<&mut BodyBuffer>, chunk: &[u8]) -> (accepted: usize)
        ensures
            accepted == chunk@.len(),
            sink matches Some(buffer) ==> final(buffer)@ == buffer@ + chunk@,
    {
        match sink {
            Some(buffer) => buffer.on_bytes(chunk),
            None => chunk.len(),
        }
    }

    /// The read callback: there is no body to upload, so no byte is given.
    pub fn http_read_fn(room: usize) -> (given: usize)
        ensures
            given == 0,
    {
        0
    }

    /// The header callback: hands `line` to the parser, if one is bound,
    /// and acknowledges all of its bytes, so that no line ends the transfer.
    pub fn http_header_fn(head: Option<&mut HeaderParser>, line: &[u8]) -> (accepted: usize)
        requires
            head matches Some(parser) ==> parser.wf(),
        ensures
            accepted == line@.len(),
            head matches Some(parser) ==> {
                &&& final(parser).wf()
                &&& final(parser).head() == crate::http::head_after(parser.head(), line@)
                &&& final(parser).response.url == parser.response.url
                &&& final(parser).response.status_code == parser.response.status_code
                &&& final(parser).response.content_data == parser.response.content_data
            },
    {
        match head {
            Some(parser) => parser.on_bytes(line),
            None => line.len(),
        }
    }

    /// The progress callback: the transfer is never asked to end.
    pub fn http_progress_fn(dltotal: u64, dlnow: u64, ultotal: u64, ulnow: u64) -> (stop: i32)
        ensures
            stop == 0,
    {
        0
    }
}

/// The first step of every transfer sets the URL to the request's own, byte
/// for byte: for a request made from a base and a relative URL that is the
/// base, a slash and the relative URL, with nothing normalised.
pub proof fn law_url_is_set_as_joined(req: &Request, base: Seq<char>, rel_url: Seq<char>)
    requires
        req.url@ == base + seq!['/'] + rel_url,
    ensures
        action_after(req, Seq::<i32>::empty()) == step(
            opt::URL,
            ValueView::Text(base + seq!['/'] + rel_url),
        ),
{
}

/// The engine runs the transfer at one step of the script and at no
/// other.
pub proof fn law_transfer_runs_once(req: &Request, get_accepted: bool, i: int)
    requires
        0 <= i < script(req, get_accepted).len(),
    ensures
        script(req, get_accepted)[i] == ActionView::Perform <==> i == perform_index(
            script(req, get_accepted),
        ),
{
    let plan = script(req, get_accepted);
    let before = opening(req) + verb(req.method, get_accepted);
    let flags = seq![
        step(opt::FOLLOWLOCATION, ValueView::Bool(req.follow_redirects)),
        step(opt::AUTOREFERER, ValueView::Bool(req.follow_redirects)),
    ];
    let tail = flags + timeouts(req);
    assert(plan =~= before + tail + transfer());
    assert(forall|k: int| 0 <= k < before.len() ==> before[k] != ActionView::Perform);
    assert(forall|k: int| 0 <= k < tail.len() ==> tail[k] != ActionView::Perform);
}

/// Redirects are followed exactly when the referer is passed on: the two
/// options are set to the same value, the one that the request holds.
pub proof fn law_referer_follows_redirects(req: &Request, get_accepted: bool, i: int)
    requires
        0 <= i < script(req, get_accepted).len(),
        script(req, get_accepted)[i] is SetOption,
    ensures
        ({
            let setting = script(req, get_accepted)[i]->SetOption_0;
            setting.option == opt::FOLLOWLOCATION || setting.option == opt::AUTOREFERER
                ==> setting.value == ValueView::Bool(req.follow_redirects)
        }),
{
    let plan = script(req, get_accepted);
    let before = opening(req) + verb(req.method, get_accepted);
    let flags = seq![
        step(opt::FOLLOWLOCATION, ValueView::Bool(req.follow_redirects)),
        step(opt::AUTOREFERER, ValueView::Bool(req.follow_redirects)),
    ];
    let rest = timeouts(req) + transfer();
    assert(plan =~= before + flags + rest);
    let other = |a: ActionView|
        a is SetOption ==> a->SetOption_0.option != opt::FOLLOWLOCATION && a->SetOption_0.option
            != opt::AUTOREFERER;
    assert(forall|k: int| 0 <= k < before.len() ==> other(before[k]));
    assert(forall|k: int| 0 <= k < rest.len() ==> other(rest[k]));
    if i < before.len() {
        assert(other(before[i]));
    } else if i >= before.len() + 2 {
        assert(other(rest[i - before.len() - 2]));
    }
}

/// A request without a timeout leaves the engine's own in force: no step
/// sets it.
pub proof fn law_absent_timeout_is_not_set(req: &Request, get_accepted: bool, i: int)
    requires
        0 <= i < script(req, get_accepted).len(),
        script(req, get_accepted)[i] is SetOption,
    ensures
        ({
            let setting = script(req, get_accepted)[i]->SetOption_0;
            &&& req.timeout is None ==> setting.option != opt::TIMEOUT
            &&& req.connection_timeout is None ==> setting.option != opt::CONNECTTIMEOUT
        }),
{
    let plan = script(req, get_accepted);
    let before = opening(req) + verb(req.method, get_accepted);
    let flags = seq![
        step(opt::FOLLOWLOCATION, ValueView::Bool(req.follow_redirects)),
        step(opt::AUTOREFERER, ValueView::Bool(req.follow_redirects)),
    ];
    let middle = timeouts(req);
    assert(plan =~= before + flags + middle + transfer());
    let other = |a: ActionView|
        a is SetOption ==> a->SetOption_0.option != opt::TIMEOUT && a->SetOption_0.option
            != opt::CONNECTTIMEOUT;
    assert(forall|k: int| 0 <= k < before.len() ==> other(before[k]));
    assert(forall|k: int| 0 <= k < flags.len() ==> other(flags[k]));
    assert(forall|k: int| 0 <= k < transfer().len() ==> other(transfer()[k]));
    if i < before.len() {
        assert(other(before[i]));
    } else if i < before.len() + 2 {
        assert(other(flags[i - before.len()]));
    } else if i >= before.len() + 2 + middle.len() {
        assert(other(transfer()[i - before.len() - 2 - middle.len()]));
    }
}

/// A `HEAD` whose `GET` the engine refused does not go on to switch the body
/// off: its next step is the one that follows the method.
pub proof fn law_refused_get_ends_head(req: &Request, history: Seq<i32>)
    requires
        req.method is Head,
        history.len() == opening(req).len() + 1,
        history[opening(req).len() as int] != CURLE_OK,
    ensures
        action_after(req, history) == step(
            opt::FOLLOWLOCATION,
            ValueView::Bool(req.follow_redirects),
        ),
{
    let plan = script(req, false);
    assert(!get_accepted(req, history));
    assert(plan[history.len() as int] == closing(req)[0]);
}

/// A transfer walks its script: along any history, the step taken after the
/// first `i` answers is step `i` of the script that the whole history
/// selects.
pub proof fn law_steps_follow_script(req: &Request, history: Seq<i32>, i: int)
    requires
        0 <= i <= history.len(),
        i < script(req, get_accepted(req, history)).len(),
    ensures
        action_after(req, history.take(i)) == script(req, get_accepted(req, history))[i],
{
    let whole = get_accepted(req, history);
    let part = get_accepted(req, history.take(i));
    let gate = opening(req).len() as int;
    if i > gate {
        assert(history.take(i)[gate] == history[gate]);
        assert(part == whole);
    } else {
        assert(part);
        let head = opening(req);
        assert(verb(req.method, true)[0] == verb(req.method, false)[0]);
        if i < gate {
            assert(script(req, true)[i] == head[i]);
            assert(script(req, false)[i] == head[i]);
        } else {
            assert(script(req, true)[i] == verb(req.method, true)[0]);
            assert(script(req, false)[i] == verb(req.method, false)[0]);
        }
        assert(script(req, true).len() >= script(req, false).len());
    }
}

} // verus!
