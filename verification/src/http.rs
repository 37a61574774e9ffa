//! Requests, responses, and the state that a response is rebuilt in while the
//! engine delivers its head line by line.

use vstd::prelude::*;
use vstd::string::StringSliceAdditionalSpecFns;
use crate::body::{BodyReader, Sink};
use crate::headers::{copy_bytes, HeaderMap};
use crate::parse::{classify, first_colon_at, parse_line, status_at, HeaderLine, LineKind};

verus! {

/// HTTP method of a request.
#[derive(Clone, Copy, Debug, PartialEq, Eq)]
pub enum Method {
    Get,
    Post,
    Delete,
    Head,
    Put,
    /// Any other verb, sent as it is written.
    Custom(&'static str),
}

/// An HTTP request: where it goes and how it is to be carried out.
pub struct Request {
    /// The target, as it is handed to the engine.
    pub url: String,
    pub headers: HeaderMap,
    pub method: Method,
    pub follow_redirects: bool,
    /// Transfer timeout in seconds
    pub timeout: Option<usize>,
    /// Connection timeout in seconds
    pub connection_timeout: Option<usize>,
}

impl Request {
    /// The invariant of the type: its header map is well formed.
    pub open spec fn wf(&self) -> bool {
        self.headers.wf()
    }

    /// Whether the invariant holds, for callers that Verus does not see.
    pub fn is_well_formed(&self) -> (r: bool)
        ensures
            r == self.wf(),
    {
        self.headers.is_well_formed()
    }

    /// A request for `url` without header fields, which does not follow
    /// redirects, has no transfer timeout and a connection timeout of zero.
    pub fn new(url: &str, method: Method) -> (r: Request)
        ensures
            r.wf(),
            r.url@ == url@,
            r.method == method,
            r.headers@ == Map::<Seq<u8>, Seq<u8>>::empty(),
            r.follow_redirects == false,
            r.timeout == None::<usize>,
            r.connection_timeout == Some(0usize),
    {
        Request {
            url: url.to_owned(),
            method: method,
            headers: HeaderMap::new(),
            follow_redirects: false,
            timeout: None,
            connection_timeout: Some(0),
        }
    }

    /// The target of the request.
    pub fn url(&self) -> (r: &str)
        ensures
            r@ == self.url@,
    {
        self.url.as_str()
    }

    /// Sets the header field `name` to `value`, in place of any value it had.
    /// Name and value are held as their UTF-8 bytes.
    pub fn set_header(&mut self, name: &str, value: &str)
        requires
            old(self).wf(),
        ensures
            final(self).wf(),
            final(self).headers@ == old(self).headers@.insert(
                name.spec_bytes(),
                value.spec_bytes(),
            ),
            final(self).url == old(self).url,
            final(self).method == old(self).method,
            final(self).follow_redirects == old(self).follow_redirects,
            final(self).timeout == old(self).timeout,
            final(self).connection_timeout == old(self).connection_timeout,
    {
        self.headers.insert(copy_bytes(name.as_bytes()), copy_bytes(value.as_bytes()));
    }
}

/// An HTTP response.
pub struct Response {
    /// The URL that answered, after any redirects.
    pub url: String,
    pub headers: HeaderMap,
    /// Zero until the engine has reported it.
    pub status_code: u16,
    /// The reason phrase of the last status line.
    pub status_message: Vec<u8>,
    pub content_data: Option<BodyReader>,
}

impl Response {
    /// The invariant of the type: its header map is well formed.
    pub open spec fn wf(&self) -> bool {
        self.headers.wf()
    }

    /// A response of which nothing is known yet.
    pub fn new() -> (r: Response)
        ensures
            r.wf(),
            r.url@ == Seq::<char>::empty(),
            r.headers@ == Map::<Seq<u8>, Seq<u8>>::empty(),
            r.status_code == 0,
            r.status_message@ == Seq::<u8>::empty(),
            r.content_data is None,
    {
        Response {
            status_code: 0,
            url: String::new(),
            headers: HeaderMap::new(),
            status_message: Vec::new(),
            content_data: None,
        }
    }
}

/// Where the reading of a response head stands.
#[derive(Clone, Copy, Debug, PartialEq, Eq, Structural)]
pub enum ParserState {
    /// No status line was read yet, or an empty line has closed the block of
    /// fields that followed the last one.
    AwaitingStatusLine,
    /// A status line was read, and its block of fields is still open.
    CollectingHeaders,
}

/// What has been read of a response head.
pub struct Head {
    pub state: ParserState,
    pub status_message: Seq<u8>,
    pub headers: Map<Seq<u8>, Seq<u8>>,
}

/// The head before any line was read.
pub open spec fn fresh_head() -> Head {
    Head {
        state: ParserState::AwaitingStatusLine,
        status_message: Seq::empty(),
        headers: Map::empty(),
    }
}

/// The head after one more line.
///
/// A status line opens a new head: its reason phrase becomes the status
/// message and the fields read so far are dropped. A field is set, in place
/// of any value it had. An empty line closes the block. Any other line is
/// passed over.
pub open spec fn head_after(head: Head, line: Seq<u8>) -> Head {
    match classify(line) {
        LineKind::Status(reason) => Head {
            state: ParserState::CollectingHeaders,
            status_message: reason,
            headers: Map::empty(),
        },
        LineKind::Field(name, value) => Head { headers: head.headers.insert(name, value), ..head },
        LineKind::Blank => Head { state: ParserState::AwaitingStatusLine, ..head },
        LineKind::Other => head,
    }
}

/// The head after a run of lines, read first to last.
pub open spec fn head_after_all(head: Head, lines: Seq<Seq<u8>>) -> Head
    decreases lines.len(),
{
    if lines.len() == 0 {
        head
    } else {
        head_after(head_after_all(head, lines.drop_last()), lines.last())
    }
}

/// Rebuilds the head of a response from the lines that the engine delivers,
/// one line per call.
pub struct HeaderParser {
    pub state: ParserState,
    pub response: Response,
}

impl HeaderParser {
    /// The invariant of the type: the response under construction is well
    /// formed.
    pub open spec fn wf(&self) -> bool {
        self.response.wf()
    }

    /// What has been read so far.
    pub open spec fn head(&self) -> Head {
        Head {
            state: self.state,
            status_message: self.response.status_message@,
            headers: self.response.headers@,
        }
    }

    /// Whether the invariant holds, for callers that Verus does not see.
    pub fn is_well_formed(&self) -> (r: bool)
        ensures
            r == self.wf(),
    {
        self.response.headers.is_well_formed()
    }

    /// A parser that has read nothing, over a fresh response.
    pub fn new() -> (r: HeaderParser)
        ensures
            r.wf(),
            r.head() == fresh_head(),
            r.response.url@ == Seq::<char>::empty(),
            r.response.status_code == 0,
            r.response.content_data is None,
    {
        HeaderParser { state: ParserState::AwaitingStatusLine, response: Response::new() }
    }

    /// The response as far as its head was read.
    pub fn into_response(self) -> (r: Response)
        ensures
            r == self.response,
    {
        self.response
    }
}

impl Sink for HeaderParser {
    open spec fn ready(&self) -> bool {
        self.wf()
    }

    /// Reads one line, terminator included, and says how many of its bytes
    /// were taken: all of them, whatever the line holds.
    fn on_bytes(&mut self, line: &[u8]) -> (accepted: usize)
        ensures
            final(self).wf(),
            final(self).head() == head_after(old(self).head(), line@),
            final(self).response.url == old(self).response.url,
            final(self).response.status_code == old(self).response.status_code,
            final(self).response.content_data == old(self).response.content_data,
            accepted == line@.len(),
    {
        match parse_line(line) {
            HeaderLine::Status(reason) => {
                self.response.status_message = reason;
                self.response.headers.clear();
                self.state = ParserState::CollectingHeaders;
            },
            HeaderLine::Field(name, value) => {
                self.response.headers.insert(name, value);
            },
            HeaderLine::Blank => {
                self.state = ParserState::AwaitingStatusLine;
            },
            HeaderLine::Other => {},
        }
        line.len()
    }
}

/// A status line opens a new head whatever was read before it: its reason
/// phrase is the status message and no field is set.
pub proof fn law_status_line_clears(head: Head, line: Seq<u8>)
    requires
        classify(line) is Status,
    ensures
        head_after(head, line).headers == Map::<Seq<u8>, Seq<u8>>::empty(),
        head_after(head, line).status_message == classify(line)->Status_0,
        head_after(head, line) == head_after(fresh_head(), line),
{
}

/// Once a status line has been read, nothing of what came before it is
/// left: the head is the one that the lines from that status line on give by
/// themselves.
pub proof fn law_status_line_forgets(head: Head, lines: Seq<Seq<u8>>, k: int)
    requires
        0 <= k < lines.len(),
        classify(lines[k]) is Status,
    ensures
        head_after_all(head, lines) == head_after_all(fresh_head(), lines.skip(k)),
    decreases lines.len(),
{
    let tail = lines.skip(k);
    assert(tail.last() == lines.last());
    if k == lines.len() - 1 {
        assert(tail.drop_last() =~= Seq::<Seq<u8>>::empty());
        assert(head_after_all(fresh_head(), tail.drop_last()) == fresh_head());
    } else {
        law_status_line_forgets(head, lines.drop_last(), k);
        assert(tail.drop_last() =~= lines.drop_last().skip(k));
    }
}

/// A field of the head after a run of lines whose first is a status line was
/// set by one of the lines that follow it in the run.
pub proof fn law_fields_follow_status_line(lines: Seq<Seq<u8>>, name: Seq<u8>)
    requires
        lines.len() > 0,
        classify(lines[0]) is Status,
        head_after_all(fresh_head(), lines).headers.contains_key(name),
    ensures
        exists|j: int|
            0 < j < lines.len() && #[trigger] classify(lines[j]) is Field && classify(
                lines[j],
            )->Field_0 == name,
    decreases lines.len(),
{
    let init = lines.drop_last();
    let before = head_after_all(fresh_head(), init);
    if lines.len() == 1 {
        assert(init =~= Seq::<Seq<u8>>::empty());
        assert(before == fresh_head());
    } else {
        let j = lines.len() - 1;
        match classify(lines.last()) {
            LineKind::Field(n, v) => {
                if n == name {
                    assert(classify(lines[j]) is Field && classify(lines[j])->Field_0 == name);
                } else {
                    assert(before.headers.contains_key(name));
                    law_fields_follow_status_line(init, name);
                    let i = choose|i: int|
                        0 < i < init.len() && #[trigger] classify(init[i]) is Field && classify(
                            init[i],
                        )->Field_0 == name;
                    assert(init[i] == lines[i]);
                    assert(classify(lines[i]) is Field && classify(lines[i])->Field_0 == name);
                }
            },
            LineKind::Status(_) => {},
            _ => {
                assert(before.headers.contains_key(name));
                law_fields_follow_status_line(init, name);
                let i = choose|i: int|
                    0 < i < init.len() && #[trigger] classify(init[i]) is Field && classify(
                        init[i],
                    )->Field_0 == name;
                assert(init[i] == lines[i]);
                assert(classify(lines[i]) is Field && classify(lines[i])->Field_0 == name);
            },
        }
    }
}

/// A line that is no status line and whose first colon stands four bytes
/// before its end or later is passed over: the head stays as it was.
pub proof fn law_late_colon_skipped(head: Head, line: Seq<u8>, p: int)
    requires
        forall|i: int| !status_at(line, i),
        first_colon_at(line, p),
        p >= line.len() - 4,
    ensures
        head_after(head, line) == head,
{
    assert forall|q: int| first_colon_at(line, q) implies q == p by {}
    assert(!(classify(line) is Field));
    assert(!(classify(line) is Status));
}

} // verus!
