//! The grammar of the lines of a response head, as the engine delivers them:
//! one line per call, its terminator included.

use vstd::prelude::*;

verus! {

pub const CR: u8 = 0x0d;

pub const LF: u8 = 0x0a;

pub const SPACE: u8 = 0x20;

pub const COLON: u8 = 0x3a;

/// The pattern of a status line: `HTTP/`, a digit, a dot, a digit, a space,
/// three digits, a space, and the reason phrase, which runs to the end of
/// the line. Digits are ASCII digits, and the reason phrase may hold any
/// byte.
pub const STATUS_PATTERN: &'static str = "(?-u)HTTP/\\d\\.\\d \\d{3} (.*)";

/// The length of what stands before the reason phrase of a status line.
pub const STATUS_PREFIX_LEN: usize = 13;

/// An ASCII decimal digit.
pub open spec fn is_digit(b: u8) -> bool {
    0x30 <= b <= 0x39
}

/// Whether what stands before the reason phrase of a status line,
/// `HTTP/d.d ddd ` with a digit for each `d`, stands in `text` at index `i`.
pub open spec fn status_at(text: Seq<u8>, i: int) -> bool {
    &&& 0 <= i
    &&& i + STATUS_PREFIX_LEN <= text.len()
    &&& text[i] == 0x48
    &&& text[i + 1] == 0x54
    &&& text[i + 2] == 0x54
    &&& text[i + 3] == 0x50
    &&& text[i + 4] == 0x2f
    &&& is_digit(text[i + 5])
    &&& text[i + 6] == 0x2e
    &&& is_digit(text[i + 7])
    &&& text[i + 8] == SPACE
    &&& is_digit(text[i + 9])
    &&& is_digit(text[i + 10])
    &&& is_digit(text[i + 11])
    &&& text[i + 12] == SPACE
}

/// Whether `i` is the leftmost index at which [`status_at`] holds.
pub open spec fn first_status_at(text: Seq<u8>, i: int) -> bool {
    status_at(text, i) && forall|j: int| 0 <= j < i ==> !status_at(text, j)
}

/// The index of the first line feed of `text` at `from` or behind it, or
/// the length of `text` if there is none.
pub open spec fn line_end(text: Seq<u8>, from: int) -> int
    decreases text.len() - from,
{
    if from >= text.len() {
        text.len() as int
    } else if text[from] == LF {
        from
    } else {
        line_end(text, from + 1)
    }
}

/// Where the first group of [`STATUS_PATTERN`] stands in the leftmost match
/// of the pattern in `text`: from behind the leftmost `HTTP/d.d ddd ` up to
/// the end of that line. Nothing if the pattern matches nowhere.
pub open spec fn status_span(text: Seq<u8>) -> Option<(usize, usize)> {
    if exists|i: int| first_status_at(text, i) {
        let start = (choose|i: int| first_status_at(text, i)) + STATUS_PREFIX_LEN;
        Some((start as usize, line_end(text, start) as usize))
    } else {
        None
    }
}

/// Compiles `pattern` with `regex::bytes::Regex::new`, searches `text` with
/// `Regex::captures` and asks the match for its first group with
/// `Captures::get`; a pattern that does not compile gives nothing.
///
/// Of every pattern the contract claims that the group lies in `text`, as
/// `Match::start` and `Match::end` promise. Of [`STATUS_PATTERN`] it claims
/// what the crate's documentation of its syntax gives for that pattern:
/// `captures` finds the first match; `(?-u)` puts the pattern into the
/// mode in which `\d` is `[0-9]` and `.` is any byte but a line feed; `{3}`
/// is exactly three; `*` takes as many as there are. So the match starts at
/// the leftmost `HTTP/d.d ddd `, and its group runs from behind that up to
/// the next line feed or the end of the text.
#[verifier::external_body]
fn first_group(pattern: &str, text: &[u8]) -> (r: Option<(usize, usize)>)
    ensures
        r matches Some((start, end)) ==> start <= end <= text@.len(),
        pattern@ == STATUS_PATTERN@ ==> r == status_span(text@),
{
    match regex::bytes::Regex::new(pattern) {
        Ok(re) => match re.captures(text) {
            Some(found) => match found.get(1) {
                Some(group) => Some((group.start(), group.end())),
                None => None,
            },
            None => None,
        },
        Err(_) => None,
    }
}

/// Whether `i` is the index of the first colon of `line`.
pub open spec fn first_colon_at(line: Seq<u8>, i: int) -> bool {
    &&& 0 <= i < line.len()
    &&& line[i] == COLON
    &&& forall|j: int| 0 <= j < i ==> line[j] != COLON
}

/// The length of `line` without its terminator: a final line feed, and the
/// carriage return before it if there is one, do not count.
pub open spec fn content_len(line: Seq<u8>) -> int {
    if line.len() >= 2 && line[line.len() - 2] == CR && line[line.len() - 1] == LF {
        line.len() - 2
    } else if line.len() >= 1 && line[line.len() - 1] == LF {
        line.len() - 1
    } else {
        line.len() as int
    }
}

/// What one line of a response head says.
pub enum LineKind {
    /// A status line, with its reason phrase.
    Status(Seq<u8>),
    /// A header field, with its name and its value.
    Field(Seq<u8>, Seq<u8>),
    /// The empty line that ends a block of header fields.
    Blank,
    /// Anything else: a continuation line or a malformed one.
    Other,
}

/// Where a reason phrase that was found from `start` up to `end` ends: a
/// carriage return at its end does not count.
pub open spec fn reason_end(line: Seq<u8>, start: int, end: int) -> int {
    if start < end && line[end - 1] == CR {
        end - 1
    } else {
        end
    }
}

/// The meaning of a line in which the reason phrase of a status line was
/// found at `capture`, or no status line was found.
///
/// If one was found, the line is a status line. Any other line with a colon
/// is a field if more than four bytes start at its first colon: the name is
/// what stands before the colon, the value what stands two bytes after it,
/// up to the line's terminator. A line that holds its terminator only is
/// blank.
pub open spec fn classify_with(line: Seq<u8>, capture: Option<(usize, usize)>) -> LineKind {
    match capture {
        Some((start, end)) => LineKind::Status(
            line.subrange(start as int, reason_end(line, start as int, end as int)),
        ),
        None => if exists|p: int| first_colon_at(line, p) && p + 4 < line.len() {
            let p = choose|p: int| first_colon_at(line, p) && p + 4 < line.len();
            LineKind::Field(line.subrange(0, p), line.subrange(p + 2, content_len(line)))
        } else if content_len(line) == 0 {
            LineKind::Blank
        } else {
            LineKind::Other
        },
    }
}

/// The meaning of a line: a status line if [`STATUS_PATTERN`] matches
/// anywhere in it, with what follows the leftmost `HTTP/d.d ddd ` on its
/// line as the reason phrase; else as [`classify_with`] says.
pub open spec fn classify(line: Seq<u8>) -> LineKind {
    classify_with(line, status_span(line))
}

/// What one line of a response head says, in owned bytes.
#[derive(Clone, Debug, PartialEq, Eq)]
pub enum HeaderLine {
    /// A status line, with its reason phrase.
    Status(Vec<u8>),
    /// A header field, with its name and its value.
    Field(Vec<u8>, Vec<u8>),
    /// The empty line that ends a block of header fields.
    Blank,
    /// Anything else.
    Other,
}

impl View for HeaderLine {
    type V = LineKind;

    open spec fn view(&self) -> LineKind {
        match self {
            HeaderLine::Status(reason) => LineKind::Status(reason@),
            HeaderLine::Field(name, value) => LineKind::Field(name@, value@),
            HeaderLine::Blank => LineKind::Blank,
            HeaderLine::Other => LineKind::Other,
        }
    }
}

/// The index of the first colon of `line`.
pub fn find_colon(line: &[u8]) -> (r: Option<usize>)
    ensures
        match r {
            Some(i) => first_colon_at(line@, i as int),
            None => forall|i: int| 0 <= i < line@.len() ==> line@[i] != COLON,
        },
{
    let mut i: usize = 0;
    while i < line.len()
        invariant
            0 <= i <= line@.len(),
            forall|j: int| 0 <= j < i ==> line@[j] != COLON,
        decreases line@.len() - i,
    {
        if line[i] == COLON {
            return Some(i);
        }
        i += 1;
    }
    None
}

/// The length of `line` without its terminator.
pub fn content_end(line: &[u8]) -> (r: usize)
    ensures
        r == content_len(line@),
        r <= line@.len(),
{
    let n = line.len();
    if n >= 2 && line[n - 2] == CR && line[n - 1] == LF {
        n - 2
    } else if n >= 1 && line[n - 1] == LF {
        n - 1
    } else {
        n
    }
}

/// The bytes of `line` from `from` up to `to`.
pub fn slice_bytes(line: &[u8], from: usize, to: usize) -> (r: Vec<u8>)
    requires
        from <= to <= line@.len(),
    ensures
        r@ == line@.subrange(from as int, to as int),
{
    let mut out: Vec<u8> = Vec::new();
    let mut i: usize = from;
    while i < to
        invariant
            from <= i <= to <= line@.len(),
            out@ == line@.subrange(from as int, i as int),
        decreases to - i,
    {
        out.push(line[i]);
        i += 1;
        assert(out@ =~= line@.subrange(from as int, i as int));
    }
    out
}

/// Reads one line of a response head in which the reason phrase of a
/// status line was found at `capture`, or no status line was found.
pub fn parse_captured(line: &[u8], capture: Option<(usize, usize)>) -> (r: HeaderLine)
    requires
        capture matches Some((start, end)) ==> start <= end <= line@.len(),
    ensures
        r@ == classify_with(line@, capture),
{
    match capture {
        Some((start, end)) => {
            let stop = if start < end && line[end - 1] == CR {
                end - 1
            } else {
                end
            };
            HeaderLine::Status(slice_bytes(line, start, stop))
        },
        None => {
            let end = content_end(line);
            match find_colon(line) {
                Some(p) => {
                    if line.len() >= 4 && p < line.len() - 4 {
                        let name = slice_bytes(line, 0, p);
                        let value = slice_bytes(line, p + 2, end);
                        proof {
                            assert(first_colon_at(line@, p as int) && p + 4 < line@.len());
                            let c = choose|c: int| first_colon_at(line@, c) && c + 4 < line@.len();
                            assert(c == p);
                        }
                        HeaderLine::Field(name, value)
                    } else {
                        assert forall|c: int| first_colon_at(line@, c) implies !(c + 4
                            < line@.len()) by {
                            assert(c == p);
                        }
                        if end == 0 {
                            HeaderLine::Blank
                        } else {
                            HeaderLine::Other
                        }
                    }
                },
                None => {
                    if end == 0 {
                        HeaderLine::Blank
                    } else {
                        HeaderLine::Other
                    }
                },
            }
        },
    }
}

/// Reads one line of a response head.
pub fn parse_line(line: &[u8]) -> (r: HeaderLine)
    ensures
        r@ == classify(line@),
{
    let capture = first_group(STATUS_PATTERN, line);
    parse_captured(line, capture)
}

} // verus!
