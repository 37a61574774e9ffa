//! The engine's session handle, and the passage of typed values through the
//! engine's untyped interface: option values on their way in, answers to
//! queries on their way out.

use vstd::prelude::*;
use crate::escape::{escape, escaped, unescape, unescaped};
use crate::headers::copy_bytes;
use crate::info::{info_kind, kind_of, InfoKind};
use crate::opt;

verus! {

/// The four roles in which the engine calls back during a transfer.
#[derive(Clone, Copy, Debug, PartialEq, Eq, Structural)]
pub enum Callback {
    Write,
    Read,
    Header,
    Progress,
}

/// The objects of a client that an option can point the engine at.
#[derive(Clone, Copy, Debug, PartialEq, Eq, Structural)]
pub enum Context {
    /// The head of the response under construction.
    Head,
    /// The buffer that collects the body.
    Body,
    /// The buffer that the engine renders its error message into.
    ErrorBuffer,
}

/// The shapes of value that an option can be set to.
#[derive(Clone, Debug, PartialEq, Eq)]
pub enum Value {
    Long(i64),
    Bool(bool),
    Text(String),
    Bytes(Vec<u8>),
    List(Vec<Vec<u8>>),
    /// A raw handle, a size or an address.
    Word(usize),
    Context(Context),
}

/// A [`Value`] as a mathematical value.
pub enum ValueView {
    Long(i64),
    Bool(bool),
    Text(Seq<char>),
    Bytes(Seq<u8>),
    List(Seq<Seq<u8>>),
    Word(usize),
    Context(Context),
}

impl View for Value {
    type V = ValueView;

    open spec fn view(&self) -> ValueView {
        match self {
            Value::Long(n) => ValueView::Long(*n),
            Value::Bool(b) => ValueView::Bool(*b),
            Value::Text(s) => ValueView::Text(s@),
            Value::Bytes(b) => ValueView::Bytes(b@),
            Value::List(items) => ValueView::List(items.deep_view()),
            Value::Word(w) => ValueView::Word(*w),
            Value::Context(c) => ValueView::Context(*c),
        }
    }
}

/// What the engine is handed as the one parameter of an option.
#[derive(Clone, Debug, PartialEq, Eq)]
pub enum Param {
    Long(i64),
    Word(usize),
    /// The address of this buffer, which ends in a zero byte.
    Buffer(Vec<u8>),
    /// The head of an engine list to which these buffers, each ending in a
    /// zero byte, were appended in order.
    List(Vec<Vec<u8>>),
    /// The address of the entry point for a callback role.
    Entry(Callback),
    /// The address of an object of the client.
    Address(Context),
}

/// A [`Param`] as a mathematical value.
pub enum ParamView {
    Long(i64),
    Word(usize),
    Buffer(Seq<u8>),
    List(Seq<Seq<u8>>),
    Entry(Callback),
    Address(Context),
}

impl View for Param {
    type V = ParamView;

    open spec fn view(&self) -> ParamView {
        match self {
            Param::Long(n) => ParamView::Long(*n),
            Param::Word(w) => ParamView::Word(*w),
            Param::Buffer(b) => ParamView::Buffer(b@),
            Param::List(items) => ParamView::List(items.deep_view()),
            Param::Entry(role) => ParamView::Entry(*role),
            Param::Address(c) => ParamView::Address(*c),
        }
    }
}

/// The role whose function an option installs, if it installs one.
pub open spec fn callback_of(option: i32) -> Option<Callback> {
    if option == opt::WRITEFUNCTION {
        Some(Callback::Write)
    } else if option == opt::READFUNCTION {
        Some(Callback::Read)
    } else if option == opt::HEADERFUNCTION {
        Some(Callback::Header)
    } else if option == opt::PROGRESSFUNCTION {
        Some(Callback::Progress)
    } else {
        None
    }
}

/// A text with the zero byte that ends it for the engine.
pub open spec fn terminated(text: Seq<u8>) -> Seq<u8> {
    text.push(0u8)
}

/// What the engine reads from a buffer: the bytes before the first zero.
pub open spec fn c_text(buffer: Seq<u8>) -> Seq<u8>
    decreases buffer.len(),
{
    if buffer.len() == 0 || buffer[0] == 0 {
        Seq::empty()
    } else {
        seq![buffer[0]] + c_text(buffer.drop_first())
    }
}

/// The parameter that stands for `value` when `option` is set.
///
/// An option that installs a callback gets the entry point of its role,
/// whatever the value. For any other option a number stands for itself, a
/// boolean is 0 or 1, a text or a byte string becomes a buffer that ends in a
/// zero byte, a list becomes a list of such buffers, and a word or an object
/// of the client stands for itself.
pub open spec fn marshaled(option: i32, value: ValueView) -> ParamView {
    match callback_of(option) {
        Some(role) => ParamView::Entry(role),
        None => match value {
            ValueView::Long(n) => ParamView::Long(n),
            ValueView::Bool(b) => ParamView::Long(
                if b {
                    1i64
                } else {
                    0i64
                },
            ),
            ValueView::Text(s) => ParamView::Buffer(terminated(vstd::utf8::encode_utf8(s))),
            ValueView::Bytes(b) => ParamView::Buffer(terminated(b)),
            ValueView::List(items) => ParamView::List(
                Seq::new(items.len(), |i: int| terminated(items[i])),
            ),
            ValueView::Word(w) => ParamView::Word(w),
            ValueView::Context(c) => ParamView::Address(c),
        },
    }
}

/// Executable form of [`callback_of`].
pub fn callback_role(option: i32) -> (r: Option<Callback>)
    ensures
        r == callback_of(option),
{
    if option == opt::WRITEFUNCTION {
        Some(Callback::Write)
    } else if option == opt::READFUNCTION {
        Some(Callback::Read)
    } else if option == opt::HEADERFUNCTION {
        Some(Callback::Header)
    } else if option == opt::PROGRESSFUNCTION {
        Some(Callback::Progress)
    } else {
        None
    }
}

/// A copy of `text` that ends in a zero byte.
pub fn to_c_buffer(text: &[u8]) -> (r: Vec<u8>)
    ensures
        r@ == terminated(text@),
{
    let mut out = copy_bytes(text);
    out.push(0u8);
    out
}

/// What the engine has written into `buffer`: the bytes before the first
/// zero.
pub fn from_c_buffer(buffer: &[u8]) -> (r: Vec<u8>)
    ensures
        r@ == c_text(buffer@),
{
    let mut out: Vec<u8> = Vec::new();
    let mut i: usize = 0;
    assert(buffer@.skip(0) =~= buffer@);
    assert(out@ + c_text(buffer@) =~= c_text(buffer@));
    while i < buffer.len() && buffer[i] != 0
        invariant
            0 <= i <= buffer@.len(),
            out@ + c_text(buffer@.skip(i as int)) == c_text(buffer@),
        decreases buffer@.len() - i,
    {
        let ghost rest = buffer@.skip(i as int);
        let ghost before = out@;
        assert(rest[0] == buffer@[i as int]);
        assert(rest.drop_first() =~= buffer@.skip(i + 1));
        out.push(buffer[i]);
        assert(out@ + c_text(buffer@.skip(i + 1)) =~= before + c_text(rest));
        i += 1;
    }
    proof {
        let rest = buffer@.skip(i as int);
        if i < buffer@.len() {
            assert(rest[0] == buffer@[i as int]);
        }
        assert(c_text(rest) =~= Seq::<u8>::empty());
        assert(out@ + Seq::<u8>::empty() =~= out@);
    }
    out
}

/// Copies of the items of a list, each ending in a zero byte.
pub fn to_c_list(items: &Vec<Vec<u8>>) -> (r: Vec<Vec<u8>>)
    ensures
        r.deep_view() == Seq::new(
            items.deep_view().len(),
            |i: int| terminated(items.deep_view()[i]),
        ),
{
    let mut out: Vec<Vec<u8>> = Vec::new();
    let mut i: usize = 0;
    while i < items.len()
        invariant
            0 <= i <= items@.len(),
            out@.len() == i,
            forall|k: int| 0 <= k < i ==> #[trigger] out@[k]@ == terminated(items@[k]@),
        decreases items@.len() - i,
    {
        out.push(to_c_buffer(items[i].as_slice()));
        i += 1;
    }
    proof {
        let want = Seq::new(items.deep_view().len(), |i: int| terminated(items.deep_view()[i]));
        assert(out.deep_view().len() == want.len());
        assert forall|k: int| 0 <= k < want.len() implies out.deep_view()[k] == want[k] by {
            assert(out.deep_view()[k] == out@[k]@);
            assert(items.deep_view()[k] == items@[k]@);
        }
        assert(out.deep_view() =~= want);
    }
    out
}

/// Turns the value that an option is set to into the parameter that the
/// engine is handed.
pub fn marshal(option: i32, value: &Value) -> (r: Param)
    ensures
        r@ == marshaled(option, value@),
{
    match callback_role(option) {
        Some(role) => Param::Entry(role),
        None => match value {
            Value::Long(n) => Param::Long(*n),
            Value::Bool(b) => Param::Long(
                if *b {
                    1
                } else {
                    0
                },
            ),
            Value::Text(s) => Param::Buffer(to_c_buffer(s.as_str().as_bytes())),
            Value::Bytes(b) => Param::Buffer(to_c_buffer(b.as_slice())),
            Value::List(items) => Param::List(to_c_list(items)),
            Value::Word(w) => Param::Word(*w),
            Value::Context(c) => Param::Address(*c),
        },
    }
}

/// An option that installs a callback gets the same entry point whatever
/// value it is set to.
pub proof fn law_callback_ignores_value(option: i32, one: ValueView, other: ValueView)
    requires
        callback_of(option) is Some,
    ensures
        marshaled(option, one) == marshaled(option, other),
        marshaled(option, one) == ParamView::Entry(callback_of(option)->Some_0),
{
}

/// The engine reads a text without a zero byte back whole from its
/// buffer.
pub proof fn law_buffer_reads_back(text: Seq<u8>)
    requires
        forall|i: int| 0 <= i < text.len() ==> text[i] != 0,
    ensures
        c_text(terminated(text)) == text,
    decreases text.len(),
{
    let buffer = terminated(text);
    if text.len() == 0 {
        assert(buffer[0] == 0);
    } else {
        assert(buffer[0] == text[0]);
        assert(buffer.drop_first() =~= terminated(text.drop_first()));
        law_buffer_reads_back(text.drop_first());
        assert(seq![text[0]] + text.drop_first() =~= text);
    }
}

/// Of a text with a zero byte in it the engine reads only what stands
/// before the first one.
pub proof fn law_buffer_ends_at_zero(text: Seq<u8>, k: int)
    requires
        0 <= k < text.len(),
        text[k] == 0,
        forall|i: int| 0 <= i < k ==> text[i] != 0,
    ensures
        c_text(terminated(text)) == text.take(k),
    decreases k,
{
    let buffer = terminated(text);
    if k == 0 {
        assert(buffer[0] == 0);
        assert(text.take(0) =~= Seq::<u8>::empty());
    } else {
        assert(buffer[0] == text[0]);
        assert(buffer.drop_first() =~= terminated(text.drop_first()));
        law_buffer_ends_at_zero(text.drop_first(), k - 1);
        assert(seq![text[0]] + text.drop_first().take(k - 1) =~= text.take(k));
    }
}

/// The storage that the engine filled in answer to a query, read as the
/// type that the key's tag names.
#[derive(Clone, Debug, PartialEq, Eq)]
pub enum Slot {
    /// The text at the address in the slot, if the slot holds an address.
    Text(Option<String>),
    Long(i64),
    /// The bits of a floating-point number.
    Double(u64),
    /// The head of an engine list.
    List(usize),
}

/// An answer of the engine to a query.
#[derive(Clone, Debug, PartialEq, Eq)]
pub enum InfoValue {
    Text(String),
    Long(i64),
    /// The bits of a floating-point number.
    Double(u64),
}

/// Why an answer cannot be told.
#[derive(Clone, Copy, Debug, PartialEq, Eq, Structural)]
pub enum InfoError {
    /// The key's tag names no type.
    UnknownKind,
    /// The key asks for a list, and lists cannot be read yet.
    ListUnsupported,
    /// The slot was not read as the type that the key's tag names.
    KindMismatch,
}

/// What a query has brought.
///
/// If the engine answered with a status other than zero, nothing is there,
/// and the slot is not looked at. Otherwise the slot is read as the key's
/// tag says: a text, absent where the slot holds no address, a number, or the
/// bits of a floating-point number. Lists are reported as unsupported.
pub open spec fn decoded(status: i32, key: i32, slot: Slot) -> Result<Option<InfoValue>, InfoError> {
    if status != 0 {
        Ok(None)
    } else {
        match (kind_of(key), slot) {
            (None, _) => Err(InfoError::UnknownKind),
            (Some(InfoKind::List), _) => Err(InfoError::ListUnsupported),
            (Some(InfoKind::Text), Slot::Text(Some(text))) => Ok(Some(InfoValue::Text(text))),
            (Some(InfoKind::Text), Slot::Text(None)) => Ok(None),
            (Some(InfoKind::Long), Slot::Long(n)) => Ok(Some(InfoValue::Long(n))),
            (Some(InfoKind::Double), Slot::Double(bits)) => Ok(Some(InfoValue::Double(bits))),
            _ => Err(InfoError::KindMismatch),
        }
    }
}

/// One session of the engine, by its handle. The handle is zero when no
/// session is held.
#[derive(Debug)]
pub struct Curl {
    handle: usize,
}

impl Curl {
    /// The handle, or zero.
    pub closed spec fn raw(&self) -> usize {
        self.handle
    }

    /// What the end of the session hands to the engine for destruction: the
    /// handle, if a session is held.
    pub open spec fn given(&self) -> Option<usize> {
        if self.raw() != 0 {
            Some(self.raw())
        } else {
            None
        }
    }

    /// Takes charge of the session that the engine created under `handle`.
    pub fn new(handle: usize) -> (r: Curl)
        ensures
            r.raw() == handle,
    {
        Curl { handle: handle }
    }

    /// Whether no session is held.
    pub fn is_null(&self) -> (r: bool)
        ensures
            r == (self.raw() == 0),
    {
        self.handle == 0
    }

    /// The handle, or zero.
    pub fn handle(&self) -> (r: usize)
        ensures
            r == self.raw(),
    {
        self.handle
    }

    /// Explicit release. The session stays as it is, handle and all: it is
    /// given up where its owner ends, by [`Curl::release`], and nowhere
    /// else.
    pub fn cleanup(&self) {
    }

    /// Gives the session up for good, with the handle for the engine to
    /// destroy. The session is taken by value, so that it is given up once.
    pub fn release(self) -> (given: Option<usize>)
        ensures
            given == self.given(),
    {
        if self.handle != 0 {
            Some(self.handle)
        } else {
            None
        }
    }

    /// Escapes `url` for use in a URL.
    pub fn escape(&self, url: &[u8]) -> (r: Vec<u8>)
        ensures
            r@ == escaped(url@),
    {
        escape(url)
    }

    /// Reads escaped text back.
    pub fn unescape(&self, url: &[u8]) -> (r: Vec<u8>)
        ensures
            r@ == unescaped(url@),
    {
        unescape(url)
    }

    /// The parameter to hand the engine for setting `option` to `param`.
    pub fn setopt(&self, option: i32, param: &Value) -> (r: Param)
        ensures
            r@ == marshaled(option, param@),
    {
        marshal(option, param)
    }

    /// Tells what a query for `option` has brought, from the status with
    /// which the engine answered and the slot that it was given to fill.
    pub fn getinfo(&self, option: i32, status: i32, slot: Slot) -> (r: Result<
        Option<InfoValue>,
        InfoError,
    >)
        ensures
            r == decoded(status, option, slot),
    {
        if status != 0 {
            return Ok(None);
        }
        match info_kind(option) {
            None => Err(InfoError::UnknownKind),
            Some(InfoKind::List) => Err(InfoError::ListUnsupported),
            Some(InfoKind::Text) => match slot {
                Slot::Text(Some(text)) => Ok(Some(InfoValue::Text(text))),
                Slot::Text(None) => Ok(None),
                _ => Err(InfoError::KindMismatch),
            },
            Some(InfoKind::Long) => match slot {
                Slot::Long(n) => Ok(Some(InfoValue::Long(n))),
                _ => Err(InfoError::KindMismatch),
            },
            Some(InfoKind::Double) => match slot {
                Slot::Double(bits) => Ok(Some(InfoValue::Double(bits))),
                _ => Err(InfoError::KindMismatch),
            },
        }
    }
}

} // verus!
