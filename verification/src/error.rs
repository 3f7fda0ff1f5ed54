//! The chain protocol: what every chain-capable error offers, the message that
//! is surfaced to users, and the plain error.

use crate::chain::{ChainNode, ExternalCause};
use crate::code::StatusCode;
use crate::text::{decimal, decimal_string, join, join_lines, lemma_texts_push, texts};
use std::sync::Arc;
use vstd::prelude::*;

verus! {

/// What a reference to an optional value refers to.
pub open spec fn referent<T>(r: Option<&T>) -> Option<T> {
    match r {
        Some(t) => Some(*t),
        None => None,
    }
}

/// The trace of a nested cause, where there is one.
pub open spec fn nested_trace(cause: Option<ChainNode>, layer: nat) -> Seq<Seq<char>> {
    match cause {
        Some(node) => node.trace(layer),
        None => Seq::empty(),
    }
}

/// The trace from a chain-capable error on: its own lines at `layer`, then the
/// trace of its nested cause, one layer deeper.
pub open spec fn trace_of<T: StackError>(error: &T, layer: nat) -> Seq<Seq<char>> {
    error.own_lines(layer) + nested_trace(error.nested(), layer + 1)
}

/// The message that is surfaced to users.
///
/// For `Unknown` and `Internal` it is the fixed text with the number of the
/// code, whatever the chain holds. For any other code it is made of
/// `message`, the message of the deepest node, and of the message of the
/// root of `cause`, the underlying cause of that node: both with `": "`
/// between them, the root's message alone where `message` is empty, and
/// `message` alone where there is no underlying cause.
pub open spec fn output_text(code: StatusCode, message: Seq<char>, cause: Option<ExternalCause>) -> Seq<
    char,
> {
    if code == StatusCode::Unknown || code == StatusCode::Internal {
        "Internal error: "@ + decimal(code.value() as nat)
    } else {
        match cause {
            Some(cause) => if message.len() == 0 {
                cause.root().display@
            } else {
                message + ": "@ + cause.root().display@
            },
            None => message,
        }
    }
}

/// Composes the message that is surfaced to users from the status code, the
/// message of the deepest node and the underlying cause of that node.
pub fn surface(code: StatusCode, message: String, cause: Option<&ExternalCause>) -> (text: String)
    ensures
        text@ == output_text(code, message@, referent(cause)),
{
    match code {
        StatusCode::Unknown | StatusCode::Internal => {
            let mut text = String::from_str("Internal error: ");
            let number = decimal_string(code.as_u32() as u64);
            text.append(number.as_str());
            text
        },
        _ => {
            match cause {
                Some(cause) => {
                    let root = cause.root_cause();
                    if message.as_str().is_empty() {
                        assert(message@.len() == 0);
                        root.display.clone()
                    } else {
                        assert(message@.len() != 0);
                        let mut text = message;
                        text.append(": ");
                        text.append(root.display.as_str());
                        text
                    }
                },
                None => message,
            }
        },
    }
}

/// A chain-capable error: it formats its lines into a trace and exposes its
/// nested cause.
pub trait StackError {
    /// The message that this error displays.
    spec fn message(&self) -> Seq<char>;

    /// The lines of this error alone, at `layer`.
    spec fn own_lines(&self, layer: nat) -> Seq<Seq<char>>;

    /// The nested cause of this error.
    spec fn nested(&self) -> Option<ChainNode>;

    /// The underlying cause of this error that is not chain-capable.
    spec fn underlying(&self) -> Option<ExternalCause>;

    /// How many layers beyond its own the trace of this error numbers.
    spec fn layers(&self) -> nat;

    /// The message that this error displays.
    fn to_string(&self) -> (text: String)
        ensures
            text@ == self.message(),
    ;

    /// The underlying cause of this error that is not chain-capable.
    fn source(&self) -> (cause: Option<&ExternalCause>)
        ensures
            referent(cause) == self.underlying(),
    ;

    /// Appends the trace from this error on to `buf`: the lines of this
    /// error at `layer`, then the trace of the nested cause, one layer deeper.
    fn debug_fmt(&self, layer: usize, buf: &mut Vec<String>)
        requires
            layer + self.layers() <= usize::MAX,
        ensures
            texts(final(buf)@) == texts(old(buf)@) + self.own_lines(layer as nat) + nested_trace(
                self.nested(),
                (layer + 1) as nat,
            ),
    ;

    /// The default rendering: the trace from layer 0, its lines joined by line
    /// breaks.
    fn render(&self) -> (text: String) where Self: Sized
        requires
            self.layers() <= usize::MAX,
        ensures
            text@ == join_lines(self.own_lines(0) + nested_trace(self.nested(), 1)),
    {
        let mut buf: Vec<String> = Vec::new();
        self.debug_fmt(0, &mut buf);
        assert(texts(buf@) =~= self.own_lines(0) + nested_trace(self.nested(), 1));
        join(&buf)
    }

    /// The nested cause of this error.
    fn next(&self) -> (cause: Option<&ChainNode>)
        ensures
            referent(cause) == self.nested(),
    ;

    /// The deepest nested cause: the node that is reached from the nested
    /// cause by following nested causes until there is none. `None` where this
    /// error has no nested cause, and so is itself the deepest.
    fn last(&self) -> (node: Option<&ChainNode>) where Self: Sized
        ensures
            node is Some == self.nested() is Some,
            node matches Some(last) ==> *last == self.nested().unwrap().deepest(),
            node matches Some(last) ==> last.source is None,
    {
        match self.next() {
            Some(cause) => Some(cause.deepest_node()),
            None => None,
        }
    }
}

/// The message of the deepest node of the chain that starts at `error`.
pub open spec fn deepest_message<T: StackError>(error: &T) -> Seq<char> {
    match error.nested() {
        Some(cause) => cause.deepest().message@,
        None => error.message(),
    }
}

/// The underlying cause of the deepest node of the chain that starts at
/// `error`.
pub open spec fn deepest_underlying<T: StackError>(error: &T) -> Option<ExternalCause> {
    match error.nested() {
        Some(cause) => cause.deepest().error,
        None => error.underlying(),
    }
}

/// A chain-capable error with a status code.
pub trait ErrorExt: StackError {
    /// The status code of this error: `Unknown` unless the type says
    /// otherwise.
    open spec fn status(&self) -> StatusCode {
        StatusCode::Unknown
    }

    /// The status code of this error.
    fn status_code(&self) -> (code: StatusCode)
        ensures
            code == self.status(),
    ;

    /// The message for users: short, on one line, and without detail for
    /// `Unknown` and `Internal`.
    fn output_msg(&self) -> (text: String) where Self: Sized
        ensures
            text@ == output_text(self.status(), deepest_message(self), deepest_underlying(self)),
            self.status() == StatusCode::Unknown || self.status() == StatusCode::Internal
                ==> text@ == "Internal error: "@ + decimal(self.status().value() as nat),
    {
        let code = self.status_code();
        match code {
            StatusCode::Unknown | StatusCode::Internal => surface(code, String::new(), None),
            _ => {
                match self.last() {
                    Some(node) => surface(code, node.to_string(), node.source()),
                    None => surface(code, self.to_string(), self.source()),
                }
            },
        }
    }
}

impl StackError for ChainNode {
    open spec fn message(&self) -> Seq<char> {
        self.message@
    }

    open spec fn own_lines(&self, layer: nat) -> Seq<Seq<char>> {
        ChainNode::own_lines(*self, layer)
    }

    open spec fn nested(&self) -> Option<ChainNode> {
        match self.source {
            Some(cause) => Some(*cause),
            None => None,
        }
    }

    open spec fn underlying(&self) -> Option<ExternalCause> {
        self.error
    }

    open spec fn layers(&self) -> nat {
        ChainNode::layers(*self)
    }

    fn to_string(&self) -> (text: String) {
        let text = self.message.clone();
        assert(self.message() == self.message@);
        text
    }

    fn source(&self) -> (cause: Option<&ExternalCause>) {
        let cause = self.error.as_ref();
        assert(self.underlying() == self.error);
        cause
    }

    fn debug_fmt(&self, layer: usize, buf: &mut Vec<String>) {
        self.format_trace(layer, buf);
    }

    fn next(&self) -> (cause: Option<&ChainNode>) {
        self.chain_next()
    }
}

impl ErrorExt for ChainNode {
    open spec fn status(&self) -> StatusCode {
        self.status_code
    }

    fn status_code(&self) -> (code: StatusCode) {
        self.status_code
    }
}

impl<T: StackError> StackError for Box<T> {
    open spec fn message(&self) -> Seq<char> {
        (**self).message()
    }

    open spec fn own_lines(&self, layer: nat) -> Seq<Seq<char>> {
        (**self).own_lines(layer)
    }

    open spec fn nested(&self) -> Option<ChainNode> {
        (**self).nested()
    }

    open spec fn underlying(&self) -> Option<ExternalCause> {
        (**self).underlying()
    }

    open spec fn layers(&self) -> nat {
        (**self).layers()
    }

    fn to_string(&self) -> (text: String) {
        (**self).to_string()
    }

    fn source(&self) -> (cause: Option<&ExternalCause>) {
        (**self).source()
    }

    fn debug_fmt(&self, layer: usize, buf: &mut Vec<String>) {
        (**self).debug_fmt(layer, buf)
    }

    fn next(&self) -> (cause: Option<&ChainNode>) {
        (**self).next()
    }
}

impl<T: StackError> StackError for Arc<T> {
    open spec fn message(&self) -> Seq<char> {
        (**self).message()
    }

    open spec fn own_lines(&self, layer: nat) -> Seq<Seq<char>> {
        (**self).own_lines(layer)
    }

    open spec fn nested(&self) -> Option<ChainNode> {
        (**self).nested()
    }

    open spec fn underlying(&self) -> Option<ExternalCause> {
        (**self).underlying()
    }

    open spec fn layers(&self) -> nat {
        (**self).layers()
    }

    fn to_string(&self) -> (text: String) {
        (**self).to_string()
    }

    fn source(&self) -> (cause: Option<&ExternalCause>) {
        (**self).source()
    }

    fn debug_fmt(&self, layer: usize, buf: &mut Vec<String>) {
        (**self).debug_fmt(layer, buf)
    }

    fn next(&self) -> (cause: Option<&ChainNode>) {
        (**self).next()
    }
}

/// The minimal chain-capable error: a message and a status code, no cause.
#[derive(Debug)]
pub struct PlainError {
    msg: String,
    status_code: StatusCode,
}

/// The message and the status code of a plain error.
pub struct PlainErrorView {
    pub msg: Seq<char>,
    pub status_code: StatusCode,
}

impl View for PlainError {
    type V = PlainErrorView;

    closed spec fn view(&self) -> PlainErrorView {
        PlainErrorView { msg: self.msg@, status_code: self.status_code }
    }
}

impl PlainError {
    /// An error with the message `msg` and the code `status_code`.
    pub fn new(msg: String, status_code: StatusCode) -> (error: PlainError)
        ensures
            error@ == (PlainErrorView { msg: msg@, status_code }),
    {
        PlainError { msg, status_code }
    }
}

impl StackError for PlainError {
    open spec fn message(&self) -> Seq<char> {
        self@.msg
    }

    open spec fn own_lines(&self, layer: nat) -> Seq<Seq<char>> {
        seq![decimal(layer) + ": "@ + self@.msg]
    }

    open spec fn nested(&self) -> Option<ChainNode> {
        None
    }

    open spec fn underlying(&self) -> Option<ExternalCause> {
        None
    }

    open spec fn layers(&self) -> nat {
        0
    }

    fn to_string(&self) -> (text: String) {
        self.msg.clone()
    }

    fn source(&self) -> (cause: Option<&ExternalCause>) {
        None
    }

    fn debug_fmt(&self, layer: usize, buf: &mut Vec<String>) {
        let mut line = decimal_string(layer as u64);
        line.append(": ");
        line.append(self.msg.as_str());
        let ghost before = buf@;
        buf.push(line);
        proof {
            lemma_texts_push(before, line);
            assert(texts(buf@) =~= texts(before) + self.own_lines(layer as nat) + nested_trace(
                self.nested(),
                (layer + 1) as nat,
            ));
        }
    }

    fn next(&self) -> (cause: Option<&ChainNode>) {
        None
    }
}

impl ErrorExt for PlainError {
    open spec fn status(&self) -> StatusCode {
        self@.status_code
    }

    fn status_code(&self) -> (code: StatusCode) {
        self.status_code
    }
}

/// The trace from a chain node on, as the protocol composes it, is the
/// trace of the node.
pub proof fn lemma_trace_of_node(node: ChainNode, layer: nat)
    ensures
        trace_of(&node, layer) == node.trace(layer),
{
    assert(trace_of(&node, layer) =~= node.trace(layer));
}

/// An owning wrapper and a shared wrapper around a chain-capable error are
/// chain-capable errors that say of themselves what the wrapped error says of
/// itself: the same message, lines, nested cause, underlying cause and layers.
pub proof fn lemma_wrappers_forward<T: StackError>(error: T, layer: nat)
    ensures
        Box::new(error).message() == error.message(),
        Box::new(error).own_lines(layer) == error.own_lines(layer),
        Box::new(error).nested() == error.nested(),
        Box::new(error).underlying() == error.underlying(),
        Box::new(error).layers() == error.layers(),
        Arc::new(error).message() == error.message(),
        Arc::new(error).own_lines(layer) == error.own_lines(layer),
        Arc::new(error).nested() == error.nested(),
        Arc::new(error).underlying() == error.underlying(),
        Arc::new(error).layers() == error.layers(),
{
}

/// For `Unknown` and `Internal` the message for users is the fixed text with
/// the number of the code, whatever the message and the cause are.
pub proof fn lemma_internal_output(
    code: StatusCode,
    message: Seq<char>,
    cause: Option<ExternalCause>,
    other_message: Seq<char>,
    other_cause: Option<ExternalCause>,
)
    requires
        code == StatusCode::Unknown || code == StatusCode::Internal,
    ensures
        output_text(code, message, cause) == output_text(code, other_message, other_cause),
        output_text(code, message, cause) == "Internal error: "@ + decimal(code.value() as nat),
{
}

} // verus!
