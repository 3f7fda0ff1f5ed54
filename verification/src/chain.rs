//! Chain nodes: error values of classified variants, the trace they format and
//! the walk along their nested causes.

use crate::code::StatusCode;
use crate::shape::{classify, shape_of, Shape, Tail};
use crate::text::{decimal, decimal_string, lemma_texts_push, texts};
use vstd::prelude::*;

verus! {

/// A cause that is not chain-capable: it is shown, but not traversed.
///
/// It has a default textual representation, a message, and possibly an
/// underlying cause of its own.
#[derive(Debug)]
pub struct ExternalCause {
    pub debug: String,
    pub display: String,
    pub source: Option<Box<ExternalCause>>,
}

impl ExternalCause {
    /// The cause at the end of the chain of underlying causes: this cause
    /// itself where it has none.
    pub open spec fn root(self) -> ExternalCause
        decreases self,
    {
        match self.source {
            Some(cause) => cause.root(),
            None => self,
        }
    }

    /// The number of causes that lie under this one.
    pub open spec fn depth(self) -> nat
        decreases self,
    {
        match self.source {
            Some(cause) => 1 + cause.depth(),
            None => 0,
        }
    }

    /// A cause without an underlying cause.
    pub fn new(debug: String, display: String) -> (cause: ExternalCause)
        ensures
            cause.debug == debug,
            cause.display == display,
            cause.source is None,
    {
        ExternalCause { debug, display, source: None }
    }

    /// A cause whose underlying cause is `source`.
    pub fn with_source(debug: String, display: String, source: ExternalCause) -> (cause:
        ExternalCause)
        ensures
            cause.debug == debug,
            cause.display == display,
            cause.source == Some(Box::new(source)),
            cause.root() == source.root(),
    {
        ExternalCause { debug, display, source: Some(Box::new(source)) }
    }

    /// Walks the underlying causes to the last one.
    pub fn root_cause(&self) -> (root: &ExternalCause)
        ensures
            *root == self.root(),
    {
        let mut current = self;
        while current.source.is_some()
            invariant
                current.root() == self.root(),
            decreases current.depth(),
        {
            let under = current.source.as_ref().unwrap();
            current = &**under;
        }
        current
    }
}

/// An error value of a classified variant: the message that its display
/// template renders, its call site, its nested cause and its external cause,
/// each where the variant has the field, and its status code.
#[derive(Debug)]
pub struct ChainNode {
    pub message: String,
    pub location: Option<String>,
    pub source: Option<Box<ChainNode>>,
    pub error: Option<ExternalCause>,
    pub status_code: StatusCode,
}

impl ChainNode {
    /// The shape of the variant that this value belongs to.
    pub open spec fn shape(self) -> Shape {
        shape_of(self.location is Some, self.source is Some, self.error is Some)
    }

    /// The number of nested causes under this value.
    pub open spec fn depth(self) -> nat
        decreases self,
    {
        match self.source {
            Some(cause) => 1 + cause.depth(),
            None => 0,
        }
    }

    /// How many layers beyond its own the trace of this value numbers.
    pub open spec fn layers(self) -> nat
        decreases self,
    {
        match self.source {
            Some(cause) => 1 + cause.layers(),
            None => if self.error is Some {
                1
            } else {
                0
            },
        }
    }

    /// The main line: the layer, the message and, where there is one, the
    /// call site.
    pub open spec fn main_line(self, layer: nat) -> Seq<char> {
        decimal(layer) + ": "@ + self.message@ + match self.location {
            Some(location) => ", at "@ + location@,
            None => Seq::empty(),
        }
    }

    /// The line that shows the external cause, numbered one layer deeper.
    pub open spec fn external_line(self, layer: nat) -> Seq<char> {
        decimal(layer + 1) + ": "@ + self.error.unwrap().debug@
    }

    /// The lines of this value alone: the main line, and the line of the
    /// external cause where the shape shows it.
    pub open spec fn own_lines(self, layer: nat) -> Seq<Seq<char>> {
        if self.shape().shows_external() {
            seq![self.main_line(layer), self.external_line(layer)]
        } else {
            seq![self.main_line(layer)]
        }
    }

    /// The trace from this value on: its own lines, then the trace of its
    /// nested cause, one layer deeper.
    pub open spec fn trace(self, layer: nat) -> Seq<Seq<char>>
        decreases self,
    {
        match self.source {
            Some(cause) => self.own_lines(layer) + cause.trace(layer + 1),
            None => self.own_lines(layer),
        }
    }

    /// The node at the end of the chain of nested causes: this node itself
    /// where it has none.
    pub open spec fn deepest(self) -> ChainNode
        decreases self,
    {
        match self.source {
            Some(cause) => cause.deepest(),
            None => self,
        }
    }

    /// A value without causes.
    pub fn leaf(message: String, location: Option<String>, status_code: StatusCode) -> (node:
        ChainNode)
        ensures
            node.message == message,
            node.location == location,
            node.source is None,
            node.error is None,
            node.status_code == status_code,
    {
        ChainNode { message, location, source: None, error: None, status_code }
    }

    /// A value whose nested cause is `source`.
    pub fn with_source(
        message: String,
        location: Option<String>,
        source: ChainNode,
        status_code: StatusCode,
    ) -> (node: ChainNode)
        ensures
            node.message == message,
            node.location == location,
            node.source == Some(Box::new(source)),
            node.error is None,
            node.status_code == status_code,
    {
        ChainNode { message, location, source: Some(Box::new(source)), error: None, status_code }
    }

    /// A value whose external cause is `error`.
    pub fn with_external_cause(
        message: String,
        location: Option<String>,
        error: ExternalCause,
        status_code: StatusCode,
    ) -> (node: ChainNode)
        ensures
            node.message == message,
            node.location == location,
            node.source is None,
            node.error == Some(error),
            node.status_code == status_code,
    {
        ChainNode { message, location, source: None, error: Some(error), status_code }
    }

    /// Classifies this value by the fields it has.
    pub fn classify(&self) -> (shape: Shape)
        ensures
            shape == self.shape(),
    {
        classify(self.location.is_some(), self.source.is_some(), self.error.is_some())
    }

    /// Appends the lines of this value alone to `buf`: the main line, and
    /// after it the line of the external cause where the shape shows it.
    pub fn format_line(&self, layer: usize, buf: &mut Vec<String>)
        requires
            self.shape().shows_external() ==> layer < usize::MAX,
        ensures
            texts(final(buf)@) == texts(old(buf)@) + self.own_lines(layer as nat),
    {
        let shape = self.classify();
        let mut line = decimal_string(layer as u64);
        line.append(": ");
        line.append(self.message.as_str());
        if shape.is_located() {
            if let Some(location) = &self.location {
                line.append(", at ");
                line.append(location.as_str());
            }
        }
        assert(line@ =~= self.main_line(layer as nat));
        let ghost before = buf@;
        buf.push(line);
        proof {
            lemma_texts_push(before, line);
        }
        if shape.format_tail() == Tail::ExternalLine {
            if let Some(error) = &self.error {
                let mut extra = decimal_string((layer + 1) as u64);
                extra.append(": ");
                extra.append(error.debug.as_str());
                assert(extra@ =~= self.external_line(layer as nat));
                let ghost middle = buf@;
                buf.push(extra);
                proof {
                    lemma_texts_push(middle, extra);
                }
            }
        }
        assert(texts(buf@) =~= texts(before) + self.own_lines(layer as nat));
    }

    /// The nested cause, where the shape links one.
    pub fn chain_next(&self) -> (next: Option<&ChainNode>)
        ensures
            next is Some == self.shape().links_source(),
            next matches Some(cause) ==> self.source == Some(Box::new(*cause)),
    {
        if self.classify().has_chain_cause() {
            match &self.source {
                Some(cause) => Some(&**cause),
                None => None,
            }
        } else {
            None
        }
    }

    /// Appends the trace from this value on to `buf`: its own lines, then the
    /// trace of its nested cause, one layer deeper.
    pub fn format_trace(&self, layer: usize, buf: &mut Vec<String>)
        requires
            layer + self.layers() <= usize::MAX,
        ensures
            texts(final(buf)@) == texts(old(buf)@) + self.trace(layer as nat),
        decreases self,
    {
        let ghost before = buf@;
        self.format_line(layer, buf);
        match self.chain_next() {
            Some(cause) => {
                cause.format_trace(layer + 1, buf);
                assert(texts(buf@) =~= texts(before) + self.trace(layer as nat));
            },
            None => {},
        }
    }

    /// Walks the nested causes to the last one.
    pub fn deepest_node(&self) -> (node: &ChainNode)
        ensures
            *node == self.deepest(),
            node.source is None,
    {
        let mut current = self;
        while current.source.is_some()
            invariant
                current.deepest() == self.deepest(),
            decreases current.depth(),
        {
            let cause = current.source.as_ref().unwrap();
            current = &**cause;
        }
        current
    }
}

/// A value without a cause adds exactly one line to a trace; a value with an
/// external cause and no nested cause adds exactly two, its own and that of
/// the external cause; a value with a nested cause adds one line and then the
/// trace of the nested cause, one layer deeper.
pub proof fn lemma_trace_len(node: ChainNode, layer: nat)
    ensures
        node.shape() == Shape::LocatedLeaf || node.shape() == Shape::UnlocatedLeaf
            ==> node.trace(layer).len() == 1,
        node.shape() == Shape::LocatedWithExternalCause || node.shape()
            == Shape::UnlocatedWithExternalCause ==> node.trace(layer).len() == 2,
        node.shape() == Shape::LocatedWithChainCause || node.shape()
            == Shape::UnlocatedWithChainCause ==> node.source is Some && node.trace(layer).len() == 1
            + node.source.unwrap().trace(layer + 1).len(),
{
}

/// The first line of a trace is the main line of the value, and a trace has
/// one line for the value and each of its nested causes, and one more where
/// the deepest of them has an external cause.
pub proof fn lemma_trace_shape(node: ChainNode, layer: nat)
    ensures
        node.trace(layer).len() == node.depth() + 1 + (if node.deepest().error is Some {
            1nat
        } else {
            0nat
        }),
        node.trace(layer)[0] == node.main_line(layer),
    decreases node,
{
    match node.source {
        Some(cause) => {
            lemma_trace_shape(*cause, layer + 1);
        },
        None => {},
    }
}

} // verus!
