//! Source spans: a half-open byte range together with the provenance it was
//! created with.

use vstd::prelude::*;

verus! {

/// The contents of a [`Span`] as plain values.
///
/// `lo` and `hi` are absolute byte offsets. `ctxt` and `parent` are the
/// provenance of the span: tokens for the syntax context it was created in
/// and for the definition it is relative to. They are never interpreted here,
/// only carried along.
pub struct SpanData {
    pub lo: u32,
    pub hi: u32,
    pub ctxt: u32,
    pub parent: Option<u32>,
}

impl SpanData {
    /// The endpoints are in order.
    pub open spec fn wf(self) -> bool {
        self.lo <= self.hi
    }

    /// The span between two offsets given in either order.
    pub open spec fn spanning(a: u32, b: u32, ctxt: u32, parent: Option<u32>) -> SpanData {
        if a <= b {
            SpanData { lo: a, hi: b, ctxt, parent }
        } else {
            SpanData { lo: b, hi: a, ctxt, parent }
        }
    }

    /// The span covers no text.
    pub open spec fn is_empty(self) -> bool {
        self.lo == self.hi
    }

    /// The span between `lo` and the end of this one.
    pub open spec fn with_lo(self, lo: u32) -> SpanData {
        SpanData::spanning(lo, self.hi, self.ctxt, self.parent)
    }

    /// The empty span at the start of this one.
    pub open spec fn shrink_to_lo(self) -> SpanData {
        SpanData { lo: self.lo, hi: self.lo, ctxt: self.ctxt, parent: self.parent }
    }

    /// The empty span at the end of this one.
    pub open spec fn shrink_to_hi(self) -> SpanData {
        SpanData { lo: self.hi, hi: self.hi, ctxt: self.ctxt, parent: self.parent }
    }
}

/// A region of source text with its provenance.
///
/// The endpoints of a span are always in order: every constructor sorts them.
#[derive(Clone, Copy, Debug, PartialEq, Eq)]
pub struct Span {
    lo: u32,
    hi: u32,
    ctxt: u32,
    parent: Option<u32>,
}

impl View for Span {
    type V = SpanData;

    closed spec fn view(&self) -> SpanData {
        SpanData { lo: self.lo, hi: self.hi, ctxt: self.ctxt, parent: self.parent }
    }
}

impl Span {
    #[verifier::type_invariant]
    closed spec fn ordered(self) -> bool {
        self.lo <= self.hi
    }

    /// Builds the span between `lo` and `hi`, swapping them when they are
    /// given in the wrong order.
    pub fn new(lo: u32, hi: u32, ctxt: u32, parent: Option<u32>) -> (span: Span)
        ensures
            span@ == SpanData::spanning(lo, hi, ctxt, parent),
            span@.wf(),
    {
        if lo <= hi {
            Span { lo, hi, ctxt, parent }
        } else {
            Span { lo: hi, hi: lo, ctxt, parent }
        }
    }

    /// The offset at which the span starts.
    pub fn lo(&self) -> (lo: u32)
        ensures
            lo == self@.lo,
            self@.wf(),
    {
        proof {
            use_type_invariant(self);
        }
        self.lo
    }

    /// The offset at which the span ends.
    pub fn hi(&self) -> (hi: u32)
        ensures
            hi == self@.hi,
            self@.wf(),
    {
        proof {
            use_type_invariant(self);
        }
        self.hi
    }

    /// The syntax context that the span was created in.
    pub fn ctxt(&self) -> (ctxt: u32)
        ensures
            ctxt == self@.ctxt,
    {
        self.ctxt
    }

    /// The definition that the span is relative to, if any.
    pub fn parent(&self) -> (parent: Option<u32>)
        ensures
            parent == self@.parent,
    {
        self.parent
    }

    /// Whether the span covers no text.
    pub fn is_empty(&self) -> (empty: bool)
        ensures
            empty == self@.is_empty(),
            self@.wf(),
    {
        proof {
            use_type_invariant(self);
        }
        self.lo == self.hi
    }

    /// The span between `lo` and the end of this one.
    pub fn with_lo(&self, lo: u32) -> (span: Span)
        ensures
            span@ == self@.with_lo(lo),
            span@.wf(),
    {
        Span::new(lo, self.hi, self.ctxt, self.parent)
    }

    /// The empty span at the start of this one.
    pub fn shrink_to_lo(&self) -> (span: Span)
        ensures
            span@ == self@.shrink_to_lo(),
            span@.wf(),
    {
        Span::new(self.lo, self.lo, self.ctxt, self.parent)
    }
}

} // verus!
