//! The ambient trace context of one logical task.
//!
//! A task carries its scope explicitly. A context is made ambient for the
//! time of a body and the scope is as it was afterwards, whatever the body
//! did; an open span is ambient until it is released.

use vstd::prelude::*;
use crate::context::{ContextModel, TraceContext};
use crate::event::{
    attributes_view, context_view, names_view, snapshot_view, Attribute, ErrorContextSnapshot,
    LogRecord, RecordModel, Span, SpanModel, Status,
};
use crate::ids::{random_span_id, random_trace_id};
use crate::level::Level;

verus! {

/// One entry of a scope, as a plain value for specifications: a context
/// and, where an open span made it ambient, the name of that span.
pub struct FrameModel {
    pub context: ContextModel,
    pub span_name: Option<Seq<char>>,
}

struct Frame {
    context: TraceContext,
    span_name: Option<String>,
}

impl View for Frame {
    type V = FrameModel;

    closed spec fn view(&self) -> FrameModel {
        FrameModel {
            context: self.context@,
            span_name: match self.span_name {
                Some(n) => Some(n@),
                None => None,
            },
        }
    }
}

/// The ambient context: that of the innermost entry, if there is one.
pub open spec fn current_of(frames: Seq<FrameModel>) -> Option<ContextModel> {
    if frames.len() == 0 {
        None
    } else {
        Some(frames.last().context)
    }
}

/// The names of the open spans of a scope, oldest ancestor first.
pub open spec fn open_names(frames: Seq<FrameModel>) -> Seq<Seq<char>>
    decreases frames.len(),
{
    if frames.len() == 0 {
        Seq::empty()
    } else {
        match frames.last().span_name {
            Some(n) => open_names(frames.drop_last()).push(n),
            None => open_names(frames.drop_last()),
        }
    }
}

/// What is captured when an error is recorded: the ambient trace and the
/// names of the open spans; nothing without an ambient context.
pub open spec fn snapshot_of(frames: Seq<FrameModel>) -> Option<(u128, Seq<Seq<char>>)> {
    match current_of(frames) {
        Some(c) => Some((c.trace_id, open_names(frames))),
        None => None,
    }
}

/// The place of the innermost entry that holds `context`, if any.
pub open spec fn position_of(frames: Seq<FrameModel>, context: ContextModel) -> Option<int>
    decreases frames.len(),
{
    if frames.len() == 0 {
        None
    } else if frames.last().context == context {
        Some(frames.len() - 1)
    } else {
        position_of(frames.drop_last(), context)
    }
}

/// The scope after `context` has been released: its innermost entry is
/// gone, and with it whatever was entered inside it. A context that is
/// not in the scope leaves the scope as it is.
pub open spec fn released(frames: Seq<FrameModel>, context: ContextModel) -> Seq<FrameModel> {
    match position_of(frames, context) {
        Some(i) => frames.take(i),
        None => frames,
    }
}

/// The context of a span that is opened in a scope: a child of the ambient
/// context, or else the root of a new, sampled trace with the fresh
/// identifiers. No span can be opened with a fresh span identifier of
/// zero, nor for a new trace whose fresh identifier is zero: zero names
/// no span and no trace.
pub open spec fn opening_context(frames: Seq<FrameModel>, fresh_trace: u128, fresh_span: u64)
    -> Option<ContextModel> {
    if fresh_span == 0 {
        None
    } else {
        match current_of(frames) {
            Some(parent) => Some(parent.child(fresh_span)),
            None => if fresh_trace == 0 {
                None
            } else {
                Some(
                    ContextModel {
                        trace_id: fresh_trace,
                        span_id: fresh_span,
                        parent_span_id: None,
                        sampled: true,
                    },
                )
            },
        }
    }
}

/// How opening a span with the given fresh identifiers changes a scope
/// from `before` to `after`, and what it returns.
pub open spec fn opens(
    before: Seq<FrameModel>,
    after: Seq<FrameModel>,
    name: Seq<char>,
    target: Seq<char>,
    level: Level,
    now: u64,
    fresh_trace: u128,
    fresh_span: u64,
    r: Option<Span>,
) -> bool {
    match opening_context(before, fresh_trace, fresh_span) {
        Some(context) => r is Some && r->0@ == (SpanModel {
            name,
            target,
            level,
            start: now,
            end: None,
            context,
            status: Status::Unset,
            attributes: Seq::empty(),
            events: Seq::empty(),
        }) && after == before.push(FrameModel { context, span_name: Some(name) }),
        None => r is None && after == before,
    }
}

/// The ambient state of one logical task.
pub struct TaskScope {
    frames: Vec<Frame>,
}

impl View for TaskScope {
    type V = Seq<FrameModel>;

    closed spec fn view(&self) -> Seq<FrameModel> {
        Seq::new(self.frames@.len(), |i: int| self.frames@[i]@)
    }
}

impl TaskScope {
    /// A scope without an ambient context.
    pub fn new() -> (r: TaskScope)
        ensures
            r@ == Seq::<FrameModel>::empty(),
    {
        let r = TaskScope { frames: Vec::new() };
        assert(r@ =~= Seq::<FrameModel>::empty());
        r
    }

    /// The ambient context of the task, if any.
    pub fn current(&self) -> (r: Option<TraceContext>)
        ensures
            context_view(r) == current_of(self@),
    {
        let n = self.frames.len();
        if n == 0 {
            None
        } else {
            Some(self.frames[n - 1].context)
        }
    }

    /// How many entries the scope holds.
    pub fn depth(&self) -> (r: usize)
        ensures
            r == self@.len(),
    {
        self.frames.len()
    }

    /// Runs `body` with `context` as the ambient context. Afterwards the
    /// scope is as it was before the call.
    pub fn with<R, F: FnOnce(&TaskScope) -> R>(&mut self, context: TraceContext, body: F) -> (r: R)
        requires
            forall|inner: TaskScope|
                inner@ == old(self)@.push(FrameModel { context: context@, span_name: None })
                    ==> call_requires(body, (&inner,)),
        ensures
            final(self)@ == old(self)@,
            exists|inner: TaskScope|
                inner@ == old(self)@.push(FrameModel { context: context@, span_name: None })
                    && call_ensures(body, (&inner,), r),
    {
        self.frames.push(Frame { context, span_name: None });
        assert(self@ =~= old(self)@.push(FrameModel { context: context@, span_name: None }));
        let r = body(&*self);
        self.frames.pop();
        assert(self@ =~= old(self)@);
        r
    }

    /// Makes `context` the ambient context until it is released.
    pub fn enter(&mut self, context: TraceContext)
        ensures
            final(self)@ == old(self)@.push(FrameModel { context: context@, span_name: None }),
            current_of(final(self)@) == Some(context@),
    {
        self.frames.push(Frame { context, span_name: None });
        assert(self@ =~= old(self)@.push(FrameModel { context: context@, span_name: None }));
    }

    /// Ends the time for which `context` was ambient: its innermost entry
    /// leaves the scope, together with whatever was entered inside it.
    pub fn release(&mut self, context: &TraceContext)
        ensures
            final(self)@ == released(old(self)@, context@),
    {
        let mut i: usize = self.frames.len();
        assert(self@.take(i as int) =~= self@);
        while i > 0
            invariant
                i <= self.frames.len(),
                self@ == old(self)@,
                position_of(self@, context@) == position_of(self@.take(i as int), context@),
            decreases i,
        {
            proof {
                assert(self@.take(i as int).drop_last() =~= self@.take(i - 1));
            }
            i -= 1;
            if self.frames[i].context.same(context) {
                self.frames.truncate(i);
                assert(self@ =~= old(self)@.take(i as int));
                return ;
            }
        }
    }

    /// Opens a span in this scope with the given fresh identifiers, and
    /// makes it ambient. The span is a child of the ambient context; where
    /// there is none it starts a new trace. The fresh span identifier must
    /// not be zero, nor the fresh trace identifier of a new trace: else no
    /// span is opened and the scope stays as it is.
    pub fn open_span(
        &mut self,
        name: String,
        target: String,
        level: Level,
        now: u64,
        fresh_trace: u128,
        fresh_span: u64,
    ) -> (r: Option<Span>)
        ensures
            opens(old(self)@, final(self)@, name@, target@, level, now, fresh_trace, fresh_span, r),
    {
        let made = match self.current() {
            Some(parent) => parent.child(fresh_span),
            None => TraceContext::new(fresh_trace, fresh_span, None, true),
        };
        let context = match made {
            Some(c) => c,
            None => { return None; },
        };
        self.frames.push(Frame { context, span_name: Some(name.clone()) });
        assert(self@ =~= old(self)@.push(
            FrameModel { context: context@, span_name: Some(name@) },
        ));
        Some(Span::new(name, target, level, context, now))
    }

    /// Opens a span in this scope with identifiers drawn at random. What
    /// comes back is what [`TaskScope::open_span`] gives for the identifiers
    /// that were drawn: no span where a zero was drawn for an identifier
    /// that is needed.
    pub fn start_span(&mut self, name: String, target: String, level: Level, now: u64) -> (r:
        Option<Span>)
        ensures
            exists|fresh_trace: u128, fresh_span: u64|
                opens(
                    old(self)@,
                    final(self)@,
                    name@,
                    target@,
                    level,
                    now,
                    fresh_trace,
                    fresh_span,
                    r,
                ),
    {
        let fresh_trace = random_trace_id();
        let fresh_span = random_span_id();
        self.open_span(name, target, level, now, fresh_trace, fresh_span)
    }

    /// Makes a log record that carries the ambient context of the task.
    pub fn record(&self, level: Level, target: String, message: String, fields: Vec<Attribute>)
        -> (r: LogRecord)
        ensures
            r@ == (RecordModel {
                level,
                target: target@,
                message: message@,
                fields: attributes_view(fields@),
                context: current_of(self@),
                error_context: None,
            }),
    {
        LogRecord::new(level, target, message, fields, self.current())
    }

    /// Captures the ambient trace and the names of the open spans, oldest
    /// ancestor first. This only reads the scope.
    pub fn snapshot(&self) -> (r: Option<ErrorContextSnapshot>)
        ensures
            snapshot_view(r) == snapshot_of(self@),
    {
        let trace_id = match self.current() {
            Some(c) => c.trace_id(),
            None => { return None; },
        };
        let mut names: Vec<String> = Vec::new();
        let mut i: usize = 0;
        assert(names_view(names@) =~= open_names(self@.take(0)));
        while i < self.frames.len()
            invariant
                i <= self.frames.len(),
                names_view(names@) == open_names(self@.take(i as int)),
            decreases self.frames.len() - i,
        {
            proof {
                assert(self@.take(i + 1).drop_last() =~= self@.take(i as int));
                assert(self@.take(i + 1).last() == self.frames@[i as int]@);
            }
            match &self.frames[i].span_name {
                Some(n) => {
                    names.push(n.clone());
                    assert(names_view(names@) =~= open_names(self@.take(i as int)).push(n@));
                },
                None => {},
            }
            i += 1;
        }
        assert(self@.take(i as int) =~= self@);
        Some(ErrorContextSnapshot { trace_id, span_names: names })
    }
}

} // verus!
