//! The data that every layer of the pipeline sees: spans, log records and
//! the snapshot of the open spans that an error is annotated with.

use vstd::prelude::*;
use crate::context::{ContextModel, TraceContext};
use crate::level::Level;

verus! {

/// The outcome that a span reports.
#[derive(Clone, Copy, Debug, PartialEq, Eq, Structural)]
pub enum Status {
    Unset,
    Okay,
    Error,
}

/// The value of an attribute: a scalar or a text.
#[derive(Clone, Debug, PartialEq, Eq)]
pub enum AttrValue {
    Bool(bool),
    Int(i64),
    Text(String),
}

/// What an [`AttrValue`] holds, as a plain value for specifications.
pub enum AttrModel {
    Bool(bool),
    Int(i64),
    Text(Seq<char>),
}

impl View for AttrValue {
    type V = AttrModel;

    open spec fn view(&self) -> AttrModel {
        match self {
            AttrValue::Bool(b) => AttrModel::Bool(*b),
            AttrValue::Int(i) => AttrModel::Int(*i),
            AttrValue::Text(t) => AttrModel::Text(t@),
        }
    }
}

impl AttrValue {
    /// A copy with the same content.
    pub fn duplicate(&self) -> (r: AttrValue)
        ensures
            r@ == self@,
    {
        match self {
            AttrValue::Bool(b) => AttrValue::Bool(*b),
            AttrValue::Int(i) => AttrValue::Int(*i),
            AttrValue::Text(t) => AttrValue::Text(t.clone()),
        }
    }
}

/// A key with its value.
#[derive(Clone, Debug, PartialEq, Eq)]
pub struct Attribute {
    pub key: String,
    pub value: AttrValue,
}

impl View for Attribute {
    type V = (Seq<char>, AttrModel);

    open spec fn view(&self) -> (Seq<char>, AttrModel) {
        (self.key@, self.value@)
    }
}

/// The content of a list of attributes, entry by entry.
pub open spec fn attributes_view(attrs: Seq<Attribute>) -> Seq<(Seq<char>, AttrModel)> {
    Seq::new(attrs.len(), |i: int| attrs[i]@)
}

/// The value that a list of attributes gives to `key`: that of the last
/// entry with this key, since a later entry replaces an earlier one.
pub open spec fn lookup(attrs: Seq<(Seq<char>, AttrModel)>, key: Seq<char>) -> Option<AttrModel>
    decreases attrs.len(),
{
    if attrs.len() == 0 {
        None
    } else if attrs.last().0 == key {
        Some(attrs.last().1)
    } else {
        lookup(attrs.drop_last(), key)
    }
}

/// Finds the value of `key` in a list of attributes.
pub fn find_attribute(attrs: &Vec<Attribute>, key: &str) -> (r: Option<AttrValue>)
    ensures
        match r {
            Some(v) => lookup(attributes_view(attrs@), key@) == Some(v@),
            None => lookup(attributes_view(attrs@), key@) is None,
        },
{
    let wanted = String::from_str(key);
    let mut i: usize = attrs.len();
    assert(attributes_view(attrs@).take(i as int) =~= attributes_view(attrs@));
    while i > 0
        invariant
            i <= attrs.len(),
            wanted@ == key@,
            lookup(attributes_view(attrs@), key@) == lookup(
                attributes_view(attrs@).take(i as int),
                key@,
            ),
        decreases i,
    {
        proof {
            assert(attributes_view(attrs@).take(i as int).drop_last() =~= attributes_view(
                attrs@,
            ).take(i - 1));
        }
        i -= 1;
        if attrs[i].key == wanted {
            return Some(attrs[i].value.duplicate());
        }
    }
    None
}

/// Something that happened while a span was open, such as a captured
/// error report.
#[derive(Clone, Debug, PartialEq, Eq)]
pub struct SpanEvent {
    pub name: String,
    pub timestamp: u64,
}

/// The content of a list of span events, entry by entry.
pub open spec fn events_view(events: Seq<SpanEvent>) -> Seq<(Seq<char>, u64)> {
    Seq::new(events.len(), |i: int| (events[i].name@, events[i].timestamp))
}

/// What a [`Span`] holds, as a plain value for specifications. `end` is
/// `None` while the span is open.
pub struct SpanModel {
    pub name: Seq<char>,
    pub target: Seq<char>,
    pub level: Level,
    pub start: u64,
    pub end: Option<u64>,
    pub context: ContextModel,
    pub status: Status,
    pub attributes: Seq<(Seq<char>, AttrModel)>,
    pub events: Seq<(Seq<char>, u64)>,
}

impl SpanModel {
    /// The span after it has been closed at time `now`: it ends then, but
    /// never before its start. A closed span stays as it is.
    pub open spec fn closed_at(self, now: u64) -> SpanModel {
        match self.end {
            Some(_) => self,
            None => SpanModel {
                end: Some(
                    if now >= self.start {
                        now
                    } else {
                        self.start
                    },
                ),
                ..self
            },
        }
    }
}

/// One unit of traced work. While it is open, attributes, events and the
/// status can be set; once closed, nothing changes it any more.
#[derive(Debug)]
pub struct Span {
    name: String,
    target: String,
    level: Level,
    start: u64,
    end: Option<u64>,
    context: TraceContext,
    status: Status,
    attributes: Vec<Attribute>,
    events: Vec<SpanEvent>,
}

impl View for Span {
    type V = SpanModel;

    closed spec fn view(&self) -> SpanModel {
        SpanModel {
            name: self.name@,
            target: self.target@,
            level: self.level,
            start: self.start,
            end: self.end,
            context: self.context@,
            status: self.status,
            attributes: attributes_view(self.attributes@),
            events: events_view(self.events@),
        }
    }
}

impl Span {
    /// Opens a span: no attributes, no events, status unset.
    pub fn new(name: String, target: String, level: Level, context: TraceContext, start: u64) -> (r:
        Span)
        ensures
            r@ == (SpanModel {
                name: name@,
                target: target@,
                level,
                start,
                end: None,
                context: context@,
                status: Status::Unset,
                attributes: Seq::empty(),
                events: Seq::empty(),
            }),
    {
        let r = Span {
            name,
            target,
            level,
            start,
            end: None,
            context,
            status: Status::Unset,
            attributes: Vec::new(),
            events: Vec::new(),
        };
        assert(attributes_view(r.attributes@) =~= Seq::empty());
        assert(events_view(r.events@) =~= Seq::empty());
        r
    }

    pub open spec fn is_closed_spec(&self) -> bool {
        self@.end is Some
    }

    /// Whether the span has been closed.
    #[verifier::when_used_as_spec(is_closed_spec)]
    pub fn is_closed(&self) -> (r: bool)
        ensures
            r == self.is_closed_spec(),
    {
        self.end.is_some()
    }

    /// Binds `key` to `value` while the span is open; a closed span stays
    /// as it is. Returns whether the attribute was set.
    pub fn set_attribute(&mut self, key: String, value: AttrValue) -> (done: bool)
        ensures
            done == !old(self).is_closed_spec(),
            done ==> final(self)@ == (SpanModel {
                attributes: old(self)@.attributes.push((key@, value@)),
                ..old(self)@
            }),
            done ==> lookup(final(self)@.attributes, key@) == Some(value@),
            !done ==> final(self)@ == old(self)@,
    {
        if self.end.is_some() {
            return false;
        }
        self.attributes.push(Attribute { key, value });
        assert(attributes_view(self.attributes@) =~= attributes_view(old(self).attributes@).push(
            (key@, value@),
        ));
        true
    }

    /// Attaches an event while the span is open; a closed span stays as it
    /// is. Returns whether the event was attached.
    pub fn add_event(&mut self, name: String, timestamp: u64) -> (done: bool)
        ensures
            done == !old(self).is_closed_spec(),
            done ==> final(self)@ == (SpanModel {
                events: old(self)@.events.push((name@, timestamp)),
                ..old(self)@
            }),
            !done ==> final(self)@ == old(self)@,
    {
        if self.end.is_some() {
            return false;
        }
        self.events.push(SpanEvent { name, timestamp });
        assert(events_view(self.events@) =~= events_view(old(self).events@).push(
            (name@, timestamp),
        ));
        true
    }

    /// Sets the status while the span is open; a closed span stays as it
    /// is. Returns whether the status was set.
    pub fn set_status(&mut self, status: Status) -> (done: bool)
        ensures
            done == !old(self).is_closed_spec(),
            done ==> final(self)@ == (SpanModel { status, ..old(self)@ }),
            !done ==> final(self)@ == old(self)@,
    {
        if self.end.is_some() {
            return false;
        }
        self.status = status;
        true
    }

    /// Closes the span at time `now`. Closing a closed span changes nothing.
    /// Returns whether this call closed it.
    pub fn close(&mut self, now: u64) -> (done: bool)
        ensures
            done == !old(self).is_closed_spec(),
            final(self)@ == old(self)@.closed_at(now),
            final(self).is_closed_spec(),
    {
        if self.end.is_some() {
            return false;
        }
        self.end = Some(if now >= self.start { now } else { self.start });
        true
    }

    pub fn name(&self) -> (r: &String)
        ensures
            r@ == self@.name,
    {
        &self.name
    }

    pub fn target(&self) -> (r: &String)
        ensures
            r@ == self@.target,
    {
        &self.target
    }

    pub fn level(&self) -> (r: Level)
        ensures
            r == self@.level,
    {
        self.level
    }

    pub fn start(&self) -> (r: u64)
        ensures
            r == self@.start,
    {
        self.start
    }

    pub fn end(&self) -> (r: Option<u64>)
        ensures
            r == self@.end,
    {
        self.end
    }

    pub fn context(&self) -> (r: TraceContext)
        ensures
            r@ == self@.context,
    {
        self.context
    }

    pub fn status(&self) -> (r: Status)
        ensures
            r == self@.status,
    {
        self.status
    }

    /// The value that the span's attributes give to `key`.
    pub fn attribute(&self, key: &str) -> (r: Option<AttrValue>)
        ensures
            match r {
                Some(v) => lookup(self@.attributes, key@) == Some(v@),
                None => lookup(self@.attributes, key@) is None,
            },
    {
        find_attribute(&self.attributes, key)
    }

    pub fn attributes(&self) -> (r: &Vec<Attribute>)
        ensures
            attributes_view(r@) == self@.attributes,
    {
        &self.attributes
    }

    pub fn events(&self) -> (r: &Vec<SpanEvent>)
        ensures
            events_view(r@) == self@.events,
    {
        &self.events
    }
}

/// The trace and the names of the spans that were open, oldest ancestor
/// first, at the moment an error was recorded.
#[derive(Clone, Debug, PartialEq, Eq)]
pub struct ErrorContextSnapshot {
    pub trace_id: u128,
    pub span_names: Vec<String>,
}

/// The names of a list, each as a sequence of characters.
pub open spec fn names_view(names: Seq<String>) -> Seq<Seq<char>> {
    Seq::new(names.len(), |i: int| names[i]@)
}

impl View for ErrorContextSnapshot {
    type V = (u128, Seq<Seq<char>>);

    open spec fn view(&self) -> (u128, Seq<Seq<char>>) {
        (self.trace_id, names_view(self.span_names@))
    }
}

/// What a [`LogRecord`] holds, as a plain value for specifications.
pub struct RecordModel {
    pub level: Level,
    pub target: Seq<char>,
    pub message: Seq<char>,
    pub fields: Seq<(Seq<char>, AttrModel)>,
    pub context: Option<ContextModel>,
    pub error_context: Option<(u128, Seq<Seq<char>>)>,
}

/// A single diagnostic line. It cannot be changed once made.
#[derive(Debug)]
pub struct LogRecord {
    level: Level,
    target: String,
    message: String,
    fields: Vec<Attribute>,
    context: Option<TraceContext>,
    error_context: Option<ErrorContextSnapshot>,
}

/// The view of an optional context.
pub open spec fn context_view(c: Option<TraceContext>) -> Option<ContextModel> {
    match c {
        Some(c) => Some(c@),
        None => None,
    }
}

/// The view of an optional snapshot.
pub open spec fn snapshot_view(s: Option<ErrorContextSnapshot>) -> Option<(u128, Seq<Seq<char>>)> {
    match s {
        Some(s) => Some(s@),
        None => None,
    }
}

impl View for LogRecord {
    type V = RecordModel;

    closed spec fn view(&self) -> RecordModel {
        RecordModel {
            level: self.level,
            target: self.target@,
            message: self.message@,
            fields: attributes_view(self.fields@),
            context: context_view(self.context),
            error_context: snapshot_view(self.error_context),
        }
    }
}

impl LogRecord {
    /// Makes a record without an error-context snapshot.
    pub fn new(
        level: Level,
        target: String,
        message: String,
        fields: Vec<Attribute>,
        context: Option<TraceContext>,
    ) -> (r: LogRecord)
        ensures
            r@ == (RecordModel {
                level,
                target: target@,
                message: message@,
                fields: attributes_view(fields@),
                context: context_view(context),
                error_context: None,
            }),
    {
        LogRecord { level, target, message, fields, context, error_context: None }
    }

    /// The same record with `snapshot` attached in place of any earlier
    /// snapshot.
    pub fn with_error_context(self, snapshot: ErrorContextSnapshot) -> (r: LogRecord)
        ensures
            r@ == (RecordModel { error_context: Some(snapshot@), ..self@ }),
    {
        LogRecord {
            level: self.level,
            target: self.target,
            message: self.message,
            fields: self.fields,
            context: self.context,
            error_context: Some(snapshot),
        }
    }

    pub fn level(&self) -> (r: Level)
        ensures
            r == self@.level,
    {
        self.level
    }

    pub fn target(&self) -> (r: &String)
        ensures
            r@ == self@.target,
    {
        &self.target
    }

    pub fn message(&self) -> (r: &String)
        ensures
            r@ == self@.message,
    {
        &self.message
    }

    /// The value that the record's fields give to `key`.
    pub fn field(&self, key: &str) -> (r: Option<AttrValue>)
        ensures
            match r {
                Some(v) => lookup(self@.fields, key@) == Some(v@),
                None => lookup(self@.fields, key@) is None,
            },
    {
        find_attribute(&self.fields, key)
    }

    pub fn context(&self) -> (r: Option<TraceContext>)
        ensures
            context_view(r) == self@.context,
    {
        self.context
    }

    pub fn error_context(&self) -> (r: &Option<ErrorContextSnapshot>)
        ensures
            snapshot_view(*r) == self@.error_context,
    {
        &self.error_context
    }
}

} // verus!
