//! Carrying a trace context across a process boundary as text.
//!
//! A context travels as a small mapping from header-style keys to values.
//! The entry `traceparent` holds trace identifier, span identifier and
//! sampling flag in the W3C trace-context format; it is written and read
//! by the trace-context propagator of `opentelemetry`, so that what this
//! library accepts is what that propagator accepts. The entry `parentspan`
//! is this library's own: it is present exactly when the context has a
//! parent span, and holds its 16 lower-case hexadecimal digits.

use std::collections::HashMap;
use opentelemetry::propagation::TextMapPropagator;
use opentelemetry::sdk::propagation::TraceContextPropagator;
use opentelemetry::trace::{SpanContext, SpanId, TraceContextExt, TraceFlags, TraceId, TraceState};
use opentelemetry::Context;
use vstd::prelude::*;
use crate::context::{ContextModel, TraceContext};
use crate::hex::{
    decode_fixed, encode, lemma_decode_bound, lemma_decode_encode, lemma_pow16_words, parse_hex,
    write_hex,
};

verus! {

/// One entry of a [`Carrier`].
pub struct Entry {
    key: String,
    value: String,
}

/// A mapping from text keys to text values, such as the metadata of a
/// request.
pub struct Carrier {
    entries: Vec<Entry>,
}

/// The mapping that a list of entries stands for: a later entry replaces
/// an earlier one with the same key.
pub closed spec fn entries_map(s: Seq<Entry>) -> Map<Seq<char>, Seq<char>>
    decreases s.len(),
{
    if s.len() == 0 {
        Map::empty()
    } else {
        entries_map(s.drop_last()).insert(s.last().key@, s.last().value@)
    }
}

impl View for Carrier {
    type V = Map<Seq<char>, Seq<char>>;

    closed spec fn view(&self) -> Map<Seq<char>, Seq<char>> {
        entries_map(self.entries@)
    }
}

impl Carrier {
    /// The empty mapping.
    pub fn new() -> (r: Carrier)
        ensures
            r@ == Map::<Seq<char>, Seq<char>>::empty(),
    {
        Carrier { entries: Vec::new() }
    }

    /// Binds `key` to `value`, replacing what `key` was bound to.
    pub fn set(&mut self, key: &str, value: &str)
        ensures
            final(self)@ == old(self)@.insert(key@, value@),
    {
        let entry = Entry { key: String::from_str(key), value: String::from_str(value) };
        self.entries.push(entry);
        assert(self.entries@.drop_last() =~= old(self).entries@);
    }

    /// The value that `key` is bound to, if any.
    pub fn get(&self, key: &str) -> (r: Option<String>)
        ensures
            match r {
                Some(v) => self@.contains_key(key@) && self@[key@] == v@,
                None => !self@.contains_key(key@),
            },
    {
        let wanted = String::from_str(key);
        let mut i: usize = self.entries.len();
        assert(self.entries@.take(i as int) =~= self.entries@);
        while i > 0
            invariant
                i <= self.entries.len(),
                wanted@ == key@,
                self@.contains_key(key@) == entries_map(self.entries@.take(i as int)).contains_key(
                    key@,
                ),
                self@.contains_key(key@) ==> self@[key@] == entries_map(
                    self.entries@.take(i as int),
                )[key@],
            decreases i,
        {
            proof {
                assert(self.entries@.take(i as int).drop_last() =~= self.entries@.take(i - 1));
            }
            i -= 1;
            if self.entries[i].key == wanted {
                return Some(self.entries[i].value.clone());
            }
        }
        None
    }
}

/// The key of the entry that holds trace, span and sampling flag.
pub open spec fn traceparent_key() -> Seq<char> {
    "traceparent"@
}

/// The key of the entry that holds the parent span, when there is one.
pub open spec fn parent_key() -> Seq<char> {
    "parentspan"@
}

/// The two keys differ.
pub proof fn lemma_keys_differ()
    ensures
        traceparent_key() != parent_key(),
{
    reveal_strlit("traceparent");
    reveal_strlit("parentspan");
    assert("traceparent"@.len() != "parentspan"@.len());
}

/// The text of the `traceparent` entry of a valid context: version `00`,
/// 32 digits of the trace, 16 digits of the span, and `01` or `00` for
/// the sampling flag, joined by `-`.
pub open spec fn traceparent_text(trace_id: u128, span_id: u64, sampled: bool) -> Seq<char> {
    seq!['0', '0', '-'] + encode(trace_id as nat, 32) + seq!['-'] + encode(span_id as nat, 16)
        + seq!['-', '0', if sampled { '1' } else { '0' }]
}

/// What the trace-context propagator reads from the text of a
/// `traceparent` entry: trace identifier, span identifier and sampling
/// flag. Where it reads no context, both identifiers are zero.
pub uninterp spec fn propagated(text: Seq<char>) -> (u128, u64, bool);

/// Writes the `traceparent` text of a context.
///
/// Trusted: `inject_context` of
/// `opentelemetry::sdk::propagation::TraceContextPropagator` writes, for a
/// span context with both identifiers other than zero, the entry
/// `traceparent` as version `00`, the trace as 32 and the span as 16
/// lower-case hexadecimal digits and the sampling flag as `01` or `00`,
/// joined by `-`; and its `extract_with_context` reads that text back as
/// the same identifiers and flag.
#[verifier::external_body]
fn write_traceparent(trace_id: u128, span_id: u64, sampled: bool) -> (text: String)
    requires
        trace_id != 0,
        span_id != 0,
    ensures
        text@ == traceparent_text(trace_id, span_id, sampled),
        propagated(text@) == (trace_id, span_id, sampled),
{
    let trace = TraceId::from_bytes(trace_id.to_be_bytes());
    let span = SpanId::from_bytes(span_id.to_be_bytes());
    let flags = TraceFlags::new(u8::from(sampled));
    let span_context = SpanContext::new(trace, span, flags, true, TraceState::default());
    let cx = Context::new().with_remote_span_context(span_context);
    let mut headers: HashMap<String, String> = HashMap::new();
    TraceContextPropagator::new().inject_context(&cx, &mut headers);
    headers.remove("traceparent").unwrap_or_default()
}

/// Reads the text of a `traceparent` entry.
///
/// Trusted: `extract_with_context` of
/// `opentelemetry::sdk::propagation::TraceContextPropagator`, given an
/// empty context and the text as the only entry, decides from the text
/// alone which span context it reads; where it reads none, the span
/// context of the result has both identifiers zero.
#[verifier::external_body]
fn read_traceparent(text: &str) -> (r: (u128, u64, bool))
    ensures
        r == propagated(text@),
{
    let mut headers: HashMap<String, String> = HashMap::new();
    headers.insert("traceparent".to_string(), text.to_string());
    let cx = TraceContextPropagator::new().extract_with_context(&Context::new(), &headers);
    let span = cx.span();
    let read = span.span_context();
    let trace = u128::from_be_bytes(read.trace_id().to_bytes());
    let span_id = u64::from_be_bytes(read.span_id().to_bytes());
    (trace, span_id, read.is_sampled())
}

/// The mapping that carries context `c`.
pub open spec fn inject_spec(c: ContextModel) -> Map<Seq<char>, Seq<char>> {
    let base = Map::<Seq<char>, Seq<char>>::empty().insert(
        traceparent_key(),
        traceparent_text(c.trace_id, c.span_id, c.sampled),
    );
    match c.parent_span_id {
        Some(p) => base.insert(parent_key(), encode(p as nat, 16)),
        None => base,
    }
}

/// The context that is made of what was read from a `traceparent` entry
/// and from a `parentspan` entry, if there was one: `None` where either
/// identifier is zero, or where the `parentspan` entry is not exactly 16
/// lower-case hexadecimal digits or stands for zero.
pub open spec fn context_read(read: (u128, u64, bool), parent: Option<Seq<char>>) -> Option<
    ContextModel,
> {
    let (trace_id, span_id, sampled) = read;
    if trace_id == 0 || span_id == 0 {
        None
    } else {
        match parent {
            Some(text) => match decode_fixed(text, 16) {
                Some(p) => if p != 0 {
                    Some(ContextModel { trace_id, span_id, parent_span_id: Some(p as u64), sampled })
                } else {
                    None
                },
                None => None,
            },
            None => Some(ContextModel { trace_id, span_id, parent_span_id: None, sampled }),
        }
    }
}

/// The context that a mapping carries, or `None` when the mapping has no
/// `traceparent` entry, when the propagator reads no valid context from
/// it, or when the `parentspan` entry is malformed. Other entries are not
/// looked at.
pub open spec fn extract_spec(m: Map<Seq<char>, Seq<char>>) -> Option<ContextModel> {
    if !m.contains_key(traceparent_key()) {
        None
    } else {
        context_read(
            propagated(m[traceparent_key()]),
            if m.contains_key(parent_key()) {
                Some(m[parent_key()])
            } else {
                None
            },
        )
    }
}

/// Makes the context that was read from the two entries.
pub fn context_from(read: (u128, u64, bool), parent: Option<String>) -> (r: Option<TraceContext>)
    ensures
        match r {
            Some(c) => context_read(
                read,
                match parent {
                    Some(text) => Some(text@),
                    None => None,
                },
            ) == Some(c@),
            None => context_read(
                read,
                match parent {
                    Some(text) => Some(text@),
                    None => None,
                },
            ) is None,
        },
{
    let (trace_id, span_id, sampled) = read;
    let parent_span_id = match parent {
        Some(text) => {
            match parse_hex(text.as_str(), 16) {
                Some(v) => {
                    proof {
                        lemma_decode_bound(text@);
                        lemma_pow16_words();
                    }
                    if v == 0 {
                        return None;
                    }
                    Some(v as u64)
                },
                None => { return None; },
            }
        },
        None => None,
    };
    TraceContext::new(trace_id, span_id, parent_span_id, sampled)
}

/// Writes context `context` into a fresh mapping. Extracting from that
/// mapping gives the context back.
pub fn inject(context: &TraceContext) -> (r: Carrier)
    ensures
        r@ == inject_spec(context@),
        extract_spec(r@) == Some(context@),
{
    let text = write_traceparent(context.trace_id(), context.span_id(), context.sampled());
    let mut carrier = Carrier::new();
    carrier.set("traceparent", text.as_str());
    match context.parent_span_id() {
        Some(p) => {
            let mut parent = String::new();
            write_hex(&mut parent, p as u128, 16);
            assert(parent@ =~= encode(p as nat, 16));
            carrier.set("parentspan", parent.as_str());
            proof {
                lemma_pow16_words();
                lemma_decode_encode(p as nat, 16);
            }
        },
        None => {},
    }
    proof {
        lemma_keys_differ();
    }
    carrier
}

/// Reads the context that a mapping carries. Malformed input gives `None`,
/// never a failure.
pub fn extract(carrier: &Carrier) -> (r: Option<TraceContext>)
    ensures
        match r {
            Some(c) => extract_spec(carrier@) == Some(c@),
            None => extract_spec(carrier@) is None,
        },
{
    let text = match carrier.get("traceparent") {
        Some(t) => t,
        None => { return None; },
    };
    let read = read_traceparent(text.as_str());
    context_from(read, carrier.get("parentspan"))
}

} // verus!
