//! The pipeline: an ordered chain of layers that every event is offered
//! to, the console lines that wait for the host to write them, and the
//! batch exporter.
//!
//! Every callback only computes on memory. Writing the console lines and
//! sending the batches is done by the host, which fetches both from here.

use vstd::prelude::*;
use crate::context::{ContextModel, TraceContext};
use crate::error::ConfigError;
use crate::event::{context_view, snapshot_view, LogRecord, RecordModel, Span, SpanModel};
use crate::exporter::{
    batches_view, counted, lemma_enqueue_wf, lemma_flush_offers_everything,
    lemma_unreachable_collector, settings_error, settled_spans, BatchExporter, DeliveryOutcome,
    DeliveryStep, ExportBatch, ExporterModel, ExporterSettings, RetryPolicy,
};
use crate::filter::{FilterRule, RuleModel};
use crate::hex::{encode, write_hex};
use crate::level::{Level, Threshold};
use crate::scope::{current_of, released, snapshot_of, TaskScope};

verus! {

/// How many sealed batches may wait in the exporter of a pipeline.
pub const DEFAULT_CAPACITY: usize = 16;

/// How many times the exporter of a pipeline has a failed batch sent again.
pub const DEFAULT_MAX_RETRIES: u32 = 3;

/// The first wait of the exporter of a pipeline before a retry, in
/// milliseconds.
pub const DEFAULT_BASE_DELAY: u64 = 100;

/// Where the host writes the console lines.
#[derive(Clone, Copy, Debug, PartialEq, Eq, Structural)]
pub enum OutputStream {
    Stdout,
    Stderr,
}

/// The kind of a layer.
#[derive(Clone, Copy, Debug, PartialEq, Eq, Structural)]
pub enum LayerKind {
    Filter,
    Console,
    ErrorContext,
    Export,
}

/// One observer in the chain.
#[derive(Debug)]
pub enum Layer {
    /// Vetoes the events that its rule does not let through.
    Filter(FilterRule),
    /// Formats one line for each log record and each closed span.
    Console,
    /// Attaches a snapshot of the open spans to log records at level
    /// `Error`.
    ErrorContext,
    /// Hands closed spans to the batch exporter.
    Export,
}

/// What a [`Layer`] holds, as a plain value for specifications.
pub enum LayerModel {
    Filter(RuleModel),
    Console,
    ErrorContext,
    Export,
}

impl LayerModel {
    pub open spec fn kind(self) -> LayerKind {
        match self {
            LayerModel::Filter(_) => LayerKind::Filter,
            LayerModel::Console => LayerKind::Console,
            LayerModel::ErrorContext => LayerKind::ErrorContext,
            LayerModel::Export => LayerKind::Export,
        }
    }
}

/// What a layer is told of.
#[derive(Clone, Copy, Debug, PartialEq, Eq, Structural)]
pub enum Capability {
    SpanStart,
    SpanEnd,
    LogRecord,
}

/// What a layer asks for when it is told of an event. A layer never acts
/// on its own: the pipeline carries out what the layers ask for, in the
/// order of the chain, and none of it waits.
#[derive(Clone, Copy, Debug, PartialEq, Eq, Structural)]
pub enum Reaction {
    /// Nothing: the layer has only observed.
    Pass,
    /// The event is to reach no layer's effect.
    Veto,
    /// One line for the console.
    WriteLine,
    /// The closed span for the exporter.
    Enqueue,
    /// The snapshot of the open spans for the record.
    Annotate,
}

impl LayerModel {
    /// What the layer asks for when it is told of an event of this level
    /// and target. Only a filter can veto; the console writes for closed
    /// spans and log records, the error context annotates log records at
    /// level `Error`, and export takes closed spans.
    pub open spec fn react(self, capability: Capability, level: Level, target: Seq<char>)
        -> Reaction {
        match self {
            LayerModel::Filter(rule) => if rule.admits(level, target) {
                Reaction::Pass
            } else {
                Reaction::Veto
            },
            LayerModel::Console => if capability == Capability::SpanStart {
                Reaction::Pass
            } else {
                Reaction::WriteLine
            },
            LayerModel::ErrorContext => if capability == Capability::LogRecord && level
                == Level::Error {
                Reaction::Annotate
            } else {
                Reaction::Pass
            },
            LayerModel::Export => if capability == Capability::SpanEnd {
                Reaction::Enqueue
            } else {
                Reaction::Pass
            },
        }
    }
}

impl View for Layer {
    type V = LayerModel;

    open spec fn view(&self) -> LayerModel {
        match self {
            Layer::Filter(rule) => LayerModel::Filter(rule@),
            Layer::Console => LayerModel::Console,
            Layer::ErrorContext => LayerModel::ErrorContext,
            Layer::Export => LayerModel::Export,
        }
    }
}

impl Layer {
    pub fn kind(&self) -> (r: LayerKind)
        ensures
            r == self@.kind(),
    {
        match self {
            Layer::Filter(_) => LayerKind::Filter,
            Layer::Console => LayerKind::Console,
            Layer::ErrorContext => LayerKind::ErrorContext,
            Layer::Export => LayerKind::Export,
        }
    }

    /// Tells the layer of an event of this level and target, and returns
    /// what the layer asks for.
    pub fn react(&self, capability: Capability, level: Level, target: &str) -> (r: Reaction)
        ensures
            r == self@.react(capability, level, target@),
    {
        match self {
            Layer::Filter(rule) => {
                if rule.admits(level, target) {
                    Reaction::Pass
                } else {
                    Reaction::Veto
                }
            },
            Layer::Console => {
                match capability {
                    Capability::SpanStart => Reaction::Pass,
                    _ => Reaction::WriteLine,
                }
            },
            Layer::ErrorContext => {
                match (capability, level) {
                    (Capability::LogRecord, Level::Error) => Reaction::Annotate,
                    _ => Reaction::Pass,
                }
            },
            Layer::Export => {
                match capability {
                    Capability::SpanEnd => Reaction::Enqueue,
                    _ => Reaction::Pass,
                }
            },
        }
    }

    /// Tells the layer that `span` has been opened.
    pub fn on_span_start(&self, span: &Span) -> (r: Reaction)
        ensures
            r == self@.react(Capability::SpanStart, span@.level, span@.target),
    {
        self.react(Capability::SpanStart, span.level(), span.target().as_str())
    }

    /// Tells the layer that `span` has been closed.
    pub fn on_span_end(&self, span: &Span) -> (r: Reaction)
        ensures
            r == self@.react(Capability::SpanEnd, span@.level, span@.target),
    {
        self.react(Capability::SpanEnd, span.level(), span.target().as_str())
    }

    /// Tells the layer of a log record.
    pub fn on_log_record(&self, record: &LogRecord) -> (r: Reaction)
        ensures
            r == self@.react(Capability::LogRecord, record@.level, record@.target),
    {
        self.react(Capability::LogRecord, record.level(), record.target().as_str())
    }
}

/// The content of each layer of a chain.
pub open spec fn layers_view(layers: Seq<Layer>) -> Seq<LayerModel> {
    Seq::new(layers.len(), |i: int| layers[i]@)
}

/// Whether no layer of the chain vetoes an event of this level and
/// target: whether every filter admits it. One filter that does not is a
/// veto, wherever in the chain it stands.
pub open spec fn all_admit(layers: Seq<LayerModel>, level: Level, target: Seq<char>) -> bool
    decreases layers.len(),
{
    if layers.len() == 0 {
        true
    } else {
        all_admit(layers.drop_last(), level, target) && match layers.last() {
            LayerModel::Filter(rule) => rule.admits(level, target),
            _ => true,
        }
    }
}

/// No layer vetoes an event exactly when no layer reacts to it with a
/// veto, whatever the layers are told.
pub proof fn lemma_veto_is_a_reaction(
    layers: Seq<LayerModel>,
    capability: Capability,
    level: Level,
    target: Seq<char>,
)
    ensures
        all_admit(layers, level, target) <==> forall|i: int|
            0 <= i < layers.len() ==> (#[trigger] layers[i]).react(capability, level, target)
                != Reaction::Veto,
    decreases layers.len(),
{
    if layers.len() > 0 {
        lemma_veto_is_a_reaction(layers.drop_last(), capability, level, target);
        if all_admit(layers, level, target) {
            assert forall|i: int| 0 <= i < layers.len() implies (#[trigger] layers[i]).react(
                capability,
                level,
                target,
            ) != Reaction::Veto by {
                if i < layers.len() - 1 {
                    assert(layers.drop_last()[i] == layers[i]);
                }
            }
        } else if all_admit(layers.drop_last(), level, target) {
            assert(layers[layers.len() - 1].react(capability, level, target) == Reaction::Veto);
        } else {
            let i = choose|i: int|
                0 <= i < layers.drop_last().len() && (#[trigger] layers.drop_last()[i]).react(
                    capability,
                    level,
                    target,
                ) == Reaction::Veto;
            assert(layers[i].react(capability, level, target) == Reaction::Veto);
        }
    }
}

/// How many layers of the chain are of the given kind.
pub open spec fn count_kind(layers: Seq<LayerModel>, kind: LayerKind) -> nat
    decreases layers.len(),
{
    if layers.len() == 0 {
        0
    } else {
        count_kind(layers.drop_last(), kind) + if layers.last().kind() == kind {
            1nat
        } else {
            0nat
        }
    }
}

/// `n` copies of `line`.
pub open spec fn repeat(line: Seq<char>, n: nat) -> Seq<Seq<char>> {
    Seq::new(n, |i: int| line)
}

/// The text that names a context on a console line; nothing where there is
/// no context.
pub open spec fn context_suffix(c: Option<ContextModel>) -> Seq<char> {
    match c {
        Some(c) => " trace_id="@ + encode(c.trace_id as nat, 32) + " span_id="@ + encode(
            c.span_id as nat,
            16,
        ),
        None => Seq::empty(),
    }
}

/// The console line of a log record: level, message and the ambient
/// context.
pub open spec fn record_line(record: RecordModel, ambient: Option<ContextModel>) -> Seq<char> {
    record.level.name_spec() + " "@ + record.message + context_suffix(ambient)
}

/// The console line of a closed span: level, name and the span's context.
pub open spec fn span_line(span: SpanModel) -> Seq<char> {
    span.level.name_spec() + " span "@ + span.name + context_suffix(Some(span.context))
}

/// The record as the chain hands it back: with the snapshot attached where
/// the chain has an error-context layer, the record is at level `Error`
/// and there is a snapshot to attach.
pub open spec fn annotated(
    layers: Seq<LayerModel>,
    record: RecordModel,
    snapshot: Option<(u128, Seq<Seq<char>>)>,
) -> RecordModel {
    if count_kind(layers, LayerKind::ErrorContext) > 0 && record.level == Level::Error && snapshot
        is Some {
        RecordModel { error_context: snapshot, ..record }
    } else {
        record
    }
}

/// The state of a [`Pipeline`], as a plain value for specifications.
#[verifier::ext_equal]
pub struct PipelineModel {
    /// The chain, in registration order.
    pub layers: Seq<LayerModel>,
    /// Where the host writes the console lines.
    pub output: OutputStream,
    /// The console lines that the host has not fetched yet, oldest first.
    pub console: Seq<Seq<char>>,
    pub exporter: ExporterModel,
    /// Whether the pipeline still takes events: true until shutdown.
    pub active: bool,
    /// The count of the events that were offered to the chain while it was
    /// active, held at the largest value of a `u64`.
    pub offered_events: u64,
    /// The count of those that a filter vetoed, held likewise.
    pub vetoed_events: u64,
    /// How many events were offered to the chain while it was active. The
    /// events are numbered in the order of their emission, from zero.
    pub emitted: nat,
    /// The numbers of the events that no filter vetoed, in the order in
    /// which they were offered.
    pub admitted: Seq<nat>,
}

impl PipelineModel {
    /// The exporter is well formed, and the numbers of the admitted events
    /// are below the count of events and strictly increasing.
    pub open spec fn wf(self) -> bool {
        &&& self.exporter.wf()
        &&& forall|a: int| 0 <= a < self.admitted.len() ==> (#[trigger] self.admitted[a]) < self.emitted
        &&& forall|a: int, b: int|
            0 <= a < b < self.admitted.len() ==> (#[trigger] self.admitted[a]) < (
            #[trigger] self.admitted[b])
    }

    /// The numbers of the events that layer `i` has observed, in the order
    /// in which it observed them: a filter layer sees every event, any
    /// other layer the events that no filter vetoed.
    pub open spec fn observed(self, i: int) -> Seq<nat> {
        if self.layers[i].kind() == LayerKind::Filter {
            Seq::new(self.emitted, |k: int| k as nat)
        } else {
            self.admitted
        }
    }

    /// The state after one more event has been offered and admitted or not.
    pub open spec fn noted(self, passed: bool) -> PipelineModel {
        PipelineModel {
            offered_events: self.offered_events.saturating_add(1),
            vetoed_events: if passed {
                self.vetoed_events
            } else {
                self.vetoed_events.saturating_add(1)
            },
            emitted: self.emitted + 1,
            admitted: if passed {
                self.admitted.push(self.emitted)
            } else {
                self.admitted
            },
            ..self
        }
    }

    /// The state after the chain has been told that `span` was opened.
    /// After shutdown nothing changes.
    pub open spec fn span_started(self, span: SpanModel) -> PipelineModel {
        if !self.active {
            self
        } else {
            self.noted(all_admit(self.layers, span.level, span.target))
        }
    }

    /// The state after the closed span `span` has been offered to the
    /// chain at time `now`. A span that a filter vetoes reaches neither
    /// the console nor the exporter; an admitted span gets one line from
    /// each console layer and, where the chain has an export layer, is
    /// enqueued once. After shutdown nothing changes.
    pub open spec fn span_ended(self, span: SpanModel, now: u64) -> PipelineModel {
        if !self.active {
            self
        } else if !all_admit(self.layers, span.level, span.target) {
            self.noted(false)
        } else {
            PipelineModel {
                console: self.console + repeat(
                    span_line(span),
                    count_kind(self.layers, LayerKind::Console),
                ),
                exporter: if count_kind(self.layers, LayerKind::Export) > 0 {
                    self.exporter.enqueue(span, now)
                } else {
                    self.exporter
                },
                ..self.noted(true)
            }
        }
    }

    /// The state after `record` has been offered to the chain by a task
    /// whose ambient context is `ambient`. A vetoed record reaches no
    /// console; an admitted one gets one line from each console layer.
    /// After shutdown nothing changes.
    pub open spec fn logged(self, record: RecordModel, ambient: Option<ContextModel>)
        -> PipelineModel {
        if !self.active {
            self
        } else if !all_admit(self.layers, record.level, record.target) {
            self.noted(false)
        } else {
            PipelineModel {
                console: self.console + repeat(
                    record_line(record, ambient),
                    count_kind(self.layers, LayerKind::Console),
                ),
                ..self.noted(true)
            }
        }
    }

    /// What the chain hands back for `record`: nothing after shutdown or
    /// on a veto, else the record as the chain leaves it.
    pub open spec fn log_result(self, record: RecordModel, snapshot: Option<(u128, Seq<Seq<char>>)>)
        -> Option<RecordModel> {
        if self.active && all_admit(self.layers, record.level, record.target) {
            Some(annotated(self.layers, record, snapshot))
        } else {
            None
        }
    }

    /// The state after shutdown: every buffered batch has left the
    /// exporter, and no further event is taken.
    pub open spec fn shut_down(self) -> PipelineModel {
        PipelineModel { exporter: self.exporter.flush(), active: false, ..self }
    }
}

/// One event, as the chain is told of it.
pub enum EventModel {
    /// A span was opened.
    SpanStarted(SpanModel),
    /// A span was closed; the time is that of the call.
    SpanEnded(SpanModel, u64),
    /// A record was logged by a task with this ambient context.
    Logged(RecordModel, Option<ContextModel>),
}

impl EventModel {
    /// Whether no filter of the chain vetoes the event.
    pub open spec fn passes(self, layers: Seq<LayerModel>) -> bool {
        match self {
            EventModel::SpanStarted(span) => all_admit(layers, span.level, span.target),
            EventModel::SpanEnded(span, _) => all_admit(layers, span.level, span.target),
            EventModel::Logged(record, _) => all_admit(layers, record.level, record.target),
        }
    }

    /// The console lines that the chain writes for the event.
    pub open spec fn lines(self, layers: Seq<LayerModel>) -> Seq<Seq<char>> {
        if !self.passes(layers) {
            Seq::empty()
        } else {
            match self {
                EventModel::SpanStarted(_) => Seq::empty(),
                EventModel::SpanEnded(span, _) => repeat(
                    span_line(span),
                    count_kind(layers, LayerKind::Console),
                ),
                EventModel::Logged(record, ambient) => repeat(
                    record_line(record, ambient),
                    count_kind(layers, LayerKind::Console),
                ),
            }
        }
    }

    /// The spans that the chain hands to the exporter for the event.
    pub open spec fn exported(self, layers: Seq<LayerModel>) -> Seq<SpanModel> {
        match self {
            EventModel::SpanEnded(span, _) => if self.passes(layers) && count_kind(
                layers,
                LayerKind::Export,
            ) > 0 {
                seq![span]
            } else {
                Seq::empty()
            },
            _ => Seq::empty(),
        }
    }
}

/// The console lines that the chain writes for a sequence of events: those
/// of each event, in the order of the events.
pub open spec fn lines_of(layers: Seq<LayerModel>, events: Seq<EventModel>) -> Seq<Seq<char>>
    decreases events.len(),
{
    if events.len() == 0 {
        Seq::empty()
    } else {
        lines_of(layers, events.drop_last()) + events.last().lines(layers)
    }
}

/// The spans that the chain hands to the exporter for a sequence of
/// events, in the order of the events.
pub open spec fn exported_of(layers: Seq<LayerModel>, events: Seq<EventModel>) -> Seq<SpanModel>
    decreases events.len(),
{
    if events.len() == 0 {
        Seq::empty()
    } else {
        exported_of(layers, events.drop_last()) + events.last().exported(layers)
    }
}

/// The numbers of the events of a sequence that no filter vetoes, where
/// the first event of the sequence has the number `first`.
pub open spec fn numbers_of(layers: Seq<LayerModel>, events: Seq<EventModel>, first: nat) -> Seq<
    nat,
>
    decreases events.len(),
{
    if events.len() == 0 {
        Seq::empty()
    } else if events.last().passes(layers) {
        numbers_of(layers, events.drop_last(), first).push((first + events.len() - 1) as nat)
    } else {
        numbers_of(layers, events.drop_last(), first)
    }
}

impl PipelineModel {
    /// The state after one event.
    pub open spec fn after(self, event: EventModel) -> PipelineModel {
        match event {
            EventModel::SpanStarted(span) => self.span_started(span),
            EventModel::SpanEnded(span, now) => self.span_ended(span, now),
            EventModel::Logged(record, ambient) => self.logged(record, ambient),
        }
    }

    /// The state after a sequence of events, emitted one after the other.
    pub open spec fn after_all(self, events: Seq<EventModel>) -> PipelineModel
        decreases events.len(),
    {
        if events.len() == 0 {
            self
        } else {
            self.after_all(events.drop_last()).after(events.last())
        }
    }
}

/// What a sequence of events leaves behind is in the order of emission:
/// the console holds the lines of the events one after the other, the
/// exporter has accepted the exported spans one after the other, and the
/// layers have observed the events by rising number.
pub proof fn lemma_effects_in_emission_order(m: PipelineModel, events: Seq<EventModel>)
    requires
        m.wf(),
        m.active,
    ensures
        m.after_all(events).wf(),
        m.after_all(events).active,
        m.after_all(events).layers == m.layers,
        m.after_all(events).emitted == m.emitted + events.len(),
        m.after_all(events).console == m.console + lines_of(m.layers, events),
        m.after_all(events).exporter.accepted == m.exporter.accepted + exported_of(
            m.layers,
            events,
        ),
        m.after_all(events).admitted == m.admitted + numbers_of(m.layers, events, m.emitted),
    decreases events.len(),
{
    let end = m.after_all(events);
    if events.len() == 0 {
        assert(end.console =~= m.console + lines_of(m.layers, events));
        assert(end.exporter.accepted =~= m.exporter.accepted + exported_of(m.layers, events));
        assert(end.admitted =~= m.admitted + numbers_of(m.layers, events, m.emitted));
    } else {
        let before = m.after_all(events.drop_last());
        let event = events.last();
        lemma_effects_in_emission_order(m, events.drop_last());
        match event {
            EventModel::SpanStarted(span) => {
                lemma_transitions_wf(before, span, arbitrary(), None, 0);
            },
            EventModel::SpanEnded(span, now) => {
                lemma_transitions_wf(before, span, arbitrary(), None, now);
                lemma_enqueue_wf(before.exporter, span, now);
            },
            EventModel::Logged(record, ambient) => {
                lemma_transitions_wf(before, arbitrary(), record, ambient, 0);
            },
        }
        assert(end.console =~= m.console + lines_of(m.layers, events));
        assert(end.exporter.accepted =~= m.exporter.accepted + exported_of(m.layers, events));
        assert(end.admitted =~= m.admitted + numbers_of(m.layers, events, m.emitted));
    }
}

/// The events of closing each span of a list at time `now`, in order.
pub open spec fn closings(spans: Seq<SpanModel>, now: u64) -> Seq<EventModel> {
    Seq::new(spans.len(), |i: int| EventModel::SpanEnded(spans[i], now))
}

/// Each span of a list as a batch of its own.
pub open spec fn batches_of_one(spans: Seq<SpanModel>) -> Seq<Seq<SpanModel>> {
    Seq::new(spans.len(), |i: int| seq![spans[i]])
}

/// Where a batch holds one span and the buffer has room, every span that
/// is closed and not vetoed becomes a batch of its own, in the order of
/// closing, and none is dropped. If the collector is then unreachable, the
/// counters show one discarded batch for every waiting span and the
/// attempts of one batch for each of them, no more and no fewer.
pub proof fn lemma_unreachable_collector_counts_every_span(
    m: PipelineModel,
    spans: Seq<SpanModel>,
    now: u64,
)
    requires
        m.wf(),
        m.active,
        count_kind(m.layers, LayerKind::Export) > 0,
        m.exporter.max_batch_size == 1,
        m.exporter.sealed.len() + spans.len() <= m.exporter.capacity,
        forall|i: int|
            0 <= i < spans.len() ==> all_admit(
                m.layers,
                (#[trigger] spans[i]).level,
                spans[i].target,
            ),
    ensures
        m.after_all(closings(spans, now)).exporter == (ExporterModel {
            sealed: m.exporter.sealed + batches_of_one(spans),
            accepted: m.exporter.accepted + spans,
            since: m.after_all(closings(spans, now)).exporter.since,
            ..m.exporter
        }),
        m.after_all(closings(spans, now)).exporter.flush().given_up_batches(
            m.exporter.sealed.len() + spans.len(),
        ).failed_attempts == counted(
            m.exporter.failed_attempts,
            (m.exporter.sealed.len() + spans.len()) * (m.exporter.retry.max_retries + 1) as nat,
        ),
        m.after_all(closings(spans, now)).exporter.flush().given_up_batches(
            m.exporter.sealed.len() + spans.len(),
        ).discarded_batches == counted(
            m.exporter.discarded_batches,
            m.exporter.sealed.len() + spans.len(),
        ),
    decreases spans.len(),
{
    let events = closings(spans, now);
    let end = m.after_all(events);
    lemma_effects_in_emission_order(m, events);
    if spans.len() == 0 {
        assert(end.exporter =~= (ExporterModel {
            sealed: m.exporter.sealed + batches_of_one(spans),
            accepted: m.exporter.accepted + spans,
            since: end.exporter.since,
            ..m.exporter
        }));
    } else {
        let front = spans.drop_last();
        let last = spans.last();
        assert(events.drop_last() =~= closings(front, now));
        lemma_unreachable_collector_counts_every_span(m, front, now);
        lemma_effects_in_emission_order(m, closings(front, now));
        let before = m.after_all(closings(front, now));
        assert(end == before.span_ended(last, now));
        assert(before.exporter.current.len() == 0);
        assert(before.exporter.sealed.len() < before.exporter.capacity);
        let grown = before.exporter.current.push(last);
        assert(grown =~= seq![last]);
        assert(m.exporter.current =~= Seq::<SpanModel>::empty());
        assert(batches_of_one(spans) =~= batches_of_one(front).push(seq![last]));
        assert(end.exporter == before.exporter.enqueue(last, now));
        assert(end.exporter.sealed == before.exporter.sealed.push(grown));
        assert(end.exporter.sealed =~= m.exporter.sealed + batches_of_one(spans));
        assert(end.exporter.accepted =~= m.exporter.accepted + spans);
        assert(end.exporter.current =~= m.exporter.current);
        assert(end.exporter =~= (ExporterModel {
            sealed: m.exporter.sealed + batches_of_one(spans),
            accepted: m.exporter.accepted + spans,
            since: end.exporter.since,
            ..m.exporter
        }));
    }
    lemma_unreachable_collector(end.exporter.flush(), m.exporter.sealed.len() + spans.len());
}

/// Every layer observes events in the order of their emission: of two
/// events that a layer has observed, the one it observed first was emitted
/// first.
pub proof fn lemma_observed_in_emission_order(m: PipelineModel, i: int, a: int, b: int)
    requires
        m.wf(),
        0 <= i < m.layers.len(),
        0 <= a < b < m.observed(i).len(),
    ensures
        m.observed(i)[a] < m.observed(i)[b],
        m.observed(i)[b] < m.emitted,
{
}

/// Offering one more event keeps the pipeline well formed, and every layer
/// that observes the event observes it after all earlier ones.
pub proof fn lemma_noted(m: PipelineModel, passed: bool, i: int)
    requires
        m.wf(),
        0 <= i < m.layers.len(),
    ensures
        m.noted(passed).wf(),
        m.layers[i].kind() == LayerKind::Filter || passed ==> m.noted(passed).observed(i)
            == m.observed(i).push(m.emitted),
        !(m.layers[i].kind() == LayerKind::Filter || passed) ==> m.noted(passed).observed(i)
            == m.observed(i),
{
    assert(m.noted(passed).observed(i) =~= if m.layers[i].kind() == LayerKind::Filter || passed {
        m.observed(i).push(m.emitted)
    } else {
        m.observed(i)
    });
}

/// The veto of a filter is total: an event that a filter does not let through
/// changes neither the console nor the exporter, and a vetoed log record
/// is not handed back.
pub proof fn lemma_veto_is_total(
    m: PipelineModel,
    span: SpanModel,
    record: RecordModel,
    ambient: Option<ContextModel>,
    snapshot: Option<(u128, Seq<Seq<char>>)>,
    now: u64,
)
    ensures
        !all_admit(m.layers, span.level, span.target) ==> m.span_ended(span, now).console
            == m.console && m.span_ended(span, now).exporter == m.exporter,
        !all_admit(m.layers, record.level, record.target) ==> m.logged(record, ambient).console
            == m.console && m.logged(record, ambient).exporter == m.exporter && m.log_result(
            record,
            snapshot,
        ) is None,
{
}

/// Each transition keeps a well-formed pipeline well formed.
pub proof fn lemma_transitions_wf(
    m: PipelineModel,
    span: SpanModel,
    record: RecordModel,
    ambient: Option<ContextModel>,
    now: u64,
)
    requires
        m.wf(),
    ensures
        m.span_started(span).wf(),
        m.span_ended(span, now).wf(),
        m.logged(record, ambient).wf(),
        m.shut_down().wf(),
{
    lemma_enqueue_wf(m.exporter, span, now);
    lemma_flush_offers_everything(m.exporter);
}

/// After shutdown no event changes the pipeline, and nothing is handed
/// back for a log record.
pub proof fn lemma_discards_after_shutdown(
    m: PipelineModel,
    span: SpanModel,
    record: RecordModel,
    ambient: Option<ContextModel>,
    snapshot: Option<(u128, Seq<Seq<char>>)>,
    now: u64,
)
    requires
        !m.active,
    ensures
        m.span_started(span) == m,
        m.span_ended(span, now) == m,
        m.logged(record, ambient) == m,
        m.log_result(record, snapshot) is None,
{
}

/// Shutdown leaves the exporter empty, and every span that the exporter
/// ever accepted is then in exactly one batch that has left it: one that
/// was dropped to make room, or one that was handed out to be offered to
/// the collector.
pub proof fn lemma_shutdown_drains(m: PipelineModel)
    requires
        m.wf(),
    ensures
        !m.shut_down().active,
        m.shut_down().exporter.pending() == Seq::<Seq<SpanModel>>::empty(),
        m.shut_down().exporter.accepted == m.exporter.accepted,
        m.shut_down().exporter.accepted == settled_spans(m.shut_down().exporter.settled),
        settled_spans(m.shut_down().exporter.settled) == settled_spans(m.exporter.settled)
            + m.exporter.pending().flatten(),
{
    lemma_flush_offers_everything(m.exporter);
    if m.exporter.current.len() > 0 {
        m.exporter.sealed.lemma_flatten_push(m.exporter.current);
    } else {
        assert(m.exporter.buffered() =~= m.exporter.sealed.flatten());
    }
}

/// What the pipeline is set up with.
#[derive(Debug)]
pub struct Config {
    /// The least severity that is let through, as text.
    pub severity_filter: String,
    /// Where set, only events whose target begins with it are admitted.
    pub scope: Option<String>,
    /// The address of the collector.
    pub endpoint: String,
    /// The name attached to every exported batch.
    pub service_identity: String,
    pub max_batch_size: usize,
    pub max_batch_delay: u64,
    pub output_stream: OutputStream,
}

/// The settings of the exporter that a configuration asks for.
pub open spec fn exporter_settings(config: Config) -> ExporterSettings {
    ExporterSettings {
        endpoint: config.endpoint,
        service: config.service_identity,
        max_batch_size: config.max_batch_size,
        max_batch_delay: config.max_batch_delay,
        capacity: DEFAULT_CAPACITY,
        retry: RetryPolicy { max_retries: DEFAULT_MAX_RETRIES, base_delay: DEFAULT_BASE_DELAY },
    }
}

/// The error that a configuration is turned down with, if any, given what
/// its severity filter names and whether its endpoint is well formed. The
/// severity filter is looked at first.
pub open spec fn config_error(config: Config, threshold: Option<Threshold>, endpoint_ok: bool)
    -> Option<ConfigError> {
    if threshold is None {
        Some(ConfigError::InvalidSeverityFilter)
    } else {
        settings_error(exporter_settings(config), endpoint_ok)
    }
}

/// The chain that a configuration leads to: the filter, then export,
/// error context and console.
pub open spec fn configured_layers(config: Config, threshold: Threshold) -> Seq<LayerModel> {
    seq![
        LayerModel::Filter(
            RuleModel {
                threshold,
                scope: match config.scope {
                    Some(s) => Some(s@),
                    None => None,
                },
            },
        ),
        LayerModel::Export,
        LayerModel::ErrorContext,
        LayerModel::Console,
    ]
}

/// The state of the pipeline that a configuration leads to.
pub open spec fn configured(config: Config, threshold: Threshold) -> PipelineModel {
    PipelineModel {
        layers: configured_layers(config, threshold),
        output: config.output_stream,
        console: Seq::empty(),
        exporter: ExporterModel::fresh(
            config.service_identity@,
            config.max_batch_size as nat,
            config.max_batch_delay,
            DEFAULT_CAPACITY as nat,
            RetryPolicy { max_retries: DEFAULT_MAX_RETRIES, base_delay: DEFAULT_BASE_DELAY },
        ),
        active: true,
        offered_events: 0,
        vetoed_events: 0,
        emitted: 0,
        admitted: Seq::empty(),
    }
}

/// The content of each line of a list.
pub open spec fn lines_view(lines: Seq<String>) -> Seq<Seq<char>> {
    Seq::new(lines.len(), |i: int| lines[i]@)
}

/// The chain of layers with the console buffer and the batch exporter
/// that the layers write to.
pub struct Pipeline {
    layers: Vec<Layer>,
    output: OutputStream,
    console: Vec<String>,
    exporter: BatchExporter,
    active: bool,
    offered_events: u64,
    vetoed_events: u64,
    emitted: Ghost<nat>,
    admitted: Ghost<Seq<nat>>,
}

impl View for Pipeline {
    type V = PipelineModel;

    closed spec fn view(&self) -> PipelineModel {
        PipelineModel {
            layers: layers_view(self.layers@),
            output: self.output,
            console: lines_view(self.console@),
            exporter: self.exporter@,
            active: self.active,
            offered_events: self.offered_events,
            vetoed_events: self.vetoed_events,
            emitted: self.emitted@,
            admitted: self.admitted@,
        }
    }
}

fn write_suffix(out: &mut String, context: Option<TraceContext>)
    ensures
        final(out)@ == old(out)@ + context_suffix(context_view(context)),
{
    match context {
        Some(c) => {
            out.append(" trace_id=");
            write_hex(out, c.trace_id(), 32);
            out.append(" span_id=");
            write_hex(out, c.span_id() as u128, 16);
            assert(out@ =~= old(out)@ + context_suffix(context_view(context)));
        },
        None => {
            assert(out@ =~= old(out)@ + context_suffix(context_view(context)));
        },
    }
}

/// Formats the console line of a log record.
pub fn format_record(record: &LogRecord, ambient: Option<TraceContext>) -> (r: String)
    ensures
        r@ == record_line(record@, context_view(ambient)),
{
    let mut line = String::from_str(record.level().name());
    line.append(" ");
    line.append(record.message().as_str());
    write_suffix(&mut line, ambient);
    assert(line@ =~= record_line(record@, context_view(ambient)));
    line
}

/// Formats the console line of a span.
pub fn format_span(span: &Span) -> (r: String)
    ensures
        r@ == span_line(span@),
{
    let mut line = String::from_str(span.level().name());
    line.append(" span ");
    line.append(span.name().as_str());
    write_suffix(&mut line, Some(span.context()));
    assert(line@ =~= span_line(span@));
    line
}

impl Pipeline {
    /// The pipeline is well formed when its state and its exporter are.
    pub closed spec fn wf(&self) -> bool {
        self@.wf() && self.exporter.wf()
    }

    /// The address of the collector.
    pub closed spec fn endpoint_spec(&self) -> Seq<char> {
        self.exporter.endpoint_spec()
    }

    /// The state of a well-formed pipeline is well formed.
    pub proof fn lemma_wf_state(&self)
        requires
            self.wf(),
        ensures
            self@.wf(),
    {
    }

    /// Makes a pipeline over the given chain and exporter.
    pub fn new(layers: Vec<Layer>, output: OutputStream, exporter: BatchExporter) -> (r: Pipeline)
        requires
            exporter.wf(),
        ensures
            r.wf(),
            r.endpoint_spec() == exporter.endpoint_spec(),
            r@ == (PipelineModel {
                layers: layers_view(layers@),
                output,
                console: Seq::empty(),
                exporter: exporter@,
                active: true,
                offered_events: 0,
                vetoed_events: 0,
                emitted: 0,
                admitted: Seq::empty(),
            }),
    {
        proof {
            exporter.lemma_wf_state();
        }
        let r = Pipeline {
            layers,
            output,
            console: Vec::new(),
            exporter,
            active: true,
            offered_events: 0,
            vetoed_events: 0,
            emitted: Ghost(0),
            admitted: Ghost(Seq::empty()),
        };
        assert(lines_view(r.console@) =~= Seq::<Seq<char>>::empty());
        r
    }

    /// Makes the pipeline that `config` asks for, or says why the
    /// configuration is turned down. `threshold` is what the severity
    /// filter of the configuration names, `endpoint_ok` whether its
    /// endpoint is well formed.
    pub fn assemble(config: Config, threshold: Option<Threshold>, endpoint_ok: bool) -> (r: Result<
        Pipeline,
        ConfigError,
    >)
        ensures
            match r {
                Ok(p) => config_error(config, threshold, endpoint_ok) is None && p.wf() && p@
                    == configured(config, threshold->0) && p.endpoint_spec() == config.endpoint@,
                Err(e) => config_error(config, threshold, endpoint_ok) == Some(e),
            },
    {
        let threshold = match threshold {
            Some(t) => t,
            None => { return Err(ConfigError::InvalidSeverityFilter); },
        };
        let settings = ExporterSettings {
            endpoint: config.endpoint,
            service: config.service_identity,
            max_batch_size: config.max_batch_size,
            max_batch_delay: config.max_batch_delay,
            capacity: DEFAULT_CAPACITY,
            retry: RetryPolicy { max_retries: DEFAULT_MAX_RETRIES, base_delay: DEFAULT_BASE_DELAY },
        };
        let exporter = match BatchExporter::with_checked_endpoint(settings, endpoint_ok) {
            Ok(e) => e,
            Err(err) => { return Err(err); },
        };
        let mut layers: Vec<Layer> = Vec::new();
        layers.push(Layer::Filter(FilterRule { threshold, scope: config.scope }));
        layers.push(Layer::Export);
        layers.push(Layer::ErrorContext);
        layers.push(Layer::Console);
        assert(layers_view(layers@) =~= configured_layers(config, threshold));
        Ok(Pipeline::new(layers, config.output_stream, exporter))
    }

    /// Tells every layer of the event and says whether none of them
    /// vetoes it.
    fn admits(&self, capability: Capability, level: Level, target: &str) -> (r: bool)
        ensures
            r == all_admit(self@.layers, level, target@),
    {
        let mut verdict = true;
        let mut i: usize = 0;
        assert(self@.layers.take(0) =~= Seq::<LayerModel>::empty());
        while i < self.layers.len()
            invariant
                i <= self.layers.len(),
                verdict == all_admit(self@.layers.take(i as int), level, target@),
            decreases self.layers.len() - i,
        {
            proof {
                assert(self@.layers.take(i + 1).drop_last() =~= self@.layers.take(i as int));
                assert(self@.layers.take(i + 1).last() == self.layers@[i as int]@);
            }
            match self.layers[i].react(capability, level, target) {
                Reaction::Veto => {
                    verdict = false;
                },
                _ => {},
            }
            i += 1;
        }
        assert(self@.layers.take(i as int) =~= self@.layers);
        verdict
    }

    /// Tells the chain that `span` has been opened. Every layer observes
    /// this; none of them writes or enqueues anything for it.
    pub fn on_span_start(&mut self, span: &Span)
        requires
            old(self).wf(),
        ensures
            final(self).wf(),
            final(self)@ == old(self)@.span_started(span@),
            final(self).endpoint_spec() == old(self).endpoint_spec(),
    {
        if !self.active {
            return ;
        }
        let passed = self.admits(Capability::SpanStart, span.level(), span.target().as_str());
        proof {
            lemma_transitions_wf(self@, span@, arbitrary(), None, 0);
        }
        self.note(passed);
    }

    /// Counts one more event, and numbers it among the admitted ones when
    /// it passed the filters.
    fn note(&mut self, passed: bool)
        ensures
            final(self)@ == old(self)@.noted(passed),
            final(self).exporter == old(self).exporter,
            final(self).layers == old(self).layers,
            final(self).console == old(self).console,
            final(self).active == old(self).active,
    {
        self.offered_events = self.offered_events.saturating_add(1);
        if !passed {
            self.vetoed_events = self.vetoed_events.saturating_add(1);
        }
        proof {
            let number = self.emitted@;
            self.emitted = Ghost(number + 1);
            if passed {
                self.admitted = Ghost(self.admitted@.push(number));
            }
        }
    }

    /// Closes `span` at time `now`, releases it from the scope of its
    /// task, and offers the closed span to the chain. A span that a filter
    /// vetoes reaches neither the console nor the exporter. This never
    /// waits: an admitted span is formatted and enqueued in memory.
    pub fn on_span_end(&mut self, scope: &mut TaskScope, span: Span, now: u64)
        requires
            old(self).wf(),
        ensures
            final(self).wf(),
            final(scope)@ == released(old(scope)@, span@.context),
            final(self)@ == old(self)@.span_ended(span@.closed_at(now), now),
            final(self).endpoint_spec() == old(self).endpoint_spec(),
    {
        let mut span = span;
        span.close(now);
        let context = span.context();
        scope.release(&context);
        if !self.active {
            return ;
        }
        let ghost content = span@;
        let passed = self.admits(Capability::SpanEnd, span.level(), span.target().as_str());
        proof {
            lemma_transitions_wf(self@, content, arbitrary(), None, now);
            lemma_enqueue_wf(self@.exporter, content, now);
        }
        self.note(passed);
        if !passed {
            return ;
        }
        let line = format_span(&span);
        let level = span.level();
        let target = span.target().clone();
        let ghost before = old(self)@;
        let mut pending: Option<Span> = Some(span);
        let mut i: usize = 0;
        assert(self@.layers.take(0) =~= Seq::<LayerModel>::empty());
        assert(self@.console =~= before.console + repeat(line@, 0));
        while i < self.layers.len()
            invariant
                i <= self.layers.len(),
                before.exporter.wf(),
                before.exporter.enqueue(content, now).wf(),
                self.exporter.wf(),
                self.exporter.endpoint_spec() == old(self).exporter.endpoint_spec(),
                line@ == span_line(content),
                level == content.level,
                target@ == content.target,
                self@.layers == before.layers,
                self@.output == before.output,
                self@.active == before.active,
                self@.offered_events == before.noted(true).offered_events,
                self@.vetoed_events == before.noted(true).vetoed_events,
                self@.emitted == before.noted(true).emitted,
                self@.admitted == before.noted(true).admitted,
                self@.console == before.console + repeat(
                    line@,
                    count_kind(before.layers.take(i as int), LayerKind::Console),
                ),
                self@.exporter == if count_kind(before.layers.take(i as int), LayerKind::Export)
                    > 0 {
                    before.exporter.enqueue(content, now)
                } else {
                    before.exporter
                },
                pending is Some <==> count_kind(before.layers.take(i as int), LayerKind::Export)
                    == 0,
                pending is Some ==> pending->0@ == content,
            decreases self.layers.len() - i,
        {
            proof {
                assert(before.layers.take(i + 1).drop_last() =~= before.layers.take(i as int));
                assert(before.layers.take(i + 1).last() == self.layers@[i as int]@);
            }
            let ghost lines = self@.console;
            match self.layers[i].react(Capability::SpanEnd, level, target.as_str()) {
                Reaction::WriteLine => {
                    self.console.push(line.clone());
                    assert(self@.console =~= lines.push(line@));
                    assert(self@.console =~= before.console + repeat(
                        line@,
                        count_kind(before.layers.take(i + 1), LayerKind::Console),
                    ));
                },
                Reaction::Enqueue => {
                    match pending {
                        Some(s) => {
                            self.exporter.enqueue(s, now);
                            pending = None;
                        },
                        None => {},
                    }
                },
                _ => {},
            }
            i += 1;
        }
        assert(before.layers.take(i as int) =~= before.layers);
        assert(self@ =~= before.span_ended(content, now));
    }

    /// Offers `record` to the chain on behalf of the task that `scope`
    /// belongs to, and hands back the record as the chain leaves it, or
    /// nothing where a filter vetoes it or the pipeline has been shut
    /// down. An admitted record gets a console line; at level `Error` an
    /// error-context layer attaches the snapshot of the task's open spans.
    pub fn on_log_record(&mut self, scope: &TaskScope, record: LogRecord) -> (r: Option<LogRecord>)
        requires
            old(self).wf(),
        ensures
            final(self).wf(),
            final(self)@ == old(self)@.logged(record@, current_of(scope@)),
            match r {
                Some(out) => old(self)@.log_result(record@, snapshot_of(scope@)) == Some(out@),
                None => old(self)@.log_result(record@, snapshot_of(scope@)) is None,
            },
            final(self).endpoint_spec() == old(self).endpoint_spec(),
    {
        if !self.active {
            return None;
        }
        let ghost content = record@;
        let ghost before = old(self)@;
        let passed = self.admits(Capability::LogRecord, record.level(), record.target().as_str());
        proof {
            lemma_transitions_wf(self@, arbitrary(), content, current_of(scope@), 0);
        }
        self.note(passed);
        if !passed {
            return None;
        }
        let line = format_record(&record, scope.current());
        let is_error = record.level() == Level::Error;
        let mut snapshot = if is_error {
            scope.snapshot()
        } else {
            None
        };
        let ghost captured = snapshot_of(scope@);
        let mut current = record;
        let mut i: usize = 0;
        assert(self@.layers.take(0) =~= Seq::<LayerModel>::empty());
        assert(self@.console =~= before.console + repeat(line@, 0));
        while i < self.layers.len()
            invariant
                i <= self.layers.len(),
                self.exporter == old(self).exporter,
                line@ == record_line(content, current_of(scope@)),
                is_error == (content.level == Level::Error),
                self@.layers == before.layers,
                self@.output == before.output,
                self@.active == before.active,
                self@.exporter == before.exporter,
                self@.offered_events == before.noted(true).offered_events,
                self@.vetoed_events == before.noted(true).vetoed_events,
                self@.emitted == before.noted(true).emitted,
                self@.admitted == before.noted(true).admitted,
                self@.console == before.console + repeat(
                    line@,
                    count_kind(before.layers.take(i as int), LayerKind::Console),
                ),
                current@ == annotated(before.layers.take(i as int), content, captured),
                snapshot is Some ==> is_error && snapshot_view(snapshot) == captured,
                snapshot is None && is_error && captured is Some ==> count_kind(
                    before.layers.take(i as int),
                    LayerKind::ErrorContext,
                ) > 0,
            decreases self.layers.len() - i,
        {
            proof {
                assert(before.layers.take(i + 1).drop_last() =~= before.layers.take(i as int));
                assert(before.layers.take(i + 1).last() == self.layers@[i as int]@);
            }
            let ghost lines = self@.console;
            match self.layers[i].on_log_record(&current) {
                Reaction::WriteLine => {
                    self.console.push(line.clone());
                    assert(self@.console =~= lines.push(line@));
                    assert(self@.console =~= before.console + repeat(
                        line@,
                        count_kind(before.layers.take(i + 1), LayerKind::Console),
                    ));
                },
                Reaction::Annotate => {
                    match snapshot {
                        Some(s) => {
                            current = current.with_error_context(s);
                            snapshot = None;
                        },
                        None => {},
                    }
                },
                _ => {},
            }
            i += 1;
        }
        assert(before.layers.take(i as int) =~= before.layers);
        assert(self@ =~= before.logged(content, current_of(scope@)));
        Some(current)
    }

    /// Shuts the pipeline down: hands out every batch that the exporter
    /// still holds, oldest first, for the host to offer to the collector,
    /// and takes no further event. Each batch is handed out once; a second
    /// shutdown hands out nothing.
    pub fn shutdown(&mut self) -> (r: Vec<ExportBatch>)
        requires
            old(self).wf(),
        ensures
            final(self).wf(),
            final(self)@ == old(self)@.shut_down(),
            batches_view(r@) == old(self)@.exporter.pending(),
            forall|i: int|
                0 <= i < r@.len() ==> (#[trigger] r@[i]).service_spec()
                    == old(self)@.exporter.service,
            forall|i: int|
                0 <= i < r@.len() ==> 1 <= (#[trigger] r@[i])@.len()
                    <= old(self)@.exporter.max_batch_size,
            final(self)@.exporter.pending() == Seq::<Seq<SpanModel>>::empty(),
            final(self)@.exporter.accepted == settled_spans(final(self)@.exporter.settled),
            final(self).endpoint_spec() == old(self).endpoint_spec(),
    {
        self.active = false;
        self.exporter.flush_now()
    }

    /// Hands the worker the batches that are ready at time `now`.
    pub fn take_ready(&mut self, now: u64) -> (r: Vec<ExportBatch>)
        requires
            old(self).wf(),
        ensures
            final(self).wf(),
            batches_view(r@) == old(self)@.exporter.ready(now),
            forall|i: int|
                0 <= i < r@.len() ==> (#[trigger] r@[i]).service_spec()
                    == old(self)@.exporter.service,
            forall|i: int|
                0 <= i < r@.len() ==> 1 <= (#[trigger] r@[i])@.len()
                    <= old(self)@.exporter.max_batch_size,
            final(self)@ == (PipelineModel {
                exporter: old(self)@.exporter.take_ready(now),
                ..old(self)@
            }),
            final(self).endpoint_spec() == old(self).endpoint_spec(),
    {
        let r = self.exporter.take_ready(now);
        proof {
            self.exporter.lemma_wf_state();
        }
        r
    }

    /// Records the outcome of one attempt at delivering a batch and says
    /// what the worker does next. A failure only shows in the counters: it
    /// never becomes an event of the pipeline.
    pub fn on_outcome(&mut self, attempt: u32, outcome: DeliveryOutcome) -> (r: DeliveryStep)
        requires
            old(self).wf(),
        ensures
            final(self).wf(),
            r == old(self)@.exporter.step(attempt, outcome),
            final(self)@ == (PipelineModel {
                exporter: old(self)@.exporter.record(attempt, outcome),
                ..old(self)@
            }),
            final(self).endpoint_spec() == old(self).endpoint_spec(),
    {
        self.exporter.on_outcome(attempt, outcome)
    }

    /// Hands the host the console lines that have gathered, oldest first,
    /// and empties the buffer.
    pub fn drain_console(&mut self) -> (r: Vec<String>)
        requires
            old(self).wf(),
        ensures
            final(self).wf(),
            lines_view(r@) == old(self)@.console,
            final(self)@ == (PipelineModel { console: Seq::empty(), ..old(self)@ }),
            final(self).endpoint_spec() == old(self).endpoint_spec(),
    {
        let mut out: Vec<String> = Vec::new();
        core::mem::swap(&mut out, &mut self.console);
        assert(lines_view(self.console@) =~= Seq::<Seq<char>>::empty());
        out
    }

    /// Whether the pipeline still takes events.
    pub fn is_active(&self) -> (r: bool)
        ensures
            r == self@.active,
    {
        self.active
    }

    /// How many events were offered to the chain while it was active.
    pub fn offered_events(&self) -> (r: u64)
        ensures
            r == self@.offered_events,
    {
        self.offered_events
    }

    /// How many of the offered events a filter vetoed.
    pub fn vetoed_events(&self) -> (r: u64)
        ensures
            r == self@.vetoed_events,
    {
        self.vetoed_events
    }

    /// Where the host writes the console lines.
    pub fn output_stream(&self) -> (r: OutputStream)
        ensures
            r == self@.output,
    {
        self.output
    }

    /// The exporter, for its counters and its address.
    pub fn exporter(&self) -> (r: &BatchExporter)
        ensures
            r@ == self@.exporter,
            r.endpoint_spec() == self.endpoint_spec(),
            self.wf() ==> r.wf(),
    {
        &self.exporter
    }

    /// How many layers the chain has.
    pub fn layer_count(&self) -> (r: usize)
        ensures
            r == self@.layers.len(),
    {
        self.layers.len()
    }
}

} // verus!
