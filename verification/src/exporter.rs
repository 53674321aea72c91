//! The batch exporter: a bounded buffer between the tasks that close spans
//! and the worker that ships them.
//!
//! The exporter never waits. `enqueue` only moves a span into memory, and
//! when the buffer is full the oldest waiting batch is given up and counted.
//! The worker asks for the batches that are ready, sends each of them, and
//! reports every outcome back; the exporter answers with what to do next.

use vstd::prelude::*;
use vstd::arithmetic::power2::{lemma_pow2_pos, lemma_pow2_strictly_increases, lemma_pow2_unfold, pow2};
use crate::endpoint::{accepts_endpoint, endpoint_accepted, local_collector};
use crate::error::ConfigError;
use crate::event::{Span, SpanModel};

verus! {

/// How a failed delivery is tried again.
#[derive(Clone, Copy, Debug, PartialEq, Eq, Structural)]
pub struct RetryPolicy {
    /// How many times a batch is sent again after its first failure.
    pub max_retries: u32,
    /// The wait before the first retry; each further wait is twice as long.
    pub base_delay: u64,
}

/// What the collector said to one attempt at delivering a batch.
#[derive(Clone, Copy, Debug, PartialEq, Eq, Structural)]
pub enum DeliveryOutcome {
    Delivered,
    Failed,
}

/// What the worker does after an attempt.
#[derive(Clone, Copy, Debug, PartialEq, Eq, Structural)]
pub enum DeliveryStep {
    /// The batch arrived.
    Done,
    /// Send the same batch again after waiting this long.
    RetryAfter(u64),
    /// Give the batch up.
    Discard,
}

/// The wait before retry number `attempt` (counted from zero): the base
/// delay doubled `attempt` times, held at the largest value of a `u64`.
pub open spec fn backoff_spec(base: u64, attempt: nat) -> u64 {
    if base * pow2(attempt) > u64::MAX {
        u64::MAX
    } else {
        (base * pow2(attempt)) as u64
    }
}

/// Each wait is twice the one before it, until the largest value is
/// reached.
pub proof fn lemma_backoff_doubles(base: u64, attempt: nat)
    ensures
        backoff_spec(base, 0) == base,
        backoff_spec(base, attempt + 1) == if 2 * backoff_spec(base, attempt) > u64::MAX {
            u64::MAX
        } else {
            (2 * backoff_spec(base, attempt)) as u64
        },
{
    lemma_pow2_unfold(attempt + 1);
    lemma_pow2_pos(attempt);
    vstd::arithmetic::power2::lemma2_to64();
    assert(base * pow2(attempt + 1) == 2 * (base * pow2(attempt))) by (nonlinear_arith)
        requires
            pow2(attempt + 1) == 2 * pow2(attempt),
    ;
}

/// Computes the wait before retry number `attempt`.
pub fn backoff(base: u64, attempt: u32) -> (r: u64)
    ensures
        r == backoff_spec(base, attempt as nat),
{
    let mut delay = base;
    let mut i: u32 = 0;
    proof {
        vstd::arithmetic::power2::lemma2_to64();
    }
    while i < attempt
        invariant
            i <= attempt,
            delay == base * pow2(i as nat),
        decreases attempt - i,
    {
        proof {
            lemma_pow2_unfold((i + 1) as nat);
            assert(base * pow2((i + 1) as nat) == 2 * (base * pow2(i as nat))) by (nonlinear_arith)
                requires
                    pow2((i + 1) as nat) == 2 * pow2(i as nat),
            ;
        }
        if delay == 0 {
            proof {
                lemma_pow2_pos(i as nat);
                assert(base == 0) by (nonlinear_arith)
                    requires
                        base * pow2(i as nat) == 0,
                        pow2(i as nat) > 0,
                ;
                assert(base * pow2(attempt as nat) == 0) by (nonlinear_arith)
                    requires
                        base == 0,
                ;
            }
            return 0;
        }
        if delay > u64::MAX / 2 {
            proof {
                if i + 1 < attempt {
                    lemma_pow2_strictly_increases((i + 1) as nat, attempt as nat);
                }
                assert(base * pow2(attempt as nat) >= base * pow2((i + 1) as nat))
                    by (nonlinear_arith)
                    requires
                        pow2(attempt as nat) >= pow2((i + 1) as nat),
                ;
            }
            return u64::MAX;
        }
        delay = delay * 2;
        i += 1;
    }
    delay
}

/// The content of each span of a list.
pub open spec fn spans_view(spans: Seq<Span>) -> Seq<SpanModel> {
    Seq::new(spans.len(), |i: int| spans[i]@)
}

/// A bounded, ordered group of closed spans, queued for one delivery.
#[derive(Debug)]
pub struct ExportBatch {
    service: String,
    spans: Vec<Span>,
}

impl View for ExportBatch {
    type V = Seq<SpanModel>;

    closed spec fn view(&self) -> Seq<SpanModel> {
        spans_view(self.spans@)
    }
}

impl ExportBatch {
    /// The name of the service that the spans come from.
    pub closed spec fn service_spec(&self) -> Seq<char> {
        self.service@
    }

    pub fn service(&self) -> (r: &String)
        ensures
            r@ == self.service_spec(),
    {
        &self.service
    }

    /// The spans of the batch, in the order in which they were enqueued.
    pub fn spans(&self) -> (r: &Vec<Span>)
        ensures
            spans_view(r@) == self@,
    {
        &self.spans
    }

    pub fn len(&self) -> (r: usize)
        ensures
            r == self@.len(),
    {
        self.spans.len()
    }
}

/// The spans of each batch of a list.
pub open spec fn batches_view(batches: Seq<ExportBatch>) -> Seq<Seq<SpanModel>> {
    Seq::new(batches.len(), |i: int| batches[i]@)
}

/// A batch that has left the buffer, and how: offered to the collector, or
/// dropped to make room.
pub struct Settled {
    pub batch: Seq<SpanModel>,
    pub offered: bool,
}

/// The spans of the batches that have left the buffer, in order.
pub open spec fn settled_spans(settled: Seq<Settled>) -> Seq<SpanModel>
    decreases settled.len(),
{
    if settled.len() == 0 {
        Seq::empty()
    } else {
        settled_spans(settled.drop_last()) + settled.last().batch
    }
}

/// The batches of a list, each marked as offered to the collector.
pub open spec fn offered(batches: Seq<Seq<SpanModel>>) -> Seq<Settled> {
    Seq::new(batches.len(), |i: int| Settled { batch: batches[i], offered: true })
}

/// What the exporter is set up with.
#[derive(Debug)]
pub struct ExporterSettings {
    /// The address of the collector.
    pub endpoint: String,
    /// The name attached to every batch.
    pub service: String,
    /// A batch is sealed when it holds this many spans.
    pub max_batch_size: usize,
    /// A batch is sealed when its first span has waited this long.
    pub max_batch_delay: u64,
    /// How many sealed batches may wait at once.
    pub capacity: usize,
    pub retry: RetryPolicy,
}

/// The state of a [`BatchExporter`], as a plain value for specifications.
#[verifier::ext_equal]
pub struct ExporterModel {
    pub service: Seq<char>,
    pub max_batch_size: nat,
    pub max_batch_delay: u64,
    pub capacity: nat,
    pub retry: RetryPolicy,
    /// The batch in progress.
    pub current: Seq<SpanModel>,
    /// When the first span of the batch in progress was added.
    pub since: u64,
    /// The sealed batches that wait for the worker, oldest first.
    pub sealed: Seq<Seq<SpanModel>>,
    /// How many batches were dropped to make room.
    pub dropped_batches: u64,
    /// How many attempts at delivery failed.
    pub failed_attempts: u64,
    /// How many batches were given up after the last retry.
    pub discarded_batches: u64,
    /// How many batches arrived.
    pub delivered_batches: u64,
    /// Every span that was ever enqueued, in order.
    pub accepted: Seq<SpanModel>,
    /// Every batch that has left the buffer, in order.
    pub settled: Seq<Settled>,
}

impl ExporterModel {
    /// The state of an exporter that has seen nothing yet.
    pub open spec fn fresh(
        service: Seq<char>,
        max_batch_size: nat,
        max_batch_delay: u64,
        capacity: nat,
        retry: RetryPolicy,
    ) -> ExporterModel {
        ExporterModel {
            service,
            max_batch_size,
            max_batch_delay,
            capacity,
            retry,
            current: Seq::empty(),
            since: 0,
            sealed: Seq::empty(),
            dropped_batches: 0,
            failed_attempts: 0,
            discarded_batches: 0,
            delivered_batches: 0,
            accepted: Seq::empty(),
            settled: Seq::empty(),
        }
    }

    /// The buffer respects its bounds, and every span that was ever
    /// enqueued is found exactly once: in a batch that has left, in a
    /// sealed batch, or in the batch in progress, in the order of arrival.
    pub open spec fn wf(self) -> bool {
        &&& self.max_batch_size >= 1
        &&& self.capacity >= 1
        &&& self.current.len() < self.max_batch_size
        &&& self.sealed.len() <= self.capacity
        &&& forall|i: int|
            0 <= i < self.sealed.len() ==> 1 <= (#[trigger] self.sealed[i]).len()
                <= self.max_batch_size
        &&& self.accepted == settled_spans(self.settled) + self.sealed.flatten() + self.current
    }

    /// The batches that the buffer holds, oldest first: the sealed ones,
    /// then the one in progress if it holds a span.
    pub open spec fn pending(self) -> Seq<Seq<SpanModel>> {
        if self.current.len() > 0 {
            self.sealed.push(self.current)
        } else {
            self.sealed
        }
    }

    /// The spans that the buffer holds, oldest first.
    pub open spec fn buffered(self) -> Seq<SpanModel> {
        self.sealed.flatten() + self.current
    }

    /// The state after `batch` has been sealed: it joins the waiting
    /// batches, and where the buffer is at capacity the oldest of them is
    /// dropped and counted.
    pub open spec fn seal(self, batch: Seq<SpanModel>) -> ExporterModel {
        if self.sealed.len() < self.capacity {
            ExporterModel { sealed: self.sealed.push(batch), current: Seq::empty(), ..self }
        } else {
            ExporterModel {
                sealed: self.sealed.drop_first().push(batch),
                current: Seq::empty(),
                dropped_batches: self.dropped_batches.saturating_add(1),
                settled: self.settled.push(Settled { batch: self.sealed.first(), offered: false }),
                ..self
            }
        }
    }

    /// The state after `span` has been enqueued at time `now`: the span
    /// joins the batch in progress, which is sealed when that fills it.
    pub open spec fn enqueue(self, span: SpanModel, now: u64) -> ExporterModel {
        let grown = self.current.push(span);
        let noted = ExporterModel {
            current: grown,
            since: if self.current.len() == 0 {
                now
            } else {
                self.since
            },
            accepted: self.accepted.push(span),
            ..self
        };
        if grown.len() >= self.max_batch_size {
            noted.seal(grown)
        } else {
            noted
        }
    }

    /// Whether the batch in progress has waited for the configured delay
    /// at time `now`.
    pub open spec fn due(self, now: u64) -> bool {
        self.current.len() > 0 && now >= self.since && now - self.since >= self.max_batch_delay
    }

    /// The batches that leave the buffer when the worker asks at time
    /// `now`: the sealed ones and, if it is due, the one in progress.
    pub open spec fn ready(self, now: u64) -> Seq<Seq<SpanModel>> {
        if self.due(now) {
            self.sealed.push(self.current)
        } else {
            self.sealed
        }
    }

    /// The state after the worker has taken the ready batches at `now`.
    pub open spec fn take_ready(self, now: u64) -> ExporterModel {
        ExporterModel {
            sealed: Seq::empty(),
            current: if self.due(now) {
                Seq::empty()
            } else {
                self.current
            },
            settled: self.settled + offered(self.ready(now)),
            ..self
        }
    }

    /// The state after every buffered batch has been taken.
    pub open spec fn flush(self) -> ExporterModel {
        ExporterModel {
            sealed: Seq::empty(),
            current: Seq::empty(),
            settled: self.settled + offered(self.pending()),
            ..self
        }
    }

    /// What the worker does after attempt number `attempt` (counted from
    /// zero) at one batch ended in `outcome`.
    pub open spec fn step(self, attempt: u32, outcome: DeliveryOutcome) -> DeliveryStep {
        match outcome {
            DeliveryOutcome::Delivered => DeliveryStep::Done,
            DeliveryOutcome::Failed => if attempt < self.retry.max_retries {
                DeliveryStep::RetryAfter(backoff_spec(self.retry.base_delay, attempt as nat))
            } else {
                DeliveryStep::Discard
            },
        }
    }

    /// The state after that outcome has been recorded.
    pub open spec fn record(self, attempt: u32, outcome: DeliveryOutcome) -> ExporterModel {
        match outcome {
            DeliveryOutcome::Delivered => ExporterModel {
                delivered_batches: self.delivered_batches.saturating_add(1),
                ..self
            },
            DeliveryOutcome::Failed => ExporterModel {
                failed_attempts: self.failed_attempts.saturating_add(1),
                discarded_batches: if attempt < self.retry.max_retries {
                    self.discarded_batches
                } else {
                    self.discarded_batches.saturating_add(1)
                },
                ..self
            },
        }
    }

    /// The state after one batch has failed at attempt number `attempt`
    /// and at every attempt after it, until it was given up.
    pub open spec fn given_up(self, attempt: u32) -> ExporterModel
        decreases self.retry.max_retries - attempt,
    {
        if attempt < self.retry.max_retries {
            self.record(attempt, DeliveryOutcome::Failed).given_up((attempt + 1) as u32)
        } else {
            self.record(attempt, DeliveryOutcome::Failed)
        }
    }

    /// The state after `n` batches, one after the other, have each failed
    /// at every attempt from the first on until they were given up: what
    /// an unreachable collector leaves behind.
    pub open spec fn given_up_batches(self, n: nat) -> ExporterModel
        decreases n,
    {
        if n == 0 {
            self
        } else {
            self.given_up_batches((n - 1) as nat).given_up(0)
        }
    }
}

/// A counter after `more` has been added to it, held at the largest value
/// of a `u64`.
pub open spec fn counted(count: u64, more: nat) -> u64 {
    if count + more > u64::MAX {
        u64::MAX
    } else {
        (count + more) as u64
    }
}

/// A batch that fails at every attempt is tried once and then once more
/// for each retry that is left, and is given up once. Each failed attempt
/// is counted, the batch is counted as discarded, and nothing else
/// changes.
pub proof fn lemma_given_up(m: ExporterModel, attempt: u32)
    requires
        attempt <= m.retry.max_retries,
    ensures
        m.given_up(attempt) == (ExporterModel {
            failed_attempts: counted(
                m.failed_attempts,
                (m.retry.max_retries - attempt + 1) as nat,
            ),
            discarded_batches: counted(m.discarded_batches, 1),
            ..m
        }),
        m.step(m.retry.max_retries, DeliveryOutcome::Failed) == DeliveryStep::Discard,
        attempt < m.retry.max_retries ==> m.step(attempt, DeliveryOutcome::Failed)
            == DeliveryStep::RetryAfter(backoff_spec(m.retry.base_delay, attempt as nat)),
    decreases m.retry.max_retries - attempt,
{
    if attempt < m.retry.max_retries {
        lemma_given_up(m.record(attempt, DeliveryOutcome::Failed), (attempt + 1) as u32);
    }
}

/// With an unreachable collector, `n` batches leave exactly `n` more
/// discarded batches and `n` times the attempts of one batch more failed
/// attempts in the counters, and change nothing else: no batch is
/// counted twice, none is left out, and the buffer is not touched.
pub proof fn lemma_unreachable_collector(m: ExporterModel, n: nat)
    ensures
        m.given_up_batches(n) == (ExporterModel {
            failed_attempts: counted(m.failed_attempts, n * (m.retry.max_retries + 1) as nat),
            discarded_batches: counted(m.discarded_batches, n),
            ..m
        }),
        m.wf() ==> m.given_up_batches(n).wf(),
        m.retry.max_retries == 0 ==> m.given_up_batches(n).failed_attempts == counted(
            m.failed_attempts,
            n,
        ),
    decreases n,
{
    let each = (m.retry.max_retries + 1) as nat;
    if n > 0 {
        let before = m.given_up_batches((n - 1) as nat);
        lemma_unreachable_collector(m, (n - 1) as nat);
        lemma_given_up(before, 0);
        assert((n - 1) * each + each == n * each) by (nonlinear_arith);
    } else {
        assert(n * each == 0) by (nonlinear_arith)
            requires
                n == 0,
        ;
    }
    if m.retry.max_retries == 0 {
        assert(n * each == n) by (nonlinear_arith)
            requires
                each == 1,
        ;
    }
}

/// Where a batch holds one span, every buffered span waits in a batch of
/// its own: the worker has as many batches to deliver as spans are
/// buffered.
pub proof fn lemma_batches_of_one(m: ExporterModel)
    requires
        m.wf(),
        m.max_batch_size == 1,
    ensures
        m.current.len() == 0,
        m.pending() == m.sealed,
        m.buffered().len() == m.pending().len(),
        forall|i: int| 0 <= i < m.pending().len() ==> (#[trigger] m.pending()[i]).len() == 1,
{
    lemma_singletons_flatten(m.sealed);
}

/// A list of batches of one span each holds as many spans as batches.
proof fn lemma_singletons_flatten(batches: Seq<Seq<SpanModel>>)
    requires
        forall|i: int| 0 <= i < batches.len() ==> (#[trigger] batches[i]).len() == 1,
    ensures
        batches.flatten().len() == batches.len(),
    decreases batches.len(),
{
    if batches.len() > 0 {
        lemma_singletons_flatten(batches.drop_last());
        batches.drop_last().lemma_flatten_push(batches.last());
        assert(batches.drop_last().push(batches.last()) =~= batches);
    }
}

/// The spans of batches that leave the buffer together follow those of the
/// batches that left before.
pub proof fn lemma_settled_offered(settled: Seq<Settled>, batches: Seq<Seq<SpanModel>>)
    ensures
        settled_spans(settled + offered(batches)) == settled_spans(settled) + batches.flatten(),
    decreases batches.len(),
{
    if batches.len() == 0 {
        assert(settled + offered(batches) =~= settled);
        assert(settled_spans(settled) + batches.flatten() =~= settled_spans(settled));
    } else {
        let front = batches.drop_last();
        let all = settled + offered(batches);
        assert(all.drop_last() =~= settled + offered(front));
        assert(all.last().batch == batches.last());
        lemma_settled_offered(settled, front);
        front.lemma_flatten_push(batches.last());
        assert(front.push(batches.last()) =~= batches);
        assert(settled_spans(all) =~= settled_spans(settled) + batches.flatten());
    }
}

/// Enqueueing keeps the buffer within its bounds and loses track of no
/// span, whatever the state of the buffer: a full buffer gives up its
/// oldest batch, it never turns the new span away.
pub proof fn lemma_enqueue_wf(m: ExporterModel, span: SpanModel, now: u64)
    requires
        m.wf(),
    ensures
        m.enqueue(span, now).wf(),
        m.enqueue(span, now).accepted == m.accepted.push(span),
        m.enqueue(span, now).buffered().len() > 0 ==> m.enqueue(span, now).buffered().last()
            == span,
        m.sealed.len() < m.capacity ==> m.enqueue(span, now).dropped_batches == m.dropped_batches,
{
    let grown = m.current.push(span);
    let next = m.enqueue(span, now);
    if grown.len() >= m.max_batch_size {
        m.sealed.lemma_flatten_push(grown);
        if m.sealed.len() < m.capacity {
            assert(next.accepted =~= settled_spans(next.settled) + next.sealed.flatten()
                + next.current);
        } else {
            let rest = m.sealed.drop_first();
            rest.lemma_flatten_push(grown);
            assert(next.settled.drop_last() =~= m.settled);
            assert(m.sealed.flatten() =~= m.sealed.first() + rest.flatten());
            assert(next.accepted =~= settled_spans(next.settled) + next.sealed.flatten()
                + next.current);
            assert forall|i: int| 0 <= i < next.sealed.len() implies 1 <= (
            #[trigger] next.sealed[i]).len() <= next.max_batch_size by {
                if i < rest.len() {
                    assert(next.sealed[i] == m.sealed[i + 1]);
                }
            }
        }
        let kept = if m.sealed.len() < m.capacity {
            m.sealed
        } else {
            m.sealed.drop_first()
        };
        assert(next.sealed =~= kept.push(grown));
        assert(next.buffered() =~= kept.flatten() + grown);
    } else {
        assert(next.accepted =~= settled_spans(next.settled) + next.sealed.flatten()
            + next.current);
    }
}

/// Taking the ready batches keeps the exporter well formed, and the
/// batches taken are marked as offered, each once and in order.
pub proof fn lemma_take_ready_wf(m: ExporterModel, now: u64)
    requires
        m.wf(),
    ensures
        m.take_ready(now).wf(),
        m.take_ready(now).accepted == m.accepted,
        m.take_ready(now).sealed.len() == 0,
        settled_spans(m.take_ready(now).settled) == settled_spans(m.settled) + m.ready(
            now,
        ).flatten(),
{
    let next = m.take_ready(now);
    lemma_settled_offered(m.settled, m.ready(now));
    if m.due(now) {
        m.sealed.lemma_flatten_push(m.current);
    }
    assert(next.sealed.flatten() =~= Seq::<SpanModel>::empty());
    assert(next.accepted =~= settled_spans(next.settled) + next.sealed.flatten() + next.current);
}

/// Every batch that the buffer holds has at least one span and at most as
/// many as a batch may hold.
pub proof fn lemma_batches_bounded(m: ExporterModel, now: u64)
    requires
        m.wf(),
    ensures
        forall|i: int|
            0 <= i < m.pending().len() ==> 1 <= (#[trigger] m.pending()[i]).len()
                <= m.max_batch_size,
        forall|i: int|
            0 <= i < m.ready(now).len() ==> 1 <= (#[trigger] m.ready(now)[i]).len()
                <= m.max_batch_size,
{
}

/// After a flush the buffer is empty, and every span that was ever
/// enqueued is in exactly one batch that has left the buffer: one that was
/// dropped before, or one that was offered to the collector.
pub proof fn lemma_flush_offers_everything(m: ExporterModel)
    requires
        m.wf(),
    ensures
        m.flush().wf(),
        m.flush().pending() == Seq::<Seq<SpanModel>>::empty(),
        m.flush().buffered() == Seq::<SpanModel>::empty(),
        m.flush().settled == m.settled + offered(m.pending()),
        m.flush().accepted == m.accepted,
        m.flush().accepted == settled_spans(m.flush().settled),
        settled_spans(m.flush().settled) == settled_spans(m.settled) + m.buffered(),
{
    let next = m.flush();
    lemma_settled_offered(m.settled, m.pending());
    if m.current.len() > 0 {
        m.sealed.lemma_flatten_push(m.current);
    } else {
        assert(m.buffered() =~= m.sealed.flatten());
    }
    assert(next.sealed.flatten() =~= Seq::<SpanModel>::empty());
    assert(next.buffered() =~= Seq::<SpanModel>::empty());
    assert(next.accepted =~= settled_spans(next.settled) + next.sealed.flatten() + next.current);
    assert(next.accepted =~= settled_spans(next.settled));
}

/// Buffers closed spans and hands them to the worker in batches.
pub struct BatchExporter {
    endpoint: String,
    service: String,
    max_batch_size: usize,
    max_batch_delay: u64,
    capacity: usize,
    retry: RetryPolicy,
    current: Vec<Span>,
    since: u64,
    sealed: Vec<ExportBatch>,
    dropped_batches: u64,
    failed_attempts: u64,
    discarded_batches: u64,
    delivered_batches: u64,
    accepted: Ghost<Seq<SpanModel>>,
    settled: Ghost<Seq<Settled>>,
}

impl View for BatchExporter {
    type V = ExporterModel;

    closed spec fn view(&self) -> ExporterModel {
        ExporterModel {
            service: self.service@,
            max_batch_size: self.max_batch_size as nat,
            max_batch_delay: self.max_batch_delay,
            capacity: self.capacity as nat,
            retry: self.retry,
            current: spans_view(self.current@),
            since: self.since,
            sealed: batches_view(self.sealed@),
            dropped_batches: self.dropped_batches,
            failed_attempts: self.failed_attempts,
            discarded_batches: self.discarded_batches,
            delivered_batches: self.delivered_batches,
            accepted: self.accepted@,
            settled: self.settled@,
        }
    }
}

/// The error that settings are turned down with, if any. The address is
/// looked at first, then the size of a batch, then the capacity.
pub open spec fn settings_error(settings: ExporterSettings, endpoint_ok: bool) -> Option<
    ConfigError,
> {
    if !endpoint_ok {
        Some(ConfigError::MalformedEndpoint)
    } else if settings.max_batch_size == 0 {
        Some(ConfigError::InvalidBatchSize)
    } else if settings.capacity == 0 {
        Some(ConfigError::InvalidCapacity)
    } else {
        None
    }
}

impl BatchExporter {
    /// The exporter is well formed when its state is, and every waiting
    /// batch carries the name of the service.
    pub closed spec fn wf(&self) -> bool {
        &&& self@.wf()
        &&& forall|i: int|
            0 <= i < self.sealed@.len() ==> (#[trigger] self.sealed@[i]).service@ == self.service@
    }

    /// The address of the collector.
    pub closed spec fn endpoint_spec(&self) -> Seq<char> {
        self.endpoint@
    }

    /// The state of a well-formed exporter is well formed.
    pub proof fn lemma_wf_state(&self)
        requires
            self.wf(),
        ensures
            self@.wf(),
    {
    }

    /// Makes an exporter for the collector at `settings.endpoint`, or says
    /// why the settings are turned down. A malformed address is reported
    /// here, before any span is accepted. The address of a collector on
    /// this machine is never turned down.
    pub fn connect(settings: ExporterSettings) -> (r: Result<BatchExporter, ConfigError>)
        ensures
            match r {
                Ok(e) => settings_error(settings, endpoint_accepted(settings.endpoint@)) is None
                    && e.wf() && e.endpoint_spec() == settings.endpoint@ && e@
                    == ExporterModel::fresh(
                    settings.service@,
                    settings.max_batch_size as nat,
                    settings.max_batch_delay,
                    settings.capacity as nat,
                    settings.retry,
                ),
                Err(err) => settings_error(settings, endpoint_accepted(settings.endpoint@))
                    == Some(err),
            },
            settings.endpoint@ == local_collector() ==> endpoint_accepted(settings.endpoint@),
    {
        let endpoint_ok = accepts_endpoint(settings.endpoint.as_str());
        BatchExporter::with_checked_endpoint(settings, endpoint_ok)
    }

    /// Makes an exporter from settings whose address has been checked
    /// already: `endpoint_ok` says whether it is well formed.
    pub fn with_checked_endpoint(settings: ExporterSettings, endpoint_ok: bool) -> (r: Result<
        BatchExporter,
        ConfigError,
    >)
        ensures
            match r {
                Ok(e) => settings_error(settings, endpoint_ok) is None && e.wf()
                    && e.endpoint_spec() == settings.endpoint@ && e@ == ExporterModel::fresh(
                    settings.service@,
                    settings.max_batch_size as nat,
                    settings.max_batch_delay,
                    settings.capacity as nat,
                    settings.retry,
                ),
                Err(err) => settings_error(settings, endpoint_ok) == Some(err),
            },
    {
        if !endpoint_ok {
            return Err(ConfigError::MalformedEndpoint);
        }
        if settings.max_batch_size == 0 {
            return Err(ConfigError::InvalidBatchSize);
        }
        if settings.capacity == 0 {
            return Err(ConfigError::InvalidCapacity);
        }
        let e = BatchExporter {
            endpoint: settings.endpoint,
            service: settings.service,
            max_batch_size: settings.max_batch_size,
            max_batch_delay: settings.max_batch_delay,
            capacity: settings.capacity,
            retry: settings.retry,
            current: Vec::new(),
            since: 0,
            sealed: Vec::new(),
            dropped_batches: 0,
            failed_attempts: 0,
            discarded_batches: 0,
            delivered_batches: 0,
            accepted: Ghost(Seq::empty()),
            settled: Ghost(Seq::empty()),
        };
        proof {
            assert(e@ =~= ExporterModel::fresh(
                settings.service@,
                settings.max_batch_size as nat,
                settings.max_batch_delay,
                settings.capacity as nat,
                settings.retry,
            ));
            assert(e@.sealed.flatten() =~= Seq::<SpanModel>::empty());
            assert(e@.accepted =~= settled_spans(e@.settled) + e@.sealed.flatten() + e@.current);
        }
        Ok(e)
    }

    /// Takes a closed span into the buffer. This never waits and never
    /// fails: the span joins the batch in progress, a full batch is
    /// sealed, and where the buffer is at capacity the oldest waiting
    /// batch is dropped and counted.
    pub fn enqueue(&mut self, span: Span, now: u64)
        requires
            old(self).wf(),
        ensures
            final(self).wf(),
            final(self)@ == old(self)@.enqueue(span@, now),
            final(self).endpoint_spec() == old(self).endpoint_spec(),
    {
        proof {
            lemma_enqueue_wf(self@, span@, now);
        }
        if self.current.len() == 0 {
            self.since = now;
        }
        let ghost content = span@;
        self.current.push(span);
        proof {
            self.accepted = Ghost(self.accepted@.push(content));
            assert(spans_view(self.current@) =~= old(self)@.current.push(content));
        }
        if self.current.len() >= self.max_batch_size {
            let mut spans: Vec<Span> = Vec::new();
            core::mem::swap(&mut spans, &mut self.current);
            if self.sealed.len() >= self.capacity {
                let oldest = self.sealed.remove(0);
                self.dropped_batches = self.dropped_batches.saturating_add(1);
                proof {
                    self.settled = Ghost(
                        self.settled@.push(Settled { batch: oldest@, offered: false }),
                    );
                }
            }
            let batch = ExportBatch { service: self.service.clone(), spans };
            self.sealed.push(batch);
            assert(spans_view(self.current@) =~= Seq::<SpanModel>::empty());
        }
        assert(self@.sealed =~= old(self)@.enqueue(content, now).sealed);
        assert(self@ =~= old(self)@.enqueue(content, now));
    }

    /// Hands the worker the batches that are ready at time `now`, oldest
    /// first: every sealed batch and, when its first span has waited for
    /// the configured delay, the batch in progress.
    pub fn take_ready(&mut self, now: u64) -> (r: Vec<ExportBatch>)
        requires
            old(self).wf(),
        ensures
            final(self).wf(),
            batches_view(r@) == old(self)@.ready(now),
            final(self)@ == old(self)@.take_ready(now),
            final(self).endpoint_spec() == old(self).endpoint_spec(),
            forall|i: int| 0 <= i < r@.len() ==> (#[trigger] r@[i]).service_spec() == old(self)@.service,
            forall|i: int|
                0 <= i < r@.len() ==> 1 <= (#[trigger] r@[i])@.len() <= old(self)@.max_batch_size,
    {
        proof {
            lemma_take_ready_wf(self@, now);
            lemma_batches_bounded(self@, now);
        }
        let due = self.current.len() > 0 && now >= self.since && now - self.since
            >= self.max_batch_delay;
        let r = self.hand_out(due);
        assert forall|i: int| 0 <= i < r@.len() implies 1 <= (#[trigger] r@[i])@.len() <= old(
            self,
        )@.max_batch_size by {
            assert(batches_view(r@)[i] == r@[i]@);
        }
        r
    }

    /// Hands out every batch that the buffer holds, oldest first, the
    /// batch in progress included, and leaves the buffer empty. Each
    /// batch leaves the buffer once: none of them is handed out again.
    pub fn flush_now(&mut self) -> (r: Vec<ExportBatch>)
        requires
            old(self).wf(),
        ensures
            final(self).wf(),
            batches_view(r@) == old(self)@.pending(),
            final(self)@ == old(self)@.flush(),
            final(self)@.pending() == Seq::<Seq<SpanModel>>::empty(),
            final(self)@.accepted == settled_spans(final(self)@.settled),
            final(self).endpoint_spec() == old(self).endpoint_spec(),
            forall|i: int| 0 <= i < r@.len() ==> (#[trigger] r@[i]).service_spec() == old(self)@.service,
            forall|i: int|
                0 <= i < r@.len() ==> 1 <= (#[trigger] r@[i])@.len() <= old(self)@.max_batch_size,
    {
        proof {
            lemma_flush_offers_everything(self@);
            lemma_batches_bounded(self@, 0);
        }
        let any = self.current.len() > 0;
        let r = self.hand_out(any);
        assert forall|i: int| 0 <= i < r@.len() implies 1 <= (#[trigger] r@[i])@.len() <= old(
            self,
        )@.max_batch_size by {
            assert(batches_view(r@)[i] == r@[i]@);
        }
        r
    }

    /// Empties the list of sealed batches into the result, after sealing
    /// the batch in progress when `with_current` says so.
    fn hand_out(&mut self, with_current: bool) -> (r: Vec<ExportBatch>)
        requires
            old(self).wf(),
            with_current ==> old(self)@.current.len() > 0,
        ensures
            batches_view(r@) == if with_current {
                old(self)@.sealed.push(old(self)@.current)
            } else {
                old(self)@.sealed
            },
            final(self)@ == (ExporterModel {
                sealed: Seq::empty(),
                current: if with_current {
                    Seq::empty()
                } else {
                    old(self)@.current
                },
                settled: old(self)@.settled + offered(batches_view(r@)),
                ..old(self)@
            }),
            final(self).endpoint_spec() == old(self).endpoint_spec(),
            final(self).sealed@.len() == 0,
            final(self).service@ == old(self).service@,
            forall|i: int| 0 <= i < r@.len() ==> (#[trigger] r@[i]).service_spec() == old(self)@.service,
    {
        let mut out: Vec<ExportBatch> = Vec::new();
        core::mem::swap(&mut out, &mut self.sealed);
        if with_current {
            let mut spans: Vec<Span> = Vec::new();
            core::mem::swap(&mut spans, &mut self.current);
            out.push(ExportBatch { service: self.service.clone(), spans });
        }
        proof {
            self.settled = Ghost(self.settled@ + offered(batches_view(out@)));
            if with_current {
                assert(batches_view(out@) =~= old(self)@.sealed.push(old(self)@.current));
            } else {
                assert(batches_view(out@) =~= old(self)@.sealed);
            }
            assert(batches_view(self.sealed@) =~= Seq::<Seq<SpanModel>>::empty());
            assert(spans_view(self.current@) =~= if with_current {
                Seq::<SpanModel>::empty()
            } else {
                old(self)@.current
            });
        }
        out
    }

    /// Records how attempt number `attempt` (counted from zero) at
    /// delivering one batch ended, and says what the worker does next: a
    /// failure is retried after a wait that doubles each time, until the
    /// allowed retries are used up and the batch is discarded.
    pub fn on_outcome(&mut self, attempt: u32, outcome: DeliveryOutcome) -> (r: DeliveryStep)
        requires
            old(self).wf(),
        ensures
            final(self).wf(),
            r == old(self)@.step(attempt, outcome),
            final(self)@ == old(self)@.record(attempt, outcome),
            final(self).endpoint_spec() == old(self).endpoint_spec(),
    {
        match outcome {
            DeliveryOutcome::Delivered => {
                self.delivered_batches = self.delivered_batches.saturating_add(1);
                DeliveryStep::Done
            },
            DeliveryOutcome::Failed => {
                self.failed_attempts = self.failed_attempts.saturating_add(1);
                if attempt < self.retry.max_retries {
                    DeliveryStep::RetryAfter(backoff(self.retry.base_delay, attempt))
                } else {
                    self.discarded_batches = self.discarded_batches.saturating_add(1);
                    DeliveryStep::Discard
                }
            },
        }
    }

    /// The address of the collector.
    pub fn endpoint(&self) -> (r: &String)
        ensures
            r@ == self.endpoint_spec(),
    {
        &self.endpoint
    }

    /// How many batches were dropped to make room.
    pub fn dropped_batches(&self) -> (r: u64)
        ensures
            r == self@.dropped_batches,
    {
        self.dropped_batches
    }

    /// How many attempts at delivery failed.
    pub fn failed_attempts(&self) -> (r: u64)
        ensures
            r == self@.failed_attempts,
    {
        self.failed_attempts
    }

    /// How many batches were given up after the last retry.
    pub fn discarded_batches(&self) -> (r: u64)
        ensures
            r == self@.discarded_batches,
    {
        self.discarded_batches
    }

    /// How many batches arrived.
    pub fn delivered_batches(&self) -> (r: u64)
        ensures
            r == self@.delivered_batches,
    {
        self.delivered_batches
    }

    /// How many spans the buffer holds.
    pub fn buffered_spans(&self) -> (r: usize)
        requires
            self.wf(),
        ensures
            r == self@.buffered().len() || (r == usize::MAX && self@.buffered().len() > usize::MAX),
    {
        assert(spans_view(self.current@).len() == self.current@.len());
        let mut total: usize = self.current.len();
        let mut i: usize = 0;
        while i < self.sealed.len()
            invariant
                i <= self.sealed.len(),
                total == batches_view(self.sealed@).take(i as int).flatten().len() + self.current@.len()
                    || (total == usize::MAX && batches_view(self.sealed@).take(i as int).flatten().len()
                    + self.current@.len() > usize::MAX),
            decreases self.sealed.len() - i,
        {
            proof {
                let all = batches_view(self.sealed@);
                assert(all.take(i + 1) =~= all.take(i as int).push(all[i as int]));
                all.take(i as int).lemma_flatten_push(all[i as int]);
            }
            total = total.saturating_add(self.sealed[i].len());
            i += 1;
        }
        assert(batches_view(self.sealed@).take(i as int) =~= batches_view(self.sealed@));
        total
    }

    /// How many sealed batches wait for the worker.
    pub fn waiting_batches(&self) -> (r: usize)
        ensures
            r == self@.sealed.len(),
    {
        self.sealed.len()
    }
}

} // verus!
