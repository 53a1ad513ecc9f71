use vstd::prelude::*;
use std::collections::VecDeque;

verus! {

broadcast use vstd::std_specs::vecdeque::group_vec_dequeue_axioms;

/// A message with the sequence number it was given when it was recorded.
pub struct SequencedMessage<T> {
    pub sequence: u64,
    pub message: T,
}

/// Bounded history of a job's streaming messages, for subscribers that join
/// late. The oldest message is evicted when a new one would overflow the
/// capacity; every push takes the next sequence number, starting at 1.
pub struct ReplayBuffer<T> {
    buffer: VecDeque<SequencedMessage<T>>,
    capacity: usize,
    message_id: u64,
}

impl<T: Clone> ReplayBuffer<T> {
    /// The retained messages, oldest first.
    pub closed spec fn entries(&self) -> Seq<SequencedMessage<T>> {
        self.buffer@
    }

    pub closed spec fn spec_capacity(&self) -> nat {
        self.capacity as nat
    }

    /// The sequence number of the last message pushed (0 before any push).
    pub closed spec fn last_sequence(&self) -> nat {
        self.message_id as nat
    }

    /// At most `capacity` messages are retained, and they are the latest
    /// ones: consecutive sequence numbers ending at the last one given.
    pub open spec fn wf(&self) -> bool {
        &&& self.entries().len() <= self.spec_capacity()
        &&& self.entries().len() <= self.last_sequence()
        &&& forall|i: int| 0 <= i < self.entries().len() ==> #[trigger] self.entries()[i].sequence
            == self.last_sequence() - self.entries().len() + 1 + i
    }

    /// The index of the first retained message whose sequence number
    /// exceeds `seq`.
    pub open spec fn first_after(&self, seq: u64) -> int {
        if seq >= self.last_sequence() {
            self.entries().len() as int
        } else if self.last_sequence() - seq > self.entries().len() {
            0
        } else {
            self.entries().len() - (self.last_sequence() - seq)
        }
    }

    /// An empty buffer of the given capacity.
    pub fn new(capacity: usize) -> (r: Self)
        ensures
            r.wf(),
            r.entries().len() == 0,
            r.spec_capacity() == capacity,
            r.last_sequence() == 0,
    {
        ReplayBuffer { buffer: VecDeque::new(), capacity, message_id: 0 }
    }

    /// Records a message under the next sequence number, evicting the oldest
    /// retained message when the buffer is full. A buffer of capacity 0
    /// retains nothing, though the sequence still advances.
    pub fn push(&mut self, msg: T)
        requires
            old(self).wf(),
            old(self).last_sequence() < u64::MAX,
        ensures
            final(self).wf(),
            final(self).spec_capacity() == old(self).spec_capacity(),
            final(self).last_sequence() == old(self).last_sequence() + 1,
            old(self).spec_capacity() == 0 ==> final(self).entries().len() == 0,
            old(self).spec_capacity() > 0 ==> {
                let kept = if old(self).entries().len() >= old(self).spec_capacity() {
                    old(self).entries().drop_first()
                } else {
                    old(self).entries()
                };
                final(self).entries() == kept.push(SequencedMessage { sequence: final(self).last_sequence() as u64, message: msg })
            },
    {
        self.message_id = self.message_id + 1;
        if self.capacity == 0 {
            return;
        }
        if self.buffer.len() >= self.capacity {
            self.buffer.pop_front();
        }
        let seq = self.message_id;
        self.buffer.push_back(SequencedMessage { sequence: seq, message: msg });
        proof {
            let e = self.buffer@;
            assert forall|i: int| 0 <= i < e.len() implies #[trigger] e[i].sequence
                == self.last_sequence() - e.len() + 1 + i by {
                if i < e.len() - 1 {
                    if old(self).buffer@.len() >= old(self).capacity {
                        assert(e[i] == old(self).buffer@[i + 1]);
                    } else {
                        assert(e[i] == old(self).buffer@[i]);
                    }
                }
            }
        }
    }

    /// Copies of the retained messages, oldest first.
    pub fn get_all(&self) -> (r: Vec<T>)
        requires
            self.wf(),
        ensures
            r@.len() == self.entries().len(),
            forall|i: int| 0 <= i < r@.len() ==> cloned(#[trigger] self.entries()[i].message, r@[i]),
    {
        let r = self.messages_from(0);
        assert forall|i: int| 0 <= i < r@.len() implies cloned(#[trigger] self.entries()[i].message, r@[i]) by {
            assert(cloned(self.entries()[0 + i].message, r@[i]));
        }
        r
    }

    /// Copies of the retained messages whose sequence numbers exceed `seq`,
    /// oldest first. When `seq` is older than every retained message this is
    /// the whole buffer.
    pub fn get_since(&self, seq: u64) -> (r: Vec<T>)
        requires
            self.wf(),
        ensures
            0 <= self.first_after(seq) <= self.entries().len(),
            forall|i: int| 0 <= i < self.entries().len() ==>
                (#[trigger] self.entries()[i].sequence > seq <==> i >= self.first_after(seq)),
            r@.len() == self.entries().len() - self.first_after(seq),
            forall|i: int| 0 <= i < r@.len() ==> cloned(
                #[trigger] self.entries()[self.first_after(seq) + i].message, r@[i]),
    {
        let len = self.buffer.len();
        let skip: usize = if seq >= self.message_id {
            len
        } else if self.message_id - seq > len as u64 {
            0
        } else {
            len - (self.message_id - seq) as usize
        };
        self.messages_from(skip)
    }

    fn messages_from(&self, start: usize) -> (r: Vec<T>)
        requires
            start <= self.entries().len(),
        ensures
            r@.len() == self.entries().len() - start,
            forall|i: int| 0 <= i < r@.len() ==> cloned(#[trigger] self.entries()[start + i].message, r@[i]),
    {
        let mut out: Vec<T> = Vec::new();
        let mut i: usize = start;
        while i < self.buffer.len()
            invariant
                start <= i <= self.entries().len(),
                out@.len() == i - start,
                forall|k: int| 0 <= k < out@.len() ==> cloned(#[trigger] self.entries()[start + k].message, out@[k]),
            decreases self.entries().len() - i,
        {
            let m = self.buffer[i].message.clone();
            out.push(m);
            i = i + 1;
        }
        out
    }

    /// The sequence number of the last message pushed.
    pub fn current_message_id(&self) -> (r: u64)
        ensures
            r == self.last_sequence(),
    {
        self.message_id
    }

    pub fn len(&self) -> (r: usize)
        ensures
            r == self.entries().len(),
    {
        self.buffer.len()
    }

    pub fn is_empty(&self) -> (r: bool)
        ensures
            r == (self.entries().len() == 0),
    {
        self.buffer.len() == 0
    }

    /// Forgets the retained messages; the sequence keeps counting.
    pub fn clear(&mut self)
        ensures
            final(self).wf(),
            final(self).entries().len() == 0,
            final(self).spec_capacity() == old(self).spec_capacity(),
            final(self).last_sequence() == old(self).last_sequence(),
    {
        self.buffer.clear();
    }
}

/// Every replay buffer retains at most its capacity, with strictly
/// increasing sequence numbers, none beyond the last one given out; so the
/// next push, which takes the following number, reuses none of them.
pub proof fn lemma_replay_buffer_bounded_and_ordered<T: Clone>(b: ReplayBuffer<T>)
    requires
        b.wf(),
    ensures
        b.entries().len() <= b.spec_capacity(),
        forall|i: int, j: int| 0 <= i < j < b.entries().len()
            ==> #[trigger] b.entries()[i].sequence < #[trigger] b.entries()[j].sequence,
        forall|i: int| 0 <= i < b.entries().len()
            ==> 1 <= #[trigger] b.entries()[i].sequence <= b.last_sequence(),
{
}

/// Counts the measurements a producer has in flight and refuses more than
/// the threshold. The producer waits for a release when refused.
#[derive(Debug, Clone, Copy)]
pub struct BackpressureGovernor {
    pending_count: usize,
    threshold: usize,
}

impl BackpressureGovernor {
    pub closed spec fn pending(&self) -> nat {
        self.pending_count as nat
    }

    pub closed spec fn spec_threshold(&self) -> nat {
        self.threshold as nat
    }

    /// Never more in flight than the threshold.
    pub open spec fn wf(&self) -> bool {
        self.pending() <= self.spec_threshold()
    }

    /// A governor with nothing in flight.
    pub fn new(threshold: usize) -> (r: Self)
        ensures
            r.wf(),
            r.pending() == 0,
            r.spec_threshold() == threshold,
    {
        BackpressureGovernor { pending_count: 0, threshold }
    }

    /// Admits one more message when fewer than the threshold are in flight.
    pub fn try_acquire(&mut self) -> (r: bool)
        requires
            old(self).wf(),
        ensures
            final(self).wf(),
            final(self).spec_threshold() == old(self).spec_threshold(),
            r == (old(self).pending() < old(self).spec_threshold()),
            r ==> final(self).pending() == old(self).pending() + 1,
            !r ==> final(self).pending() == old(self).pending(),
    {
        if self.pending_count < self.threshold {
            self.pending_count = self.pending_count + 1;
            true
        } else {
            false
        }
    }

    /// Marks one message as no longer in flight.
    pub fn release(&mut self)
        requires
            old(self).wf(),
        ensures
            final(self).wf(),
            final(self).spec_threshold() == old(self).spec_threshold(),
            final(self).pending() == (if old(self).pending() > 0 { old(self).pending() - 1 } else { 0 }),
    {
        if self.pending_count > 0 {
            self.pending_count = self.pending_count - 1;
        }
    }

    /// Messages in flight now.
    pub fn pending_count(&self) -> (r: usize)
        ensures
            r == self.pending(),
    {
        self.pending_count
    }

    pub fn threshold(&self) -> (r: usize)
        ensures
            r == self.spec_threshold(),
    {
        self.threshold
    }

    /// At least half the threshold (rounded down) is in flight.
    pub fn is_under_pressure(&self) -> (r: bool)
        ensures
            r == (self.pending() >= self.spec_threshold() / 2),
    {
        self.pending_count >= self.threshold / 2
    }
}

/// The variants of a streaming message, as a subscriber filter sees them.
#[derive(Debug, Clone, Copy, PartialEq, Eq, Structural)]
pub enum MessageKind {
    MeasurementEvent,
    StatisticsUpdate,
    ProgressUpdate,
    JobStarted,
    JobCompleted,
    Error,
    Heartbeat,
    Subscribe,
    Unsubscribe,
    Ack,
}

/// What a subscriber asked to receive about a job.
#[derive(Debug, Clone, Copy, PartialEq, Eq, Structural)]
pub struct SubscribePayload {
    pub job_id: u128,
    pub include_measurements: bool,
    pub include_statistics: bool,
    pub statistics_interval_shots: usize,
}

/// Measurement events go to subscribers that include measurements,
/// statistics updates to those that include statistics, everything else to
/// every subscriber.
pub open spec fn spec_wants(sub: SubscribePayload, kind: MessageKind) -> bool {
    match kind {
        MessageKind::MeasurementEvent => sub.include_measurements,
        MessageKind::StatisticsUpdate => sub.include_statistics,
        _ => true,
    }
}

impl SubscribePayload {
    /// Whether this subscription receives messages of the given kind.
    pub fn wants(&self, kind: MessageKind) -> (r: bool)
        ensures
            r == spec_wants(*self, kind),
    {
        match kind {
            MessageKind::MeasurementEvent => self.include_measurements,
            MessageKind::StatisticsUpdate => self.include_statistics,
            _ => true,
        }
    }
}

/// A subscriber's bounded mailbox. A message offered to a full mailbox is
/// dropped for this subscriber and counted.
pub struct Mailbox<T> {
    queue: VecDeque<T>,
    capacity: usize,
    dropped: u64,
}

impl<T> Mailbox<T> {
    pub closed spec fn contents(&self) -> Seq<T> {
        self.queue@
    }

    pub closed spec fn spec_capacity(&self) -> nat {
        self.capacity as nat
    }

    pub closed spec fn spec_dropped(&self) -> nat {
        self.dropped as nat
    }

    pub open spec fn wf(&self) -> bool {
        self.contents().len() <= self.spec_capacity()
    }

    /// An empty mailbox.
    pub fn new(capacity: usize) -> (r: Self)
        ensures
            r.wf(),
            r.contents().len() == 0,
            r.spec_capacity() == capacity,
            r.spec_dropped() == 0,
    {
        Mailbox { queue: VecDeque::new(), capacity, dropped: 0 }
    }

    /// Offers a message without waiting: it is queued when there is room,
    /// else dropped and counted (saturating at the largest count).
    pub fn offer(&mut self, msg: T) -> (r: bool)
        requires
            old(self).wf(),
        ensures
            final(self).wf(),
            final(self).spec_capacity() == old(self).spec_capacity(),
            r == (old(self).contents().len() < old(self).spec_capacity()),
            r ==> final(self).contents() == old(self).contents().push(msg)
                && final(self).spec_dropped() == old(self).spec_dropped(),
            !r ==> final(self).contents() == old(self).contents()
                && final(self).spec_dropped() == (if old(self).spec_dropped() < u64::MAX {
                    old(self).spec_dropped() + 1
                } else {
                    old(self).spec_dropped()
                }),
    {
        if self.queue.len() < self.capacity {
            self.queue.push_back(msg);
            true
        } else {
            if self.dropped < u64::MAX {
                self.dropped = self.dropped + 1;
            }
            false
        }
    }

    /// Takes the oldest queued message.
    pub fn receive(&mut self) -> (r: Option<T>)
        requires
            old(self).wf(),
        ensures
            final(self).wf(),
            final(self).spec_capacity() == old(self).spec_capacity(),
            final(self).spec_dropped() == old(self).spec_dropped(),
            old(self).contents().len() == 0 ==> r.is_none() && final(self).contents() == old(self).contents(),
            old(self).contents().len() > 0 ==> r == Some(old(self).contents()[0])
                && final(self).contents() == old(self).contents().drop_first(),
    {
        self.queue.pop_front()
    }

    pub fn len(&self) -> (r: usize)
        ensures
            r == self.contents().len(),
    {
        self.queue.len()
    }

    /// Messages dropped because the mailbox was full.
    pub fn dropped_count(&self) -> (r: u64)
        ensures
            r == self.spec_dropped(),
    {
        self.dropped
    }

    /// Queues the given history, oldest first, and stops at the first
    /// message that does not fit. Returns how many were queued.
    pub fn replay(&mut self, history: Vec<T>) -> (n: usize)
        requires
            old(self).wf(),
        ensures
            final(self).wf(),
            final(self).spec_capacity() == old(self).spec_capacity(),
            final(self).spec_dropped() == old(self).spec_dropped(),
            n == (if history@.len() <= old(self).spec_capacity() - old(self).contents().len() {
                history@.len()
            } else {
                (old(self).spec_capacity() - old(self).contents().len()) as nat
            }),
            final(self).contents() == old(self).contents() + history@.subrange(0, n as int),
    {
        let ghost h = history@;
        let mut rest = history;
        let mut n: usize = 0;
        while rest.len() > 0 && self.queue.len() < self.capacity
            invariant
                self.wf(),
                self.capacity == old(self).capacity,
                self.dropped == old(self).dropped,
                n <= h.len(),
                rest@ == h.subrange(n as int, h.len() as int),
                self.queue@ == old(self).queue@ + h.subrange(0, n as int),
            decreases rest@.len(),
        {
            let m = rest.remove(0);
            self.queue.push_back(m);
            proof {
                assert(h.subrange(0, n + 1) == h.subrange(0, n as int).push(m));
                assert(self.queue@ =~= old(self).queue@ + h.subrange(0, n + 1));
                assert(rest@ =~= h.subrange(n + 1, h.len() as int));
            }
            n = n + 1;
        }
        n
    }
}

/// A subscriber registered on a job: its filter and its mailbox.
pub struct Subscriber<T> {
    pub subscriber_id: u128,
    pub subscription: SubscribePayload,
    pub mailbox: Mailbox<T>,
}

/// `after` is `before` once `msg` was offered to it, if its filter takes
/// `kind`: the message was queued once, or the mailbox was full and the drop
/// was counted. A subscriber whose filter refuses `kind` is left as it was.
pub open spec fn offered_once<T: Clone>(before: Subscriber<T>, after: Subscriber<T>, kind: MessageKind, msg: T) -> bool {
    &&& after.subscriber_id == before.subscriber_id
    &&& after.subscription == before.subscription
    &&& after.mailbox.wf()
    &&& after.mailbox.spec_capacity() == before.mailbox.spec_capacity()
    &&& if spec_wants(before.subscription, kind) {
        if before.mailbox.contents().len() < before.mailbox.spec_capacity() {
            &&& after.mailbox.contents().len() == before.mailbox.contents().len() + 1
            &&& after.mailbox.contents().drop_last() == before.mailbox.contents()
            &&& cloned(msg, after.mailbox.contents().last())
            &&& after.mailbox.spec_dropped() == before.mailbox.spec_dropped()
        } else {
            &&& after.mailbox.contents() == before.mailbox.contents()
            &&& after.mailbox.spec_dropped() == (if before.mailbox.spec_dropped() < u64::MAX {
                before.mailbox.spec_dropped() + 1
            } else {
                before.mailbox.spec_dropped()
            })
        }
    } else {
        &&& after.mailbox.contents() == before.mailbox.contents()
        &&& after.mailbox.spec_dropped() == before.mailbox.spec_dropped()
    }
}

/// Offers a message of the given kind to every subscriber whose filter takes
/// it, without waiting; a full mailbox drops it for that subscriber only.
/// Returns how many subscribers received it.
pub fn fan_out<T: Clone>(subscribers: &mut Vec<Subscriber<T>>, kind: MessageKind, msg: &T) -> (delivered: usize)
    requires
        forall|i: int| 0 <= i < old(subscribers)@.len() ==> (#[trigger] old(subscribers)@[i]).mailbox.wf(),
    ensures
        final(subscribers)@.len() == old(subscribers)@.len(),
        forall|i: int| 0 <= i < final(subscribers)@.len() ==>
            offered_once(old(subscribers)@[i], #[trigger] final(subscribers)@[i], kind, *msg),
        delivered <= final(subscribers)@.len(),
{
    let mut i: usize = 0;
    let mut delivered: usize = 0;
    while i < subscribers.len()
        invariant
            subscribers@.len() == old(subscribers)@.len(),
            i <= subscribers@.len(),
            delivered <= i,
            forall|k: int| 0 <= k < i ==> offered_once(old(subscribers)@[k], #[trigger] subscribers@[k], kind, *msg),
            forall|k: int| i <= k < subscribers@.len() ==> #[trigger] subscribers@[k] == old(subscribers)@[k],
            forall|k: int| 0 <= k < old(subscribers)@.len() ==> (#[trigger] old(subscribers)@[k]).mailbox.wf(),
        decreases subscribers@.len() - i,
    {
        if subscribers[i].subscription.wants(kind) {
            let copy = msg.clone();
            let ok = subscribers[i].mailbox.offer(copy);
            if ok {
                delivered = delivered + 1;
            }
            proof {
                let a = subscribers@[i as int];
                let b = old(subscribers)@[i as int];
                if ok {
                    assert(a.mailbox.contents().drop_last() =~= b.mailbox.contents());
                }
            }
        }
        i = i + 1;
    }
    delivered
}

/// Acknowledges a streaming message by its number.
#[derive(Debug, Clone, Copy, PartialEq, Eq, Structural)]
pub struct AckPayload {
    pub message_id: u64,
}

/// Settings of the measurement-streaming server. The heartbeat interval is
/// in milliseconds.
#[derive(Debug, Clone, Copy, PartialEq, Eq, Structural)]
pub struct StreamingServerConfig {
    pub max_subscribers_per_job: usize,
    pub replay_buffer_size: usize,
    pub statistics_interval_shots: usize,
    pub heartbeat_interval_ms: u64,
    pub message_buffer_size: usize,
    pub backpressure_threshold: usize,
}

impl StreamingServerConfig {
    /// 100 subscribers per job, 1000 replayed messages, statistics every 100
    /// shots, a heartbeat every 30 s, mailboxes of 10000, backpressure at 5000.
    pub fn default_config() -> (r: Self)
        ensures
            r == (StreamingServerConfig {
                max_subscribers_per_job: 100,
                replay_buffer_size: 1000,
                statistics_interval_shots: 100,
                heartbeat_interval_ms: 30000,
                message_buffer_size: 10000,
                backpressure_threshold: 5000,
            }),
    {
        StreamingServerConfig {
            max_subscribers_per_job: 100,
            replay_buffer_size: 1000,
            statistics_interval_shots: 100,
            heartbeat_interval_ms: 30000,
            message_buffer_size: 10000,
            backpressure_threshold: 5000,
        }
    }
}

/// A message offered to a subscriber whose filter takes it is either
/// queued in its mailbox exactly once, or the mailbox was full and the
/// message is counted as dropped for that subscriber; never both.
pub proof fn lemma_delivered_once_or_dropped<T: Clone>(before: Subscriber<T>, after: Subscriber<T>, kind: MessageKind, msg: T)
    requires
        offered_once(before, after, kind, msg),
        spec_wants(before.subscription, kind),
        before.mailbox.spec_dropped() < u64::MAX,
    ensures
        ({
            &&& after.mailbox.contents() == before.mailbox.contents().push(after.mailbox.contents().last())
            &&& cloned(msg, after.mailbox.contents().last())
            &&& after.mailbox.spec_dropped() == before.mailbox.spec_dropped()
        }) != ({
            &&& after.mailbox.contents() == before.mailbox.contents()
            &&& after.mailbox.spec_dropped() == before.mailbox.spec_dropped() + 1
        }),
{
    if before.mailbox.contents().len() < before.mailbox.spec_capacity() {
        let c = after.mailbox.contents();
        assert(c == c.drop_last().push(c.last()));
    }
}

} // verus!
