use vstd::prelude::*;
use vstd::string::StringExecFns;
use crate::aggregator::{count_of, BitstringCount, StreamAggregator};
use crate::measurement::bit_text;
use crate::error::{ExecutionError, QuantumRuntimeError};
use crate::measurement::MeasurementEvent;
use crate::platform::fresh_id;
use crate::streaming::{
    fan_out, offered_once, BackpressureGovernor, Mailbox, MessageKind, ReplayBuffer, SequencedMessage,
    StreamingServerConfig, SubscribePayload, Subscriber,
};

verus! {

/// The streaming state of one job.
pub struct JobStreamContext<T> {
    pub job_id: u128,
    pub replay_buffer: ReplayBuffer<T>,
    pub aggregator: StreamAggregator,
    pub backpressure: BackpressureGovernor,
    pub subscribers: Vec<Subscriber<T>>,
    pub total_shots: usize,
    pub completed: bool,
}

impl<T: Clone> JobStreamContext<T> {
    pub open spec fn wf(&self) -> bool {
        &&& self.replay_buffer.wf()
        &&& self.aggregator.wf()
        &&& self.backpressure.wf()
        &&& forall|i: int| 0 <= i < self.subscribers@.len() ==> (#[trigger] self.subscribers@[i]).mailbox.wf()
    }
}

/// `new` is `old` after `msg` was recorded: the next sequence number, the
/// oldest message evicted when full.
pub open spec fn replay_pushed<T: Clone>(old: ReplayBuffer<T>, new: ReplayBuffer<T>, msg: T) -> bool {
    &&& new.wf()
    &&& new.spec_capacity() == old.spec_capacity()
    &&& new.last_sequence() == old.last_sequence() + 1
    &&& old.spec_capacity() == 0 ==> new.entries().len() == 0
    &&& old.spec_capacity() > 0 ==> {
        let kept = if old.entries().len() >= old.spec_capacity() { old.entries().drop_first() } else { old.entries() };
        new.entries() == kept.push(SequencedMessage { sequence: new.last_sequence() as u64, message: msg })
    }
}

/// Two subscribers with the same identifier, filter and mailbox contents.
pub open spec fn same_subscriber<T>(a: Subscriber<T>, b: Subscriber<T>) -> bool {
    &&& a.subscriber_id == b.subscriber_id
    &&& a.subscription == b.subscription
    &&& a.mailbox.contents() == b.mailbox.contents()
    &&& a.mailbox.spec_capacity() == b.mailbox.spec_capacity()
    &&& a.mailbox.spec_dropped() == b.mailbox.spec_dropped()
}

/// Per-job broadcaster with replay for late subscribers, rolling counts,
/// backpressure, and per-subscriber bounded mailboxes.
pub struct MeasurementStreamServer<T> {
    server_id: u128,
    jobs: Vec<JobStreamContext<T>>,
    config: StreamingServerConfig,
}

impl<T: Clone> MeasurementStreamServer<T> {
    pub closed spec fn contexts(&self) -> Seq<JobStreamContext<T>> {
        self.jobs@
    }

    pub closed spec fn spec_config(&self) -> StreamingServerConfig {
        self.config
    }

    /// Every job's state is well formed and no job is registered twice.
    pub open spec fn wf(&self) -> bool {
        &&& forall|i: int| 0 <= i < self.contexts().len() ==> (#[trigger] self.contexts()[i]).wf()
        &&& forall|i: int, j: int| 0 <= i < j < self.contexts().len()
            ==> #[trigger] self.contexts()[i].job_id != #[trigger] self.contexts()[j].job_id
    }

    /// Whether a job with this identifier is registered.
    pub open spec fn has_job(&self, job_id: u128) -> bool {
        exists|i: int| 0 <= i < self.contexts().len() && #[trigger] self.contexts()[i].job_id == job_id
    }

    /// A server with no jobs.
    pub fn new(config: StreamingServerConfig) -> (r: Self)
        ensures
            r.wf(),
            r.contexts().len() == 0,
            r.spec_config() == config,
    {
        MeasurementStreamServer { server_id: fresh_id(), jobs: Vec::new(), config }
    }

    fn find_job(&self, job_id: u128) -> (r: Option<usize>)
        requires
            self.wf(),
        ensures
            r.is_none() <==> !self.has_job(job_id),
            r.is_some() ==> r.unwrap() < self.contexts().len() && self.contexts()[r.unwrap() as int].job_id == job_id,
    {
        let mut i: usize = 0;
        while i < self.jobs.len()
            invariant
                i <= self.contexts().len(),
                forall|j: int| 0 <= j < i ==> #[trigger] self.contexts()[j].job_id != job_id,
            decreases self.contexts().len() - i,
        {
            if self.jobs[i].job_id == job_id {
                return Some(i);
            }
            i = i + 1;
        }
        None
    }

    /// Registers a job with fresh streaming state (replacing any earlier
    /// state of the same job): an empty replay buffer, no counts, nothing in
    /// flight, no subscribers.
    pub fn register_job(&mut self, job_id: u128, total_shots: usize)
        requires
            old(self).wf(),
        ensures
            final(self).wf(),
            final(self).has_job(job_id),
            final(self).spec_config() == old(self).spec_config(),
            forall|id: u128| id != job_id ==> (#[trigger] final(self).has_job(id) == old(self).has_job(id)),
            ({
                let c = final(self).contexts()[final(self).index_of(job_id)];
                &&& c.job_id == job_id
                &&& c.total_shots == total_shots
                &&& !c.completed
                &&& c.replay_buffer.entries().len() == 0
                &&& c.replay_buffer.last_sequence() == 0
                &&& c.replay_buffer.spec_capacity() == old(self).spec_config().replay_buffer_size
                &&& c.aggregator.total() == 0
                &&& c.aggregator.entries().len() == 0
                &&& c.aggregator.interval() == old(self).spec_config().statistics_interval_shots
                &&& c.backpressure.pending() == 0
                &&& c.backpressure.spec_threshold() == old(self).spec_config().backpressure_threshold
                &&& c.subscribers@.len() == 0
            }),
    {
        let context = JobStreamContext {
            job_id,
            replay_buffer: ReplayBuffer::new(self.config.replay_buffer_size),
            aggregator: StreamAggregator::new(self.config.statistics_interval_shots),
            backpressure: BackpressureGovernor::new(self.config.backpressure_threshold),
            subscribers: Vec::new(),
            total_shots,
            completed: false,
        };
        match self.find_job(job_id) {
            Some(i) => {
                self.jobs.set(i, context);
                proof {
                    assert(self.contexts()[i as int].job_id == job_id);
                    assert(self.wf()) by {
                        assert forall|a: int, b: int| 0 <= a < b < self.contexts().len() implies
                            #[trigger] self.contexts()[a].job_id != #[trigger] self.contexts()[b].job_id by {
                            assert(old(self).contexts()[a].job_id != old(self).contexts()[b].job_id);
                        }
                    }
                    self.lemma_index_of(i as int);
                    assert forall|id: u128| id != job_id implies (#[trigger] self.has_job(id) == old(self).has_job(id)) by {
                        if old(self).has_job(id) {
                            let k = choose|k: int| 0 <= k < old(self).contexts().len() && #[trigger] old(self).contexts()[k].job_id == id;
                            assert(self.contexts()[k].job_id == id);
                        }
                        if self.has_job(id) {
                            let k = choose|k: int| 0 <= k < self.contexts().len() && #[trigger] self.contexts()[k].job_id == id;
                            assert(old(self).contexts()[k].job_id == id);
                        }
                    }
                }
            },
            None => {
                self.jobs.push(context);
                proof {
                    let last = self.contexts().len() - 1;
                    assert(self.contexts()[last].job_id == job_id);
                    assert(self.wf()) by {
                        assert forall|a: int, b: int| 0 <= a < b < self.contexts().len() implies
                            #[trigger] self.contexts()[a].job_id != #[trigger] self.contexts()[b].job_id by {
                            if b == last {
                                assert(old(self).contexts()[a].job_id != job_id);
                            } else {
                                assert(old(self).contexts()[a].job_id != old(self).contexts()[b].job_id);
                            }
                        }
                    }
                    self.lemma_index_of(last);
                    assert forall|id: u128| id != job_id implies (#[trigger] self.has_job(id) == old(self).has_job(id)) by {
                        if old(self).has_job(id) {
                            let k = choose|k: int| 0 <= k < old(self).contexts().len() && #[trigger] old(self).contexts()[k].job_id == id;
                            assert(self.contexts()[k].job_id == id);
                        }
                        if self.has_job(id) {
                            let k = choose|k: int| 0 <= k < self.contexts().len() && #[trigger] self.contexts()[k].job_id == id;
                            assert(old(self).contexts()[k].job_id == id);
                        }
                    }
                }
            },
        }
    }

    /// The index of the job's state; the job must be registered.
    pub open spec fn index_of(&self, job_id: u128) -> int {
        choose|i: int| 0 <= i < self.contexts().len() && #[trigger] self.contexts()[i].job_id == job_id
    }

    /// Whether the job is registered and not yet completed.
    pub open spec fn is_live(&self, job_id: u128) -> bool {
        self.has_job(job_id) && !self.contexts()[self.index_of(job_id)].completed
    }

    proof fn lemma_index_of(&self, i: int)
        requires
            self.wf(),
            0 <= i < self.contexts().len(),
        ensures
            self.has_job(self.contexts()[i].job_id),
            self.index_of(self.contexts()[i].job_id) == i,
    {
        let id = self.contexts()[i].job_id;
        assert(self.has_job(id));
        let k = self.index_of(id);
        if k != i {
            if k < i {
                assert(self.contexts()[k].job_id != self.contexts()[i].job_id);
            } else {
                assert(self.contexts()[i].job_id != self.contexts()[k].job_id);
            }
        }
    }

    /// Records a measurement of a live job: appends `msg` to the job's replay
    /// buffer, counts the event, and offers `msg` to every subscriber that
    /// takes measurements (a full mailbox drops it for that subscriber only).
    /// Returns whether a statistics snapshot is due. A job that is not
    /// registered, or already completed, is not found.
    pub fn publish_measurement(&mut self, event: &MeasurementEvent, msg: T) -> (r: Result<bool, QuantumRuntimeError>)
        requires
            old(self).wf(),
        ensures
            final(self).wf(),
            final(self).spec_config() == old(self).spec_config(),
            final(self).contexts().len() == old(self).contexts().len(),
            !old(self).is_live(event.job_id) ==> r == Err::<bool, QuantumRuntimeError>(
                QuantumRuntimeError::Execution(ExecutionError::JobNotFound(event.job_id)))
                && final(self).contexts() == old(self).contexts(),
            old(self).is_live(event.job_id) && r.is_ok() ==> {
                let i = old(self).index_of(event.job_id);
                let before = old(self).contexts()[i];
                let after = final(self).contexts()[i];
                &&& replay_pushed(before.replay_buffer, after.replay_buffer, msg)
                &&& after.aggregator.total() == before.aggregator.total() + 1
                &&& forall|key: Seq<char>| #[trigger] count_of(after.aggregator.entries(), key)
                    == count_of(before.aggregator.entries(), key)
                    + if key == bit_text(event.measurement_bitstring@) { 1nat } else { 0nat }
                &&& r == Ok::<bool, QuantumRuntimeError>(before.aggregator.since_emit() + 1 >= before.aggregator.interval())
                &&& after.subscribers@.len() == before.subscribers@.len()
                &&& forall|k: int| 0 <= k < after.subscribers@.len() ==> offered_once(
                    before.subscribers@[k], #[trigger] after.subscribers@[k], MessageKind::MeasurementEvent, msg)
                &&& after.job_id == before.job_id
                &&& !after.completed
                &&& forall|j: int| 0 <= j < final(self).contexts().len() && j != i
                    ==> #[trigger] final(self).contexts()[j] == old(self).contexts()[j]
            },
            old(self).is_live(event.job_id) && r.is_err() ==> final(self).contexts() == old(self).contexts()
                && (old(self).contexts()[old(self).index_of(event.job_id)].replay_buffer.last_sequence() == u64::MAX
                    || old(self).contexts()[old(self).index_of(event.job_id)].aggregator.total() == usize::MAX),
    {
        let found = self.find_job(event.job_id);
        let i = match found {
            None => {
                return Err(QuantumRuntimeError::Execution(ExecutionError::JobNotFound(event.job_id)));
            },
            Some(i) => i,
        };
        proof {
            self.lemma_index_of(i as int);
        }
        if self.jobs[i].completed {
            return Err(QuantumRuntimeError::Execution(ExecutionError::JobNotFound(event.job_id)));
        }
        if self.jobs[i].replay_buffer.current_message_id() == u64::MAX
            || self.jobs[i].aggregator.total_count() == usize::MAX {
            return Err(QuantumRuntimeError::Internal(String::from_str("stream counters exhausted")));
        }
        let ghost before = self.jobs@[i as int];
        let mut ctx = self.jobs.remove(i);
        fan_out(&mut ctx.subscribers, MessageKind::MeasurementEvent, &msg);
        ctx.replay_buffer.push(msg);
        let due = ctx.aggregator.add_measurement(event);
        self.jobs.insert(i, ctx);
        proof {
            assert forall|j: int| 0 <= j < self.contexts().len() && j != i implies
                #[trigger] self.contexts()[j] == old(self).contexts()[j] by {}
            assert forall|a: int, b: int| 0 <= a < b < self.contexts().len() implies
                #[trigger] self.contexts()[a].job_id != #[trigger] self.contexts()[b].job_id by {
                assert(old(self).contexts()[a].job_id != old(self).contexts()[b].job_id);
            }
        }
        Ok(due)
    }

    proof fn lemma_replaced(&self, old_self: &Self, i: int)
        requires
            old_self.wf(),
            0 <= i < old_self.contexts().len(),
            self.contexts().len() == old_self.contexts().len(),
            self.contexts()[i].job_id == old_self.contexts()[i].job_id,
            self.contexts()[i].wf(),
            forall|j: int| 0 <= j < self.contexts().len() && j != i
                ==> #[trigger] self.contexts()[j] == old_self.contexts()[j],
        ensures
            self.wf(),
    {
        assert forall|a: int, b: int| 0 <= a < b < self.contexts().len() implies
            #[trigger] self.contexts()[a].job_id != #[trigger] self.contexts()[b].job_id by {
            assert(old_self.contexts()[a].job_id != old_self.contexts()[b].job_id);
        }
        assert forall|a: int| 0 <= a < self.contexts().len() implies (#[trigger] self.contexts()[a]).wf() by {
            if a != i {
                assert(self.contexts()[a] == old_self.contexts()[a]);
            }
        }
    }

    /// Subscribes to a registered job: a new mailbox of the configured
    /// capacity receives the replay history, oldest first, until it is full
    /// (a late joiner may get a truncated history), and is then registered.
    /// Returns the new subscriber's identifier.
    pub fn subscribe(&mut self, job_id: u128, subscription: SubscribePayload) -> (r: Result<u128, QuantumRuntimeError>)
        requires
            old(self).wf(),
        ensures
            final(self).wf(),
            final(self).spec_config() == old(self).spec_config(),
            final(self).contexts().len() == old(self).contexts().len(),
            !old(self).has_job(job_id) ==> r == Err::<u128, QuantumRuntimeError>(
                QuantumRuntimeError::Execution(ExecutionError::JobNotFound(job_id)))
                && final(self).contexts() == old(self).contexts(),
            old(self).has_job(job_id) ==> r.is_ok() && {
                let i = old(self).index_of(job_id);
                let before = old(self).contexts()[i];
                let after = final(self).contexts()[i];
                let history = before.replay_buffer.entries();
                let n = if history.len() <= old(self).spec_config().message_buffer_size {
                    history.len()
                } else {
                    old(self).spec_config().message_buffer_size as nat
                };
                &&& after.subscribers@.len() == before.subscribers@.len() + 1
                &&& after.subscribers@.drop_last() == before.subscribers@
                &&& after.subscribers@.last().subscriber_id == r.unwrap()
                &&& after.subscribers@.last().subscription == subscription
                &&& after.subscribers@.last().mailbox.spec_capacity() == old(self).spec_config().message_buffer_size
                &&& after.subscribers@.last().mailbox.contents().len() == n
                &&& forall|k: int| 0 <= k < n ==> cloned(#[trigger] history[k].message,
                    after.subscribers@.last().mailbox.contents()[k])
                &&& after.replay_buffer == before.replay_buffer
                &&& after.aggregator == before.aggregator
                &&& after.backpressure == before.backpressure
                &&& after.job_id == before.job_id
                &&& after.completed == before.completed
                &&& forall|j: int| 0 <= j < final(self).contexts().len() && j != i
                    ==> #[trigger] final(self).contexts()[j] == old(self).contexts()[j]
            },
    {
        let i = match self.find_job(job_id) {
            None => {
                return Err(QuantumRuntimeError::Execution(ExecutionError::JobNotFound(job_id)));
            },
            Some(i) => i,
        };
        proof {
            self.lemma_index_of(i as int);
        }
        let mut mailbox: Mailbox<T> = Mailbox::new(self.config.message_buffer_size);
        let history = self.jobs[i].replay_buffer.get_all();
        let ghost h = history@;
        mailbox.replay(history);
        let subscriber_id = fresh_id();
        let mut ctx = self.jobs.remove(i);
        ctx.subscribers.push(Subscriber { subscriber_id, subscription, mailbox });
        self.jobs.insert(i, ctx);
        proof {
            assert(self.contexts()[i as int].subscribers@.drop_last() =~= old(self).contexts()[i as int].subscribers@);
            assert forall|j: int| 0 <= j < self.contexts().len() && j != i implies
                #[trigger] self.contexts()[j] == old(self).contexts()[j] by {}
            assert forall|a: int| 0 <= a < self.contexts()[i as int].subscribers@.len() implies
                (#[trigger] self.contexts()[i as int].subscribers@[a]).mailbox.wf() by {
                if a < old(self).contexts()[i as int].subscribers@.len() {
                    assert(self.contexts()[i as int].subscribers@[a] == old(self).contexts()[i as int].subscribers@[a]);
                }
            }
            self.lemma_replaced(old(self), i as int);
        }
        Ok(subscriber_id)
    }

    /// Takes the oldest message waiting for a subscriber of a job; `None`
    /// when the job or the subscriber is unknown or nothing is waiting.
    pub fn receive(&mut self, job_id: u128, subscriber_id: u128) -> (r: Option<T>)
        requires
            old(self).wf(),
        ensures
            final(self).wf(),
            final(self).spec_config() == old(self).spec_config(),
            final(self).contexts().len() == old(self).contexts().len(),
            !old(self).has_job(job_id) ==> r.is_none() && final(self).contexts() == old(self).contexts(),
            old(self).has_job(job_id) ==> {
                let i = old(self).index_of(job_id);
                let before = old(self).contexts()[i].subscribers@;
                let after = final(self).contexts()[i].subscribers@;
                &&& final(self).contexts()[i].job_id == job_id
                &&& after.len() == before.len()
                &&& r.is_none() ==> forall|a: int| 0 <= a < before.len() ==> same_subscriber(#[trigger] after[a], before[a])
                &&& r.is_some() ==> exists|k: int| {
                    &&& 0 <= k < before.len()
                    &&& #[trigger] before[k].subscriber_id == subscriber_id
                    &&& (forall|a: int| 0 <= a < k ==> #[trigger] before[a].subscriber_id != subscriber_id)
                    &&& before[k].mailbox.contents().len() > 0
                    &&& r == Some(before[k].mailbox.contents()[0])
                    &&& after[k].mailbox.contents() == before[k].mailbox.contents().drop_first()
                    &&& after[k].mailbox.spec_dropped() == before[k].mailbox.spec_dropped()
                    &&& after[k].subscriber_id == before[k].subscriber_id
                    &&& after[k].subscription == before[k].subscription
                    &&& forall|a: int| 0 <= a < before.len() && a != k ==> #[trigger] after[a] == before[a]
                }
                &&& (exists|k: int| {
                    &&& 0 <= k < before.len()
                    &&& #[trigger] before[k].subscriber_id == subscriber_id
                    &&& (forall|a: int| 0 <= a < k ==> #[trigger] before[a].subscriber_id != subscriber_id)
                    &&& before[k].mailbox.contents().len() > 0
                }) ==> r.is_some()
                &&& forall|j: int| 0 <= j < final(self).contexts().len() && j != i
                    ==> #[trigger] final(self).contexts()[j] == old(self).contexts()[j]
            },
    {
        let i = match self.find_job(job_id) {
            None => {
                return None;
            },
            Some(i) => i,
        };
        proof {
            self.lemma_index_of(i as int);
        }
        let mut ctx = self.jobs.remove(i);
        let ghost subs = ctx.subscribers@;
        let mut k: usize = 0;
        while k < ctx.subscribers.len() && ctx.subscribers[k].subscriber_id != subscriber_id
            invariant
                ctx.subscribers@ == subs,
                k <= subs.len(),
                forall|a: int| 0 <= a < k ==> #[trigger] subs[a].subscriber_id != subscriber_id,
            decreases subs.len() - k,
        {
            k = k + 1;
        }
        let mut result: Option<T> = None;
        proof {
            assert forall|a: int| 0 <= a < subs.len() implies same_subscriber(#[trigger] ctx.subscribers@[a], subs[a]) by {}
        }
        if k < ctx.subscribers.len() {
            result = ctx.subscribers[k].mailbox.receive();
            proof {
                assert forall|a: int| 0 <= a < ctx.subscribers@.len() implies
                    (#[trigger] ctx.subscribers@[a]).mailbox.wf() by {
                    if a != k {
                        assert(ctx.subscribers@[a] == subs[a]);
                    }
                }
                if result.is_none() {
                    assert forall|a: int| 0 <= a < subs.len() implies same_subscriber(#[trigger] ctx.subscribers@[a], subs[a]) by {
                        if a != k {
                            assert(ctx.subscribers@[a] == subs[a]);
                        }
                    }
                }
            }
        }
        self.jobs.insert(i, ctx);
        proof {
            assert forall|j: int| 0 <= j < self.contexts().len() && j != i implies
                #[trigger] self.contexts()[j] == old(self).contexts()[j] by {}
            self.lemma_replaced(old(self), i as int);
            assert(subs == old(self).contexts()[i as int].subscribers@);
            if k < subs.len() {
                assert(subs[k as int].subscriber_id == subscriber_id);
            } else {
                assert forall|q: int| 0 <= q < subs.len() implies #[trigger] subs[q].subscriber_id != subscriber_id by {}
            }
        }
        result
    }

    /// Offers the job's completion message to every subscriber of a live job
    /// and closes the job to further measurements. An unknown job is not
    /// found; a completed one is already completed.
    pub fn complete_job(&mut self, job_id: u128, completed_msg: T) -> (r: Result<(), QuantumRuntimeError>)
        requires
            old(self).wf(),
        ensures
            final(self).wf(),
            final(self).spec_config() == old(self).spec_config(),
            final(self).contexts().len() == old(self).contexts().len(),
            !old(self).has_job(job_id) ==> r == Err::<(), QuantumRuntimeError>(
                QuantumRuntimeError::Execution(ExecutionError::JobNotFound(job_id)))
                && final(self).contexts() == old(self).contexts(),
            old(self).has_job(job_id) && !old(self).is_live(job_id) ==> r == Err::<(), QuantumRuntimeError>(
                QuantumRuntimeError::Execution(ExecutionError::JobAlreadyCompleted(job_id)))
                && final(self).contexts() == old(self).contexts(),
            old(self).is_live(job_id) ==> r.is_ok() && {
                let i = old(self).index_of(job_id);
                let before = old(self).contexts()[i];
                let after = final(self).contexts()[i];
                &&& after.completed
                &&& after.subscribers@.len() == before.subscribers@.len()
                &&& forall|k: int| 0 <= k < after.subscribers@.len() ==> offered_once(
                    before.subscribers@[k], #[trigger] after.subscribers@[k], MessageKind::JobCompleted, completed_msg)
                &&& after.replay_buffer == before.replay_buffer
                &&& after.aggregator == before.aggregator
                &&& after.job_id == before.job_id
                &&& forall|j: int| 0 <= j < final(self).contexts().len() && j != i
                    ==> #[trigger] final(self).contexts()[j] == old(self).contexts()[j]
            },
    {
        let i = match self.find_job(job_id) {
            None => {
                return Err(QuantumRuntimeError::Execution(ExecutionError::JobNotFound(job_id)));
            },
            Some(i) => i,
        };
        proof {
            self.lemma_index_of(i as int);
        }
        if self.jobs[i].completed {
            return Err(QuantumRuntimeError::Execution(ExecutionError::JobAlreadyCompleted(job_id)));
        }
        let mut ctx = self.jobs.remove(i);
        fan_out(&mut ctx.subscribers, MessageKind::JobCompleted, &completed_msg);
        ctx.completed = true;
        self.jobs.insert(i, ctx);
        proof {
            assert forall|j: int| 0 <= j < self.contexts().len() && j != i implies
                #[trigger] self.contexts()[j] == old(self).contexts()[j] by {}
            self.lemma_replaced(old(self), i as int);
        }
        Ok(())
    }

    /// Offers a statistics update to the subscribers of a live job that take
    /// statistics.
    pub fn publish_statistics(&mut self, job_id: u128, stats_msg: T) -> (r: Result<(), QuantumRuntimeError>)
        requires
            old(self).wf(),
        ensures
            final(self).wf(),
            final(self).spec_config() == old(self).spec_config(),
            final(self).contexts().len() == old(self).contexts().len(),
            !old(self).is_live(job_id) ==> r == Err::<(), QuantumRuntimeError>(
                QuantumRuntimeError::Execution(ExecutionError::JobNotFound(job_id)))
                && final(self).contexts() == old(self).contexts(),
            old(self).is_live(job_id) ==> r.is_ok() && {
                let i = old(self).index_of(job_id);
                let before = old(self).contexts()[i];
                let after = final(self).contexts()[i];
                &&& after.subscribers@.len() == before.subscribers@.len()
                &&& forall|k: int| 0 <= k < after.subscribers@.len() ==> offered_once(
                    before.subscribers@[k], #[trigger] after.subscribers@[k], MessageKind::StatisticsUpdate, stats_msg)
                &&& after.replay_buffer == before.replay_buffer
                &&& after.aggregator == before.aggregator
                &&& after.job_id == before.job_id
                &&& after.completed == before.completed
                &&& forall|j: int| 0 <= j < final(self).contexts().len() && j != i
                    ==> #[trigger] final(self).contexts()[j] == old(self).contexts()[j]
            },
    {
        let i = match self.find_job(job_id) {
            None => {
                return Err(QuantumRuntimeError::Execution(ExecutionError::JobNotFound(job_id)));
            },
            Some(i) => i,
        };
        proof {
            self.lemma_index_of(i as int);
        }
        if self.jobs[i].completed {
            return Err(QuantumRuntimeError::Execution(ExecutionError::JobNotFound(job_id)));
        }
        let mut ctx = self.jobs.remove(i);
        fan_out(&mut ctx.subscribers, MessageKind::StatisticsUpdate, &stats_msg);
        self.jobs.insert(i, ctx);
        proof {
            assert forall|j: int| 0 <= j < self.contexts().len() && j != i implies
                #[trigger] self.contexts()[j] == old(self).contexts()[j] by {}
            self.lemma_replaced(old(self), i as int);
        }
        Ok(())
    }

    /// Admits one more in-flight measurement for a live job when fewer than
    /// the backpressure threshold are in flight. Returns false when refused;
    /// the producer then waits for a release and tries again.
    pub fn try_acquire_publish(&mut self, job_id: u128) -> (r: Result<bool, QuantumRuntimeError>)
        requires
            old(self).wf(),
        ensures
            final(self).wf(),
            final(self).spec_config() == old(self).spec_config(),
            final(self).contexts().len() == old(self).contexts().len(),
            !old(self).is_live(job_id) ==> r == Err::<bool, QuantumRuntimeError>(
                QuantumRuntimeError::Execution(ExecutionError::JobNotFound(job_id)))
                && final(self).contexts() == old(self).contexts(),
            old(self).is_live(job_id) ==> {
                let i = old(self).index_of(job_id);
                let before = old(self).contexts()[i].backpressure;
                let after = final(self).contexts()[i].backpressure;
                &&& r == Ok::<bool, QuantumRuntimeError>(before.pending() < before.spec_threshold())
                &&& after.spec_threshold() == before.spec_threshold()
                &&& after.pending() == before.pending() + if before.pending() < before.spec_threshold() { 1nat } else { 0nat }
                &&& final(self).contexts()[i].job_id == job_id
                &&& final(self).contexts()[i].completed == old(self).contexts()[i].completed
            },
    {
        let i = match self.find_job(job_id) {
            None => {
                return Err(QuantumRuntimeError::Execution(ExecutionError::JobNotFound(job_id)));
            },
            Some(i) => i,
        };
        proof {
            self.lemma_index_of(i as int);
        }
        if self.jobs[i].completed {
            return Err(QuantumRuntimeError::Execution(ExecutionError::JobNotFound(job_id)));
        }
        let mut ctx = self.jobs.remove(i);
        let ok = ctx.backpressure.try_acquire();
        self.jobs.insert(i, ctx);
        proof {
            assert forall|j: int| 0 <= j < self.contexts().len() && j != i implies
                #[trigger] self.contexts()[j] == old(self).contexts()[j] by {}
            self.lemma_replaced(old(self), i as int);
        }
        Ok(ok)
    }

    /// Marks one in-flight measurement of a registered job as done.
    pub fn release_publish(&mut self, job_id: u128)
        requires
            old(self).wf(),
        ensures
            final(self).wf(),
            final(self).spec_config() == old(self).spec_config(),
            final(self).contexts().len() == old(self).contexts().len(),
            !old(self).has_job(job_id) ==> final(self).contexts() == old(self).contexts(),
            old(self).has_job(job_id) ==> {
                let i = old(self).index_of(job_id);
                let before = old(self).contexts()[i].backpressure;
                let after = final(self).contexts()[i].backpressure;
                &&& after.spec_threshold() == before.spec_threshold()
                &&& after.pending() == if before.pending() > 0 { before.pending() - 1 } else { 0 }
                &&& final(self).contexts()[i].job_id == job_id
            },
    {
        let i = match self.find_job(job_id) {
            None => {
                return;
            },
            Some(i) => i,
        };
        proof {
            self.lemma_index_of(i as int);
        }
        let mut ctx = self.jobs.remove(i);
        ctx.backpressure.release();
        self.jobs.insert(i, ctx);
        proof {
            assert forall|j: int| 0 <= j < self.contexts().len() && j != i implies
                #[trigger] self.contexts()[j] == old(self).contexts()[j] by {}
            self.lemma_replaced(old(self), i as int);
        }
    }

    /// Subscribers registered on the job (0 for an unknown job).
    pub fn subscriber_count(&self, job_id: u128) -> (r: usize)
        requires
            self.wf(),
        ensures
            !self.has_job(job_id) ==> r == 0,
            self.has_job(job_id) ==> r == self.contexts()[self.index_of(job_id)].subscribers@.len(),
    {
        match self.find_job(job_id) {
            None => 0,
            Some(i) => {
                proof {
                    self.lemma_index_of(i as int);
                }
                self.jobs[i].subscribers.len()
            },
        }
    }

    /// Copies of the messages the job's replay buffer holds, oldest first.
    pub fn replay_history(&self, job_id: u128) -> (r: Result<Vec<T>, QuantumRuntimeError>)
        requires
            self.wf(),
        ensures
            !self.has_job(job_id) ==> r == Err::<Vec<T>, QuantumRuntimeError>(
                QuantumRuntimeError::Execution(ExecutionError::JobNotFound(job_id))),
            self.has_job(job_id) ==> r.is_ok() && {
                let e = self.contexts()[self.index_of(job_id)].replay_buffer.entries();
                &&& r.unwrap()@.len() == e.len()
                &&& forall|k: int| 0 <= k < e.len() ==> cloned(#[trigger] e[k].message, r.unwrap()@[k])
            },
    {
        match self.find_job(job_id) {
            None => Err(QuantumRuntimeError::Execution(ExecutionError::JobNotFound(job_id))),
            Some(i) => {
                proof {
                    self.lemma_index_of(i as int);
                }
                Ok(self.jobs[i].replay_buffer.get_all())
            },
        }
    }

    /// The job's event total and its most frequent bitstrings (at most
    /// `limit`), most frequent first.
    pub fn statistics(&self, job_id: u128, limit: usize) -> (r: Result<(usize, Vec<BitstringCount>), QuantumRuntimeError>)
        requires
            self.wf(),
        ensures
            !self.has_job(job_id) ==> r == Err::<(usize, Vec<BitstringCount>), QuantumRuntimeError>(
                QuantumRuntimeError::Execution(ExecutionError::JobNotFound(job_id))),
            self.has_job(job_id) ==> r.is_ok() && {
                let a = self.contexts()[self.index_of(job_id)].aggregator;
                &&& r.unwrap().0 == a.total()
                &&& exists|full: Seq<BitstringCount>| {
                    &&& full.to_multiset() == a.entries().to_multiset()
                    &&& crate::aggregator::by_count_descending(full)
                    &&& r.unwrap().1@ == full.subrange(0, if limit <= full.len() { limit as int } else { full.len() as int })
                }
            },
    {
        match self.find_job(job_id) {
            None => Err(QuantumRuntimeError::Execution(ExecutionError::JobNotFound(job_id))),
            Some(i) => {
                proof {
                    self.lemma_index_of(i as int);
                }
                let total = self.jobs[i].aggregator.total_count();
                let top = self.jobs[i].aggregator.top_counts(limit);
                Ok((total, top))
            },
        }
    }

    /// Removes the subscriber with the given identifier from a job; false
    /// when there is no such job or subscriber.
    pub fn unsubscribe(&mut self, job_id: u128, subscriber_id: u128) -> (r: bool)
        requires
            old(self).wf(),
        ensures
            final(self).wf(),
            final(self).spec_config() == old(self).spec_config(),
            final(self).contexts().len() == old(self).contexts().len(),
            !old(self).has_job(job_id) ==> !r && final(self).contexts() == old(self).contexts(),
            old(self).has_job(job_id) ==> {
                let i = old(self).index_of(job_id);
                let before = old(self).contexts()[i].subscribers@;
                let after = final(self).contexts()[i].subscribers@;
                &&& r == exists|k: int| 0 <= k < before.len() && #[trigger] before[k].subscriber_id == subscriber_id
                &&& !r ==> after == before
                &&& r ==> exists|k: int| 0 <= k < before.len() && before[k].subscriber_id == subscriber_id
                    && #[trigger] before.remove(k) == after
                &&& final(self).contexts()[i].job_id == job_id
            },
    {
        let i = match self.find_job(job_id) {
            None => {
                return false;
            },
            Some(i) => i,
        };
        proof {
            self.lemma_index_of(i as int);
        }
        let mut ctx = self.jobs.remove(i);
        let ghost subs = ctx.subscribers@;
        let mut k: usize = 0;
        let mut removed = false;
        while k < ctx.subscribers.len() && ctx.subscribers[k].subscriber_id != subscriber_id
            invariant
                ctx.subscribers@ == subs,
                k <= subs.len(),
                forall|a: int| 0 <= a < k ==> #[trigger] subs[a].subscriber_id != subscriber_id,
            decreases subs.len() - k,
        {
            k = k + 1;
        }
        if k < ctx.subscribers.len() {
            let _gone = ctx.subscribers.remove(k);
            removed = true;
            proof {
                assert(subs.remove(k as int) == ctx.subscribers@);
                assert forall|a: int| 0 <= a < ctx.subscribers@.len() implies (#[trigger] ctx.subscribers@[a]).mailbox.wf() by {
                    if a < k {
                        assert(ctx.subscribers@[a] == subs[a]);
                    } else {
                        assert(ctx.subscribers@[a] == subs[a + 1]);
                    }
                }
            }
        }
        self.jobs.insert(i, ctx);
        proof {
            assert forall|j: int| 0 <= j < self.contexts().len() && j != i implies
                #[trigger] self.contexts()[j] == old(self).contexts()[j] by {}
            self.lemma_replaced(old(self), i as int);
            assert(subs == old(self).contexts()[i as int].subscribers@);
            if removed {
                assert(subs[k as int].subscriber_id == subscriber_id);
                assert(subs.remove(k as int) == self.contexts()[i as int].subscribers@);
            }
        }
        removed
    }
}

} // verus!
