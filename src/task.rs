use vstd::prelude::*;
use vstd::string::StringExecFns;
use crate::handle::{QuantumDeviceHandle, QuantumJobHandle, QuantumJobStatus};
use crate::message::{CircuitProgramMessage, GateInstruction};
use crate::platform::{fresh_id, now_secs};

verus! {

/// Lifecycle state of a classical process.
#[derive(Debug, Clone, Copy, PartialEq, Eq, Structural)]
pub enum ProcessState {
    Created,
    Ready,
    Running,
    Blocked,
    WaitingForQuantumResult,
    Terminated,
}

/// Priority of a classical process, lowest first.
#[derive(Debug, Clone, Copy, PartialEq, Eq, Structural)]
pub enum ProcessPriority {
    Idle,
    Low,
    Normal,
    High,
    Realtime,
}

impl ProcessPriority {
    pub open spec fn spec_rank(self) -> nat {
        match self {
            ProcessPriority::Idle => 0,
            ProcessPriority::Low => 1,
            ProcessPriority::Normal => 2,
            ProcessPriority::High => 3,
            ProcessPriority::Realtime => 4,
        }
    }

    /// The priority's place in the order Idle < Low < Normal < High < Realtime.
    pub fn rank(&self) -> (r: u8)
        ensures
            r == self.spec_rank(),
    {
        match self {
            ProcessPriority::Idle => 0,
            ProcessPriority::Low => 1,
            ProcessPriority::Normal => 2,
            ProcessPriority::High => 3,
            ProcessPriority::Realtime => 4,
        }
    }
}

/// Lifecycle state of a task inside a process.
#[derive(Debug, Clone, Copy, PartialEq, Eq, Structural)]
pub enum TaskState {
    Ready,
    Running,
    Blocked,
    Sleeping,
    Completed,
}

/// Priority of a quantum job, lowest first.
#[derive(Debug, Clone, Copy, PartialEq, Eq, Structural)]
pub enum QuantumJobPriority {
    Background,
    Normal,
    Elevated,
    Critical,
}

impl QuantumJobPriority {
    pub open spec fn spec_rank(self) -> nat {
        match self {
            QuantumJobPriority::Background => 0,
            QuantumJobPriority::Normal => 1,
            QuantumJobPriority::Elevated => 2,
            QuantumJobPriority::Critical => 3,
        }
    }

    /// The priority's place in the order Background < Normal < Elevated < Critical.
    pub fn rank(&self) -> (r: u8)
        ensures
            r == self.spec_rank(),
    {
        match self {
            QuantumJobPriority::Background => 0,
            QuantumJobPriority::Normal => 1,
            QuantumJobPriority::Elevated => 2,
            QuantumJobPriority::Critical => 3,
        }
    }
}

/// A classical process.
#[derive(Debug, Clone)]
pub struct ProcessContext {
    pub id: u128,
    pub name: String,
    pub state: ProcessState,
    pub priority: ProcessPriority,
    pub parent_id: Option<u128>,
    pub child_ids: Vec<u128>,
}

impl ProcessContext {
    /// A freshly created process of normal priority, without parent or children.
    pub fn new(name: &str) -> (r: Self)
        ensures
            r.name@ == name@,
            r.state == ProcessState::Created,
            r.priority == ProcessPriority::Normal,
            r.parent_id.is_none(),
            r.child_ids@.len() == 0,
    {
        ProcessContext {
            id: fresh_id(),
            name: String::from_str(name),
            state: ProcessState::Created,
            priority: ProcessPriority::Normal,
            parent_id: None,
            child_ids: Vec::new(),
        }
    }

    pub fn with_priority(self, priority: ProcessPriority) -> (r: Self)
        ensures
            r.priority == priority,
            r.id == self.id,
            r.name@ == self.name@,
            r.state == self.state,
            r.parent_id == self.parent_id,
            r.child_ids@ == self.child_ids@,
    {
        let mut s = self;
        s.priority = priority;
        s
    }

    pub fn with_parent(self, parent_id: u128) -> (r: Self)
        ensures
            r.parent_id == Some(parent_id),
            r.id == self.id,
            r.name@ == self.name@,
            r.state == self.state,
            r.priority == self.priority,
            r.child_ids@ == self.child_ids@,
    {
        let mut s = self;
        s.parent_id = Some(parent_id);
        s
    }
}

/// A lightweight task inside a process.
#[derive(Debug, Clone)]
pub struct TaskContext {
    pub id: u128,
    pub process_id: u128,
    pub name: String,
    pub state: TaskState,
    pub stack_size_bytes: usize,
}

/// The stack size of a task that names none: one mebibyte.
pub const DEFAULT_STACK_SIZE_BYTES: usize = 1048576;

impl TaskContext {
    /// A ready task of the process with the default stack size.
    pub fn new(process_id: u128, name: &str) -> (r: Self)
        ensures
            r.process_id == process_id,
            r.name@ == name@,
            r.state == TaskState::Ready,
            r.stack_size_bytes == DEFAULT_STACK_SIZE_BYTES,
    {
        TaskContext {
            id: fresh_id(),
            process_id,
            name: String::from_str(name),
            state: TaskState::Ready,
            stack_size_bytes: DEFAULT_STACK_SIZE_BYTES,
        }
    }

    pub fn with_stack_size(self, size_bytes: usize) -> (r: Self)
        ensures
            r.stack_size_bytes == size_bytes,
            r.id == self.id,
            r.process_id == self.process_id,
            r.name@ == self.name@,
            r.state == self.state,
    {
        let mut s = self;
        s.stack_size_bytes = size_bytes;
        s
    }
}

/// Two gate instructions with the same contents.
pub open spec fn same_instruction(a: GateInstruction, b: GateInstruction) -> bool {
    &&& a.gate_type == b.gate_type
    &&& a.target_quantum_bits@ == b.target_quantum_bits@
    &&& a.parameter_bits@ == b.parameter_bits@
}

/// Two circuit programs with the same contents.
pub open spec fn same_program(a: CircuitProgramMessage, b: CircuitProgramMessage) -> bool {
    &&& a.circuit_id == b.circuit_id
    &&& a.number_of_quantum_bits == b.number_of_quantum_bits
    &&& a.measurement_qubits@ == b.measurement_qubits@
    &&& a.execution_shots == b.execution_shots
    &&& a.optimization_level == b.optimization_level
    &&& a.gate_sequence@.len() == b.gate_sequence@.len()
    &&& forall|i: int| 0 <= i < a.gate_sequence@.len()
        ==> #[trigger] same_instruction(a.gate_sequence@[i], b.gate_sequence@[i])
}

fn copy_usizes(v: &Vec<usize>) -> (r: Vec<usize>)
    ensures
        r@ == v@,
{
    let mut r: Vec<usize> = Vec::new();
    let mut i: usize = 0;
    while i < v.len()
        invariant
            i <= v@.len(),
            r@ == v@.subrange(0, i as int),
        decreases v@.len() - i,
    {
        r.push(v[i]);
        i = i + 1;
    }
    r
}

fn copy_u64s(v: &Vec<u64>) -> (r: Vec<u64>)
    ensures
        r@ == v@,
{
    let mut r: Vec<u64> = Vec::new();
    let mut i: usize = 0;
    while i < v.len()
        invariant
            i <= v@.len(),
            r@ == v@.subrange(0, i as int),
        decreases v@.len() - i,
    {
        r.push(v[i]);
        i = i + 1;
    }
    r
}

/// A copy of a circuit program with the same contents.
pub fn copy_program(p: &CircuitProgramMessage) -> (r: CircuitProgramMessage)
    ensures
        same_program(r, *p),
{
    let mut gates: Vec<GateInstruction> = Vec::new();
    let mut i: usize = 0;
    while i < p.gate_sequence.len()
        invariant
            i <= p.gate_sequence@.len(),
            gates@.len() == i,
            forall|k: int| 0 <= k < i ==> #[trigger] same_instruction(gates@[k], p.gate_sequence@[k]),
        decreases p.gate_sequence@.len() - i,
    {
        let g = &p.gate_sequence[i];
        gates.push(GateInstruction {
            gate_type: g.gate_type,
            target_quantum_bits: copy_usizes(&g.target_quantum_bits),
            parameter_bits: copy_u64s(&g.parameter_bits),
        });
        i = i + 1;
    }
    CircuitProgramMessage {
        circuit_id: p.circuit_id,
        number_of_quantum_bits: p.number_of_quantum_bits,
        gate_sequence: gates,
        measurement_qubits: copy_usizes(&p.measurement_qubits),
        execution_shots: p.execution_shots,
        optimization_level: p.optimization_level,
    }
}

/// A quantum job with its scheduling record.
#[derive(Debug)]
pub struct QuantumJobContext {
    pub job_handle: QuantumJobHandle,
    pub requesting_process_id: u128,
    pub circuit_program: CircuitProgramMessage,
    pub priority: QuantumJobPriority,
    pub queued_at: u64,
    pub started_at: Option<u64>,
    pub completed_at: Option<u64>,
}

/// Two job records with the same contents.
pub open spec fn same_job(a: QuantumJobContext, b: QuantumJobContext) -> bool {
    &&& a.job_handle.resource_handle == b.job_handle.resource_handle
    &&& a.job_handle.device_handle_id == b.job_handle.device_handle_id
    &&& a.job_handle.job_status == b.job_handle.job_status
    &&& a.job_handle.submitted_at == b.job_handle.submitted_at
    &&& a.requesting_process_id == b.requesting_process_id
    &&& same_program(a.circuit_program, b.circuit_program)
    &&& a.priority == b.priority
    &&& a.queued_at == b.queued_at
    &&& a.started_at == b.started_at
    &&& a.completed_at == b.completed_at
}

impl QuantumJobContext {
    pub open spec fn spec_job_id(&self) -> u128 {
        self.job_handle.resource_handle.id
    }

    pub open spec fn spec_status(&self) -> QuantumJobStatus {
        self.job_handle.job_status
    }

    /// A queued job of normal priority on the device, stamped now.
    pub fn new(device_handle: &QuantumDeviceHandle, requesting_process_id: u128, circuit_program: CircuitProgramMessage) -> (r: Self)
        ensures
            r.job_handle.device_handle_id == device_handle.resource_handle.id,
            r.spec_status() == QuantumJobStatus::Queued,
            r.requesting_process_id == requesting_process_id,
            r.circuit_program == circuit_program,
            r.priority == QuantumJobPriority::Normal,
            r.started_at.is_none(),
            r.completed_at.is_none(),
    {
        QuantumJobContext {
            job_handle: QuantumJobHandle::new(device_handle),
            requesting_process_id,
            circuit_program,
            priority: QuantumJobPriority::Normal,
            queued_at: now_secs(),
            started_at: None,
            completed_at: None,
        }
    }

    pub fn with_priority(self, priority: QuantumJobPriority) -> (r: Self)
        ensures
            r.priority == priority,
            r.job_handle.resource_handle == self.job_handle.resource_handle,
            r.job_handle.device_handle_id == self.job_handle.device_handle_id,
            r.job_handle.job_status == self.job_handle.job_status,
            r.job_handle.submitted_at == self.job_handle.submitted_at,
            r.requesting_process_id == self.requesting_process_id,
            r.circuit_program == self.circuit_program,
            r.queued_at == self.queued_at,
            r.started_at == self.started_at,
            r.completed_at == self.completed_at,
    {
        let mut s = self;
        s.priority = priority;
        s
    }

    /// A copy of the record with the same contents.
    pub fn duplicate(&self) -> (r: Self)
        ensures
            same_job(r, *self),
    {
        QuantumJobContext {
            job_handle: QuantumJobHandle {
                resource_handle: self.job_handle.resource_handle,
                device_handle_id: self.job_handle.device_handle_id,
                job_status: self.job_handle.job_status,
                submitted_at: self.job_handle.submitted_at,
            },
            requesting_process_id: self.requesting_process_id,
            circuit_program: copy_program(&self.circuit_program),
            priority: self.priority,
            queued_at: self.queued_at,
            started_at: self.started_at,
            completed_at: self.completed_at,
        }
    }

    /// Stamps the start time `now` and moves the job to execution.
    pub fn mark_started_at(&mut self, now: u64)
        ensures
            final(self).started_at == Some(now),
            final(self).spec_status() == QuantumJobStatus::Executing,
            final(self).job_handle.resource_handle == old(self).job_handle.resource_handle,
            final(self).job_handle.device_handle_id == old(self).job_handle.device_handle_id,
            final(self).job_handle.submitted_at == old(self).job_handle.submitted_at,
            final(self).requesting_process_id == old(self).requesting_process_id,
            final(self).circuit_program == old(self).circuit_program,
            final(self).priority == old(self).priority,
            final(self).queued_at == old(self).queued_at,
            final(self).completed_at == old(self).completed_at,
    {
        self.started_at = Some(now);
        self.job_handle.set_status(QuantumJobStatus::Executing);
    }

    /// Stamps the start time from the clock and moves the job to execution.
    pub fn mark_started(&mut self)
        ensures
            final(self).started_at.is_some(),
            final(self).spec_status() == QuantumJobStatus::Executing,
            final(self).job_handle.resource_handle == old(self).job_handle.resource_handle,
            final(self).job_handle.device_handle_id == old(self).job_handle.device_handle_id,
            final(self).job_handle.submitted_at == old(self).job_handle.submitted_at,
            final(self).requesting_process_id == old(self).requesting_process_id,
            final(self).circuit_program == old(self).circuit_program,
            final(self).priority == old(self).priority,
            final(self).queued_at == old(self).queued_at,
            final(self).completed_at == old(self).completed_at,
    {
        let now = now_secs();
        self.mark_started_at(now);
    }

    /// Stamps the completion time `now` and marks the job completed.
    pub fn mark_completed_at(&mut self, now: u64)
        ensures
            final(self).completed_at == Some(now),
            final(self).spec_status() == QuantumJobStatus::Completed,
            final(self).job_handle.resource_handle == old(self).job_handle.resource_handle,
            final(self).job_handle.device_handle_id == old(self).job_handle.device_handle_id,
            final(self).job_handle.submitted_at == old(self).job_handle.submitted_at,
            final(self).requesting_process_id == old(self).requesting_process_id,
            final(self).circuit_program == old(self).circuit_program,
            final(self).priority == old(self).priority,
            final(self).queued_at == old(self).queued_at,
            final(self).started_at == old(self).started_at,
    {
        self.completed_at = Some(now);
        self.job_handle.set_status(QuantumJobStatus::Completed);
    }

    /// Stamps the completion time from the clock and marks the job completed.
    pub fn mark_completed(&mut self)
        ensures
            final(self).completed_at.is_some(),
            final(self).spec_status() == QuantumJobStatus::Completed,
            final(self).job_handle.resource_handle == old(self).job_handle.resource_handle,
            final(self).job_handle.device_handle_id == old(self).job_handle.device_handle_id,
            final(self).job_handle.submitted_at == old(self).job_handle.submitted_at,
            final(self).requesting_process_id == old(self).requesting_process_id,
            final(self).circuit_program == old(self).circuit_program,
            final(self).priority == old(self).priority,
            final(self).queued_at == old(self).queued_at,
            final(self).started_at == old(self).started_at,
    {
        let now = now_secs();
        self.mark_completed_at(now);
    }

    /// Seconds between start and completion, when both are stamped and the
    /// clock did not run backwards in between.
    pub fn execution_time_seconds(&self) -> (r: Option<u64>)
        ensures
            r == (match (self.started_at, self.completed_at) {
                (Some(s), Some(e)) => if s <= e { Some((e - s) as u64) } else { None },
                _ => None,
            }),
    {
        match (self.started_at, self.completed_at) {
            (Some(start), Some(end)) => if start <= end { Some(end - start) } else { None },
            _ => None,
        }
    }
}

/// Classical processes in non-increasing priority.
pub open spec fn processes_by_priority(q: Seq<ProcessContext>) -> bool {
    forall|i: int, j: int|
        0 <= i < j < q.len() ==> #[trigger] q[i].priority.spec_rank() >= #[trigger] q[j].priority.spec_rank()
}

/// Quantum jobs in non-increasing priority.
pub open spec fn jobs_by_priority(q: Seq<QuantumJobContext>) -> bool {
    forall|i: int, j: int|
        0 <= i < j < q.len() ==> #[trigger] q[i].priority.spec_rank() >= #[trigger] q[j].priority.spec_rank()
}

/// `new` is `old` with `p` inserted just after the last entry of the same
/// or a higher priority: the stable place for it.
pub open spec fn stable_process_insert(old: Seq<ProcessContext>, p: ProcessContext, new: Seq<ProcessContext>) -> bool {
    exists|k: int|
        0 <= k <= old.len() && new == old.insert(k, p)
        && (forall|i: int| 0 <= i < k ==> #[trigger] old[i].priority.spec_rank() >= p.priority.spec_rank())
        && (forall|i: int| k <= i < old.len() ==> #[trigger] old[i].priority.spec_rank() < p.priority.spec_rank())
}

/// `new` is `old` with `j` inserted just after the last entry of the same
/// or a higher priority: the stable place for it.
pub open spec fn stable_job_insert(old: Seq<QuantumJobContext>, j: QuantumJobContext, new: Seq<QuantumJobContext>) -> bool {
    exists|k: int|
        0 <= k <= old.len() && new == old.insert(k, j)
        && (forall|i: int| 0 <= i < k ==> #[trigger] old[i].priority.spec_rank() >= j.priority.spec_rank())
        && (forall|i: int| k <= i < old.len() ==> #[trigger] old[i].priority.spec_rank() < j.priority.spec_rank())
}

/// `after` is `before` once started: stamped and executing, all else kept.
pub open spec fn started_from(after: QuantumJobContext, before: QuantumJobContext) -> bool {
    &&& after.started_at.is_some()
    &&& after.spec_status() == QuantumJobStatus::Executing
    &&& after.job_handle.resource_handle == before.job_handle.resource_handle
    &&& after.job_handle.device_handle_id == before.job_handle.device_handle_id
    &&& after.job_handle.submitted_at == before.job_handle.submitted_at
    &&& after.requesting_process_id == before.requesting_process_id
    &&& after.circuit_program == before.circuit_program
    &&& after.priority == before.priority
    &&& after.queued_at == before.queued_at
    &&& after.completed_at == before.completed_at
}

/// `after` is `before` once completed: stamped and completed, all else kept.
pub open spec fn completed_from(after: QuantumJobContext, before: QuantumJobContext) -> bool {
    &&& after.completed_at.is_some()
    &&& after.spec_status() == QuantumJobStatus::Completed
    &&& after.job_handle.resource_handle == before.job_handle.resource_handle
    &&& after.job_handle.device_handle_id == before.job_handle.device_handle_id
    &&& after.job_handle.submitted_at == before.job_handle.submitted_at
    &&& after.requesting_process_id == before.requesting_process_id
    &&& after.circuit_program == before.circuit_program
    &&& after.priority == before.priority
    &&& after.queued_at == before.queued_at
    &&& after.started_at == before.started_at
}

/// No two jobs in `q` share an identifier.
pub open spec fn distinct_job_ids(q: Seq<QuantumJobContext>) -> bool {
    forall|i: int, j: int|
        0 <= i < j < q.len() ==> #[trigger] q[i].spec_job_id() != #[trigger] q[j].spec_job_id()
}

/// Schedules classical processes and quantum jobs by priority, with a bound
/// on the number of quantum jobs running at once.
#[derive(Debug)]
pub struct HybridScheduler {
    classical_ready_queue: Vec<ProcessContext>,
    quantum_job_queue: Vec<QuantumJobContext>,
    running_quantum_jobs: Vec<QuantumJobContext>,
    max_concurrent_quantum_jobs: usize,
}

impl HybridScheduler {
    pub closed spec fn classical_queue(&self) -> Seq<ProcessContext> {
        self.classical_ready_queue@
    }

    pub closed spec fn job_queue(&self) -> Seq<QuantumJobContext> {
        self.quantum_job_queue@
    }

    pub closed spec fn running(&self) -> Seq<QuantumJobContext> {
        self.running_quantum_jobs@
    }

    pub closed spec fn max_running(&self) -> nat {
        self.max_concurrent_quantum_jobs as nat
    }

    /// Both queues are in priority order and no more jobs run than allowed.
    pub open spec fn wf(&self) -> bool {
        &&& processes_by_priority(self.classical_queue())
        &&& jobs_by_priority(self.job_queue())
        &&& self.running().len() <= self.max_running()
    }

    /// An idle scheduler.
    pub fn new(max_concurrent_quantum_jobs: usize) -> (r: Self)
        ensures
            r.wf(),
            r.classical_queue().len() == 0,
            r.job_queue().len() == 0,
            r.running().len() == 0,
            r.max_running() == max_concurrent_quantum_jobs,
    {
        HybridScheduler {
            classical_ready_queue: Vec::new(),
            quantum_job_queue: Vec::new(),
            running_quantum_jobs: Vec::new(),
            max_concurrent_quantum_jobs,
        }
    }

    /// Queues a process behind every process of the same or a higher priority.
    pub fn enqueue_process(&mut self, process: ProcessContext)
        requires
            old(self).wf(),
        ensures
            final(self).wf(),
            stable_process_insert(old(self).classical_queue(), process, final(self).classical_queue()),
            final(self).job_queue() == old(self).job_queue(),
            final(self).running() == old(self).running(),
            final(self).max_running() == old(self).max_running(),
    {
        let r = process.priority.rank();
        let ghost q0 = self.classical_ready_queue@;
        let mut i: usize = 0;
        while i < self.classical_ready_queue.len() && self.classical_ready_queue[i].priority.rank() >= r
            invariant
                self.classical_ready_queue@ == q0,
                i <= q0.len(),
                forall|j: int| 0 <= j < i ==> #[trigger] q0[j].priority.spec_rank() >= r,
            decreases q0.len() - i,
        {
            i = i + 1;
        }
        proof {
            assert forall|j: int| i <= j < q0.len() implies #[trigger] q0[j].priority.spec_rank() < r by {
                assert(q0[i as int].priority.spec_rank() < r);
                if j > i {
                    assert(q0[i as int].priority.spec_rank() >= q0[j].priority.spec_rank());
                }
            }
        }
        self.classical_ready_queue.insert(i, process);
        proof {
            let q1 = self.classical_ready_queue@;
            assert(q1 == q0.insert(i as int, process));
            assert forall|a: int, b: int| 0 <= a < b < q1.len() implies
                #[trigger] q1[a].priority.spec_rank() >= #[trigger] q1[b].priority.spec_rank() by {
                if b < i {
                } else if b == i {
                    assert(q1[a] == q0[a]);
                } else if a < i {
                    assert(q1[a] == q0[a]);
                    assert(q1[b] == q0[b - 1]);
                } else if a == i {
                    assert(q1[b] == q0[b - 1]);
                } else {
                    assert(q1[a] == q0[a - 1]);
                    assert(q1[b] == q0[b - 1]);
                }
            }
            assert(stable_process_insert(q0, process, q1));
        }
    }

    /// Takes the process at the head of the classical queue.
    pub fn dequeue_next_process(&mut self) -> (r: Option<ProcessContext>)
        requires
            old(self).wf(),
        ensures
            final(self).wf(),
            old(self).classical_queue().len() == 0 ==> r.is_none() && final(self).classical_queue() == old(self).classical_queue(),
            old(self).classical_queue().len() > 0 ==> r == Some(old(self).classical_queue()[0])
                && final(self).classical_queue() == old(self).classical_queue().drop_first(),
            final(self).job_queue() == old(self).job_queue(),
            final(self).running() == old(self).running(),
            final(self).max_running() == old(self).max_running(),
    {
        if self.classical_ready_queue.len() == 0 {
            None
        } else {
            let p = self.classical_ready_queue.remove(0);
            proof {
                let q = self.classical_ready_queue@;
                assert(q =~= old(self).classical_ready_queue@.drop_first());
                assert forall|a: int, b: int| 0 <= a < b < q.len() implies
                    #[trigger] q[a].priority.spec_rank() >= #[trigger] q[b].priority.spec_rank() by {
                    assert(q[a] == old(self).classical_ready_queue@[a + 1]);
                    assert(q[b] == old(self).classical_ready_queue@[b + 1]);
                }
            }
            Some(p)
        }
    }

    /// Queues a job behind every job of the same or a higher priority.
    pub fn submit_quantum_job(&mut self, job: QuantumJobContext)
        requires
            old(self).wf(),
        ensures
            final(self).wf(),
            stable_job_insert(old(self).job_queue(), job, final(self).job_queue()),
            final(self).classical_queue() == old(self).classical_queue(),
            final(self).running() == old(self).running(),
            final(self).max_running() == old(self).max_running(),
    {
        let r = job.priority.rank();
        let ghost q0 = self.quantum_job_queue@;
        let mut i: usize = 0;
        while i < self.quantum_job_queue.len() && self.quantum_job_queue[i].priority.rank() >= r
            invariant
                self.quantum_job_queue@ == q0,
                i <= q0.len(),
                forall|j: int| 0 <= j < i ==> #[trigger] q0[j].priority.spec_rank() >= r,
            decreases q0.len() - i,
        {
            i = i + 1;
        }
        proof {
            assert forall|j: int| i <= j < q0.len() implies #[trigger] q0[j].priority.spec_rank() < r by {
                assert(q0[i as int].priority.spec_rank() < r);
                if j > i {
                    assert(q0[i as int].priority.spec_rank() >= q0[j].priority.spec_rank());
                }
            }
        }
        self.quantum_job_queue.insert(i, job);
        proof {
            let q1 = self.quantum_job_queue@;
            assert(q1 == q0.insert(i as int, job));
            assert forall|a: int, b: int| 0 <= a < b < q1.len() implies
                #[trigger] q1[a].priority.spec_rank() >= #[trigger] q1[b].priority.spec_rank() by {
                if b < i {
                } else if b == i {
                    assert(q1[a] == q0[a]);
                } else if a < i {
                    assert(q1[a] == q0[a]);
                    assert(q1[b] == q0[b - 1]);
                } else if a == i {
                    assert(q1[b] == q0[b - 1]);
                } else {
                    assert(q1[a] == q0[a - 1]);
                    assert(q1[b] == q0[b - 1]);
                }
            }
            assert(stable_job_insert(q0, job, q1));
        }
    }

    /// Starts the job at the head of the queue, when fewer jobs run than
    /// allowed: it is stamped, moved to execution, recorded as running, and
    /// returned. Otherwise nothing changes.
    pub fn start_next_quantum_job(&mut self) -> (r: Option<QuantumJobContext>)
        requires
            old(self).wf(),
        ensures
            final(self).wf(),
            final(self).classical_queue() == old(self).classical_queue(),
            final(self).max_running() == old(self).max_running(),
            (old(self).running().len() >= old(self).max_running() || old(self).job_queue().len() == 0) ==> {
                &&& r.is_none()
                &&& final(self).job_queue() == old(self).job_queue()
                &&& final(self).running() == old(self).running()
            },
            (old(self).running().len() < old(self).max_running() && old(self).job_queue().len() > 0) ==> {
                &&& r.is_some()
                &&& started_from(r.unwrap(), old(self).job_queue()[0])
                &&& final(self).job_queue() == old(self).job_queue().drop_first()
                &&& final(self).running().len() == old(self).running().len() + 1
                &&& final(self).running().drop_last() == old(self).running()
                &&& same_job(final(self).running().last(), r.unwrap())
            },
    {
        if self.running_quantum_jobs.len() >= self.max_concurrent_quantum_jobs {
            return None;
        }
        if self.quantum_job_queue.len() == 0 {
            return None;
        }
        let mut job = self.quantum_job_queue.remove(0);
        proof {
            let q = self.quantum_job_queue@;
            assert(q =~= old(self).quantum_job_queue@.drop_first());
            assert forall|a: int, b: int| 0 <= a < b < q.len() implies
                #[trigger] q[a].priority.spec_rank() >= #[trigger] q[b].priority.spec_rank() by {
                assert(q[a] == old(self).quantum_job_queue@[a + 1]);
                assert(q[b] == old(self).quantum_job_queue@[b + 1]);
            }
        }
        job.mark_started();
        let copy = job.duplicate();
        self.running_quantum_jobs.push(copy);
        proof {
            assert(self.running_quantum_jobs@.drop_last() =~= old(self).running_quantum_jobs@);
        }
        Some(job)
    }

    /// Completes the first running job with the given identifier: it leaves
    /// the running set, is stamped and marked completed, and is returned.
    /// With no such job, nothing changes.
    pub fn complete_quantum_job(&mut self, job_id: u128) -> (r: Option<QuantumJobContext>)
        requires
            old(self).wf(),
        ensures
            final(self).wf(),
            final(self).classical_queue() == old(self).classical_queue(),
            final(self).job_queue() == old(self).job_queue(),
            final(self).max_running() == old(self).max_running(),
            r.is_none() <==> (forall|i: int| 0 <= i < old(self).running().len()
                ==> #[trigger] old(self).running()[i].spec_job_id() != job_id),
            r.is_none() ==> final(self).running() == old(self).running(),
            r.is_some() ==> exists|k: int| {
                &&& 0 <= k < old(self).running().len()
                &&& old(self).running()[k].spec_job_id() == job_id
                &&& (forall|i: int| 0 <= i < k ==> #[trigger] old(self).running()[i].spec_job_id() != job_id)
                &&& final(self).running() == old(self).running().remove(k)
                &&& completed_from(r.unwrap(), old(self).running()[k])
            },
            r.is_some() && distinct_job_ids(old(self).running()) ==> forall|i: int|
                0 <= i < final(self).running().len() ==> #[trigger] final(self).running()[i].spec_job_id() != job_id,
    {
        let mut i: usize = 0;
        while i < self.running_quantum_jobs.len()
            invariant
                self.running_quantum_jobs@ == old(self).running_quantum_jobs@,
                self.classical_ready_queue@ == old(self).classical_ready_queue@,
                self.quantum_job_queue@ == old(self).quantum_job_queue@,
                self.max_concurrent_quantum_jobs == old(self).max_concurrent_quantum_jobs,
                self.wf(),
                i <= self.running_quantum_jobs@.len(),
                forall|j: int| 0 <= j < i ==> #[trigger] self.running_quantum_jobs@[j].spec_job_id() != job_id,
            decreases self.running_quantum_jobs@.len() - i,
        {
            if self.running_quantum_jobs[i].job_handle.resource_handle.id == job_id {
                let ghost before = self.running_quantum_jobs@;
                let mut job = self.running_quantum_jobs.remove(i);
                job.mark_completed();
                proof {
                    let after = self.running_quantum_jobs@;
                    assert(after == before.remove(i as int));
                    assert(after.len() == before.len() - 1);
                    assert(before[i as int].spec_job_id() == job_id);
                    assert(self.wf());
                    assert(old(self).running()[i as int].spec_job_id() == job_id);
                    if distinct_job_ids(before) {
                        assert forall|m: int| 0 <= m < after.len() implies #[trigger] after[m].spec_job_id() != job_id by {
                            if m < i {
                                assert(after[m] == before[m]);
                            } else {
                                assert(after[m] == before[m + 1]);
                                assert(before[i as int].spec_job_id() != before[m + 1].spec_job_id());
                            }
                        }
                    }
                }
                return Some(job);
            }
            i = i + 1;
        }
        None
    }

    /// Removes a queued job before it starts and marks it cancelled; `None`
    /// when no queued job has the identifier (a running or finished job is
    /// not touched).
    pub fn cancel_queued_job(&mut self, job_id: u128) -> (r: Option<QuantumJobContext>)
        requires
            old(self).wf(),
        ensures
            final(self).wf(),
            final(self).classical_queue() == old(self).classical_queue(),
            final(self).running() == old(self).running(),
            final(self).max_running() == old(self).max_running(),
            r.is_none() <==> (forall|i: int| 0 <= i < old(self).job_queue().len()
                ==> #[trigger] old(self).job_queue()[i].spec_job_id() != job_id),
            r.is_none() ==> final(self).job_queue() == old(self).job_queue(),
            r.is_some() ==> exists|k: int| {
                &&& 0 <= k < old(self).job_queue().len()
                &&& old(self).job_queue()[k].spec_job_id() == job_id
                &&& (forall|i: int| 0 <= i < k ==> #[trigger] old(self).job_queue()[i].spec_job_id() != job_id)
                &&& final(self).job_queue() == old(self).job_queue().remove(k)
                &&& r.unwrap().spec_status() == QuantumJobStatus::Cancelled
                &&& r.unwrap().job_handle.resource_handle == old(self).job_queue()[k].job_handle.resource_handle
                &&& r.unwrap().started_at.is_none() == old(self).job_queue()[k].started_at.is_none()
            },
    {
        let ghost q0 = self.quantum_job_queue@;
        let mut i: usize = 0;
        while i < self.quantum_job_queue.len() && self.quantum_job_queue[i].job_handle.resource_handle.id != job_id
            invariant
                self.quantum_job_queue@ == q0,
                i <= q0.len(),
                forall|j: int| 0 <= j < i ==> #[trigger] q0[j].spec_job_id() != job_id,
            decreases q0.len() - i,
        {
            i = i + 1;
        }
        if i == self.quantum_job_queue.len() {
            return None;
        }
        let mut job = self.quantum_job_queue.remove(i);
        job.job_handle.set_status(QuantumJobStatus::Cancelled);
        proof {
            let q1 = self.quantum_job_queue@;
            assert(q1 == q0.remove(i as int));
            assert forall|a: int, b: int| 0 <= a < b < q1.len() implies
                #[trigger] q1[a].priority.spec_rank() >= #[trigger] q1[b].priority.spec_rank() by {
                if b < i {
                } else if a < i {
                    assert(q1[b] == q0[b + 1]);
                } else {
                    assert(q1[a] == q0[a + 1]);
                    assert(q1[b] == q0[b + 1]);
                }
            }
            assert(old(self).job_queue()[i as int].spec_job_id() == job_id);
        }
        Some(job)
    }

    pub fn quantum_queue_length(&self) -> (r: usize)
        ensures
            r == self.job_queue().len(),
    {
        self.quantum_job_queue.len()
    }

    pub fn running_quantum_jobs_count(&self) -> (r: usize)
        ensures
            r == self.running().len(),
    {
        self.running_quantum_jobs.len()
    }
}

} // verus!
