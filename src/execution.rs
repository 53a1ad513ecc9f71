use vstd::prelude::*;
use vstd::string::StringExecFns;
use crate::error::{BackendError, ExecutionError, QuantumRuntimeError};
use crate::platform::{cpu_count, fresh_id};

verus! {

/// Which simulator runs a circuit.
#[derive(Debug, Clone, Copy, PartialEq, Eq, Structural)]
pub enum ExecutionBackend {
    FullStateVectorSimulator,
    MatrixProductStateSimulator,
    AutoSelect,
}

/// Circuits of at most this many qubits go to the dense simulator when the
/// backend is chosen automatically.
pub const DEFAULT_MAX_DENSE_QUBITS: usize = 12;

/// The backend that runs a circuit of `n` qubits.
pub open spec fn spec_select_backend(default: ExecutionBackend, max_dense: usize, n: usize) -> ExecutionBackend {
    match default {
        ExecutionBackend::AutoSelect => if n <= max_dense {
            ExecutionBackend::FullStateVectorSimulator
        } else {
            ExecutionBackend::MatrixProductStateSimulator
        },
        other => other,
    }
}

/// Chooses a backend for each circuit it is asked to run.
#[derive(Debug, Clone, Copy)]
pub struct QuantumExecutionEngine {
    pub engine_id: u128,
    pub default_backend: ExecutionBackend,
    pub maximum_qubits_for_dense: usize,
}

impl QuantumExecutionEngine {
    /// An engine that picks the backend by size, dense up to 12 qubits.
    pub fn new() -> (r: Self)
        ensures
            r.default_backend == ExecutionBackend::AutoSelect,
            r.maximum_qubits_for_dense == DEFAULT_MAX_DENSE_QUBITS,
    {
        QuantumExecutionEngine {
            engine_id: fresh_id(),
            default_backend: ExecutionBackend::AutoSelect,
            maximum_qubits_for_dense: DEFAULT_MAX_DENSE_QUBITS,
        }
    }

    pub fn with_backend(self, backend: ExecutionBackend) -> (r: Self)
        ensures
            r.default_backend == backend,
            r.engine_id == self.engine_id,
            r.maximum_qubits_for_dense == self.maximum_qubits_for_dense,
    {
        QuantumExecutionEngine { default_backend: backend, ..self }
    }

    pub fn with_max_dense_qubits(self, max_qubits: usize) -> (r: Self)
        ensures
            r.maximum_qubits_for_dense == max_qubits,
            r.engine_id == self.engine_id,
            r.default_backend == self.default_backend,
    {
        QuantumExecutionEngine { maximum_qubits_for_dense: max_qubits, ..self }
    }

    /// The backend for a circuit of `number_of_qubits` qubits.
    pub fn select_backend(&self, number_of_qubits: usize) -> (r: ExecutionBackend)
        ensures
            r == spec_select_backend(self.default_backend, self.maximum_qubits_for_dense, number_of_qubits),
    {
        match self.default_backend {
            ExecutionBackend::AutoSelect => if number_of_qubits <= self.maximum_qubits_for_dense {
                ExecutionBackend::FullStateVectorSimulator
            } else {
                ExecutionBackend::MatrixProductStateSimulator
            },
            other => other,
        }
    }
}

/// Runs circuits on one backend.
#[derive(Debug, Clone, Copy, PartialEq, Eq, Structural)]
pub struct CircuitExecutor {
    pub backend: ExecutionBackend,
}

impl CircuitExecutor {
    pub fn new(backend: ExecutionBackend) -> (r: Self)
        ensures
            r.backend == backend,
    {
        CircuitExecutor { backend }
    }
}

/// Checks a request to run a circuit of `number_of_qubits` qubits for
/// `shots` shots: a circuit without qubits is an invalid parameter, a shot
/// count of zero is invalid; an empty gate list is fine.
pub fn validate_execution_request(number_of_qubits: usize, shots: usize) -> (r: Result<(), QuantumRuntimeError>)
    ensures
        number_of_qubits == 0 ==> r matches Err(QuantumRuntimeError::InvalidParameter(_)),
        number_of_qubits > 0 && shots == 0 ==> r == Err::<(), QuantumRuntimeError>(
            QuantumRuntimeError::Execution(ExecutionError::InvalidShotCount(0))),
        number_of_qubits > 0 && shots > 0 ==> r.is_ok(),
{
    if number_of_qubits == 0 {
        return Err(QuantumRuntimeError::InvalidParameter(String::from_str("circuit has no qubits")));
    }
    if shots == 0 {
        return Err(QuantumRuntimeError::Execution(ExecutionError::InvalidShotCount(shots)));
    }
    Ok(())
}

/// Bytes of a dense state of `n` qubits: `2^n` amplitudes of 16 bytes,
/// or an error when that does not fit in 64 bits.
pub fn dense_state_bytes(n: usize) -> (r: Result<u64, BackendError>)
    ensures
        n <= 59 ==> r == Ok::<u64, BackendError>((1u64 << ((n + 4) as u64)) as u64),
        n > 59 ==> r == Err::<u64, BackendError>(BackendError::DenseStateTooLarge { qubits: n }),
{
    if n <= 59 {
        Ok(1u64 << ((n + 4) as u64))
    } else {
        Err(BackendError::DenseStateTooLarge { qubits: n })
    }
}

/// How the graphics adapter is chosen.
#[derive(Debug, Clone, Copy, PartialEq, Eq, Structural)]
pub enum GpuPowerPreference {
    LowPower,
    HighPerformance,
}

/// Settings of the GPU simulator.
#[derive(Debug, Clone, Copy, PartialEq, Eq, Structural)]
pub struct WebGpuConfig {
    pub power_preference: GpuPowerPreference,
    pub max_buffer_size: usize,
    pub workgroup_size: u32,
}

impl WebGpuConfig {
    /// High performance, 1 GiB buffers, workgroups of 256.
    pub fn default_config() -> (r: Self)
        ensures
            r.power_preference == GpuPowerPreference::HighPerformance,
            r.max_buffer_size == 1073741824,
            r.workgroup_size == 256,
    {
        WebGpuConfig { power_preference: GpuPowerPreference::HighPerformance, max_buffer_size: 1073741824, workgroup_size: 256 }
    }
}

/// What a GPU buffer holds.
#[derive(Debug, Clone, Copy, PartialEq, Eq, Structural)]
pub enum GpuBufferType {
    StateVector,
    GateMatrix,
    Staging,
    Uniform,
}

/// The simulator picked for a circuit when a GPU may be available.
#[derive(Debug, Clone, Copy, PartialEq, Eq, Structural)]
pub enum SelectedBackend {
    DenseVector,
    MatrixProductState,
    Gpu,
}

/// Picks the GPU for large circuits when one is available and preferred,
/// else dense up to 12 qubits and matrix-product-state beyond.
#[derive(Debug, Clone, Copy, PartialEq, Eq, Structural)]
pub struct AutoBackendSelector {
    pub gpu_threshold_qubits: usize,
    pub prefer_gpu: bool,
    pub gpu_available: bool,
}

impl AutoBackendSelector {
    /// A selector for a machine where a GPU is, or is not, available:
    /// threshold 10 qubits, GPU preferred.
    pub fn with_availability(gpu_available: bool) -> (r: Self)
        ensures
            r.gpu_threshold_qubits == 10,
            r.prefer_gpu,
            r.gpu_available == gpu_available,
    {
        AutoBackendSelector { gpu_threshold_qubits: 10, prefer_gpu: true, gpu_available }
    }

    pub fn with_threshold(self, qubits: usize) -> (r: Self)
        ensures
            r == (AutoBackendSelector { gpu_threshold_qubits: qubits, ..self }),
    {
        AutoBackendSelector { gpu_threshold_qubits: qubits, ..self }
    }

    pub fn prefer_gpu(self, prefer: bool) -> (r: Self)
        ensures
            r == (AutoBackendSelector { prefer_gpu: prefer, ..self }),
    {
        AutoBackendSelector { prefer_gpu: prefer, ..self }
    }

    /// A GPU is available and preferred, and the circuit is at least at the
    /// threshold.
    pub fn should_use_gpu(&self, number_of_qubits: usize) -> (r: bool)
        ensures
            r == (self.gpu_available && self.prefer_gpu && number_of_qubits >= self.gpu_threshold_qubits),
    {
        self.gpu_available && self.prefer_gpu && number_of_qubits >= self.gpu_threshold_qubits
    }

    pub fn gpu_available(&self) -> (r: bool)
        ensures
            r == self.gpu_available,
    {
        self.gpu_available
    }

    pub fn select_backend(&self, number_of_qubits: usize) -> (r: SelectedBackend)
        ensures
            r == (if self.gpu_available && self.prefer_gpu && number_of_qubits >= self.gpu_threshold_qubits {
                SelectedBackend::Gpu
            } else if number_of_qubits <= DEFAULT_MAX_DENSE_QUBITS {
                SelectedBackend::DenseVector
            } else {
                SelectedBackend::MatrixProductState
            }),
    {
        if self.should_use_gpu(number_of_qubits) {
            SelectedBackend::Gpu
        } else if number_of_qubits <= DEFAULT_MAX_DENSE_QUBITS {
            SelectedBackend::DenseVector
        } else {
            SelectedBackend::MatrixProductState
        }
    }
}

/// One allocated GPU buffer.
#[derive(Debug, Clone, Copy, PartialEq, Eq, Structural)]
pub struct GpuBufferHandle {
    pub id: u128,
    pub size_bytes: usize,
    pub buffer_type: GpuBufferType,
}

/// The sum of the buffers' sizes.
pub open spec fn total_size(s: Seq<GpuBufferHandle>) -> nat
    decreases s.len(),
{
    if s.len() == 0 {
        0
    } else {
        total_size(s.drop_last()) + s.last().size_bytes as nat
    }
}

proof fn lemma_total_size_remove(s: Seq<GpuBufferHandle>, i: int)
    requires
        0 <= i < s.len(),
    ensures
        total_size(s.remove(i)) == total_size(s) - s[i].size_bytes,
    decreases s.len(),
{
    if i == s.len() - 1 {
        assert(s.remove(i) =~= s.drop_last());
    } else {
        assert(s.remove(i).drop_last() =~= s.drop_last().remove(i));
        lemma_total_size_remove(s.drop_last(), i);
    }
}

/// Books GPU memory against a fixed budget.
#[derive(Debug)]
pub struct GpuMemoryManager {
    allocated_buffers: Vec<GpuBufferHandle>,
    total_allocated: usize,
    max_memory: usize,
}

impl GpuMemoryManager {
    pub closed spec fn buffers(&self) -> Seq<GpuBufferHandle> {
        self.allocated_buffers@
    }

    pub closed spec fn allocated(&self) -> nat {
        self.total_allocated as nat
    }

    pub closed spec fn budget(&self) -> nat {
        self.max_memory as nat
    }

    /// The running total is the sum of the live buffers and within budget.
    pub open spec fn wf(&self) -> bool {
        &&& self.allocated() == total_size(self.buffers())
        &&& self.allocated() <= self.budget()
    }

    pub fn new(max_memory: usize) -> (r: Self)
        ensures
            r.wf(),
            r.buffers().len() == 0,
            r.allocated() == 0,
            r.budget() == max_memory,
    {
        GpuMemoryManager { allocated_buffers: Vec::new(), total_allocated: 0, max_memory }
    }

    /// Whether `size_bytes` more fit in the budget.
    pub fn can_allocate(&self, size_bytes: usize) -> (r: bool)
        requires
            self.wf(),
        ensures
            r == (self.allocated() + size_bytes <= self.budget()),
    {
        size_bytes <= self.max_memory - self.total_allocated
    }

    /// Books a buffer under a fresh identifier, or refuses one that does
    /// not fit.
    pub fn allocate(&mut self, size_bytes: usize, buffer_type: GpuBufferType) -> (r: Result<u128, BackendError>)
        requires
            old(self).wf(),
        ensures
            final(self).wf(),
            final(self).budget() == old(self).budget(),
            old(self).allocated() + size_bytes > old(self).budget() ==> r == Err::<u128, BackendError>(
                BackendError::GpuMemoryAlloc { bytes: size_bytes }) && final(self).buffers() == old(self).buffers(),
            old(self).allocated() + size_bytes <= old(self).budget() ==> r.is_ok()
                && final(self).allocated() == old(self).allocated() + size_bytes
                && final(self).buffers() == old(self).buffers().push(GpuBufferHandle {
                    id: r.unwrap(), size_bytes, buffer_type }),
    {
        if !self.can_allocate(size_bytes) {
            return Err(BackendError::GpuMemoryAlloc { bytes: size_bytes });
        }
        let id = fresh_id();
        let handle = GpuBufferHandle { id, size_bytes, buffer_type };
        self.allocated_buffers.push(handle);
        self.total_allocated = self.total_allocated + size_bytes;
        assert(self.allocated_buffers@.drop_last() == old(self).allocated_buffers@);
        Ok(id)
    }

    /// Frees the first buffer with the given identifier; false when there is
    /// none.
    pub fn deallocate(&mut self, id: u128) -> (r: bool)
        requires
            old(self).wf(),
        ensures
            final(self).wf(),
            final(self).budget() == old(self).budget(),
            r == (exists|i: int| 0 <= i < old(self).buffers().len() && #[trigger] old(self).buffers()[i].id == id),
            !r ==> final(self).buffers() == old(self).buffers(),
            r ==> exists|k: int| {
                &&& 0 <= k < old(self).buffers().len()
                &&& old(self).buffers()[k].id == id
                &&& (forall|i: int| 0 <= i < k ==> #[trigger] old(self).buffers()[i].id != id)
                &&& final(self).buffers() == old(self).buffers().remove(k)
                &&& final(self).allocated() == old(self).allocated() - old(self).buffers()[k].size_bytes
            },
    {
        let mut i: usize = 0;
        while i < self.allocated_buffers.len()
            invariant
                self.allocated_buffers@ == old(self).allocated_buffers@,
                self.total_allocated == old(self).total_allocated,
                self.max_memory == old(self).max_memory,
                self.wf(),
                i <= self.allocated_buffers@.len(),
                forall|j: int| 0 <= j < i ==> #[trigger] self.allocated_buffers@[j].id != id,
            decreases self.allocated_buffers@.len() - i,
        {
            if self.allocated_buffers[i].id == id {
                let ghost before = self.allocated_buffers@;
                let h = self.allocated_buffers.remove(i);
                proof {
                    lemma_total_size_remove(before, i as int);
                }
                self.total_allocated = self.total_allocated - h.size_bytes;
                assert(old(self).buffers()[i as int].id == id);
                return true;
            }
            i = i + 1;
        }
        false
    }

    pub fn total_allocated(&self) -> (r: usize)
        ensures
            r == self.allocated(),
    {
        self.total_allocated
    }

    /// Bytes left in the budget.
    pub fn available(&self) -> (r: usize)
        ensures
            r == (if self.budget() >= self.allocated() { self.budget() - self.allocated() } else { 0 }),
    {
        if self.max_memory >= self.total_allocated {
            self.max_memory - self.total_allocated
        } else {
            0
        }
    }
}

/// Applies gates over index ranges split into chunks for parallel workers.
#[derive(Debug, Clone, Copy, PartialEq, Eq, Structural)]
pub struct ParallelGateApplicator {
    pub thread_count: usize,
    pub min_parallel_size: usize,
}

/// States smaller than this many amplitudes are updated sequentially.
pub const DEFAULT_MIN_PARALLEL_SIZE: usize = 1024;

/// No chunk holds fewer than this many index pairs.
pub const MIN_CHUNK_PAIRS: usize = 64;

impl ParallelGateApplicator {
    /// One worker per CPU.
    pub fn new() -> (r: Self)
        ensures
            r.thread_count >= 1,
            r.min_parallel_size == DEFAULT_MIN_PARALLEL_SIZE,
    {
        ParallelGateApplicator { thread_count: cpu_count(), min_parallel_size: DEFAULT_MIN_PARALLEL_SIZE }
    }

    pub fn with_thread_count(self, count: usize) -> (r: Self)
        ensures
            r.thread_count == count,
            r.min_parallel_size == self.min_parallel_size,
    {
        ParallelGateApplicator { thread_count: count, ..self }
    }

    /// Whether a state of `dim` amplitudes is split across workers.
    pub fn runs_in_parallel(&self, dim: usize) -> (r: bool)
        ensures
            r == (dim >= self.min_parallel_size),
    {
        dim >= self.min_parallel_size
    }

    /// Index pairs per chunk for a state of `dim` amplitudes: the pairs
    /// shared out evenly over the workers, but at least 64.
    pub fn chunk_size(&self, dim: usize) -> (r: usize)
        ensures
            self.thread_count > 0 ==> r == (if dim / 2 / self.thread_count >= MIN_CHUNK_PAIRS {
                dim / 2 / self.thread_count
            } else {
                MIN_CHUNK_PAIRS
            }),
            self.thread_count == 0 ==> r == (if dim / 2 >= MIN_CHUNK_PAIRS { dim / 2 } else { MIN_CHUNK_PAIRS }),
    {
        let workers = if self.thread_count == 0 { 1 } else { self.thread_count };
        let share = dim / 2 / workers;
        if share >= MIN_CHUNK_PAIRS { share } else { MIN_CHUNK_PAIRS }
    }
}

/// Key of a memoized gate matrix: this gate's name and the bit pattern of
/// its parameter (0 for a gate without one).
#[derive(Debug, Clone, PartialEq, Eq, Hash)]
pub struct GateCacheKey {
    pub gate_name: String,
    pub parameter_bits: u64,
}

impl GateCacheKey {
    pub fn new(gate_name: &str, parameter_bits: Option<u64>) -> (r: Self)
        ensures
            r.gate_name@ == gate_name@,
            r.parameter_bits == (match parameter_bits { Some(b) => b, None => 0 }),
    {
        let bits = match parameter_bits {
            Some(b) => b,
            None => 0,
        };
        GateCacheKey { gate_name: String::from_str(gate_name), parameter_bits: bits }
    }
}

} // verus!
