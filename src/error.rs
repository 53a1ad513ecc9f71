use vstd::prelude::*;
use vstd::string::StringExecFns;
use crate::text::{decimal, decimal_string};

verus! {

/// A circuit that cannot be built or run as given.
#[derive(Debug, Clone, PartialEq, Eq)]
pub enum CircuitError {
    InvalidQubitIndex { index: usize, total: usize },
    QubitCountMismatch { required: usize, provided: usize },
    ParameterCountMismatch { expected: usize, actual: usize },
    InvalidGateParameter(String),
    CircuitTooLarge { qubits: usize, max: usize },
    EmptyCircuit,
    DuplicateQubit(usize),
    SameControlTarget,
    ConstructionFailed(String),
}

/// The text of a circuit error.
pub open spec fn circuit_error_text(e: CircuitError) -> Seq<char> {
    match e {
        CircuitError::InvalidQubitIndex { index, total } =>
            "Invalid qubit index "@ + decimal(index as nat) + ": circuit has "@ + decimal(total as nat) + " qubits"@,
        CircuitError::QubitCountMismatch { required, provided } =>
            "Gate requires "@ + decimal(required as nat) + " qubits, but "@ + decimal(provided as nat) + " were provided"@,
        CircuitError::ParameterCountMismatch { expected, actual } =>
            "Parameter count mismatch: expected "@ + decimal(expected as nat) + ", got "@ + decimal(actual as nat),
        CircuitError::InvalidGateParameter(s) => "Invalid gate parameter: "@ + s@,
        CircuitError::CircuitTooLarge { qubits, max } =>
            "Circuit too large: "@ + decimal(qubits as nat) + " qubits exceeds maximum "@ + decimal(max as nat),
        CircuitError::EmptyCircuit => "Empty circuit: no gates to execute"@,
        CircuitError::DuplicateQubit(q) => "Duplicate qubit in gate targets: qubit "@ + decimal(q as nat),
        CircuitError::SameControlTarget => "Control and target qubits must be different"@,
        CircuitError::ConstructionFailed(s) => "Circuit construction failed: "@ + s@,
    }
}

fn usize_text(n: usize) -> (r: String)
    ensures
        r@ == decimal(n as nat),
{
    decimal_string(n as u64)
}

fn two_numbers(a: &str, x: usize, b: &str, y: usize, c: &str) -> (r: String)
    ensures
        r@ == a@ + decimal(x as nat) + b@ + decimal(y as nat) + c@,
{
    let mut s = String::from_str(a);
    let xs = usize_text(x);
    s.append(xs.as_str());
    s.append(b);
    let ys = usize_text(y);
    s.append(ys.as_str());
    s.append(c);
    s
}

impl CircuitError {
    /// The error's text.
    pub fn message(&self) -> (r: String)
        ensures
            r@ == circuit_error_text(*self),
    {
        match self {
            CircuitError::InvalidQubitIndex { index, total } =>
                two_numbers("Invalid qubit index ", *index, ": circuit has ", *total, " qubits"),
            CircuitError::QubitCountMismatch { required, provided } =>
                two_numbers("Gate requires ", *required, " qubits, but ", *provided, " were provided"),
            CircuitError::ParameterCountMismatch { expected, actual } => {
                let r = two_numbers("Parameter count mismatch: expected ", *expected, ", got ", *actual, "");
                proof {
                    reveal_strlit("");
                    assert(r@ =~= circuit_error_text(*self));
                }
                r
            },
            CircuitError::InvalidGateParameter(p) => {
                let mut s = String::from_str("Invalid gate parameter: ");
                s.append(p.as_str());
                s
            },
            CircuitError::CircuitTooLarge { qubits, max } => {
                let r = two_numbers("Circuit too large: ", *qubits, " qubits exceeds maximum ", *max, "");
                proof {
                    reveal_strlit("");
                    assert(r@ =~= circuit_error_text(*self));
                }
                r
            },
            CircuitError::EmptyCircuit => String::from_str("Empty circuit: no gates to execute"),
            CircuitError::DuplicateQubit(q) => {
                let mut s = String::from_str("Duplicate qubit in gate targets: qubit ");
                let qs = usize_text(*q);
                s.append(qs.as_str());
                s
            },
            CircuitError::SameControlTarget => String::from_str("Control and target qubits must be different"),
            CircuitError::ConstructionFailed(p) => {
                let mut s = String::from_str("Circuit construction failed: ");
                s.append(p.as_str());
                s
            },
        }
    }
}

/// A job that could not be run, or whose run went wrong.
#[derive(Debug, Clone, PartialEq, Eq)]
pub enum ExecutionError {
    JobNotFound(u128),
    JobAlreadyCompleted(u128),
    JobFailed(String),
    ExecutionCancelled(u128),
    BackendUnavailable(String),
    InvalidShotCount(usize),
    StateVectorFailed(String),
    GradientFailed(String),
    AsyncError(String),
    BatchFailed { successful: usize, total: usize },
}

/// A measurement request that cannot be served.
#[derive(Debug, Clone, PartialEq, Eq)]
pub enum MeasurementError {
    NoMeasurements,
    InvalidBitstringLength { expected: usize, actual: usize },
    StreamIncomplete { completed: usize, total: usize },
    ObservableFailed(String),
    InvalidBasis(String),
    StatisticsFailed(String),
}

/// A simulation backend that cannot do what was asked. Real quantities are
/// carried as their IEEE-754 bit patterns.
#[derive(Debug, Clone, PartialEq, Eq)]
pub enum BackendError {
    DenseStateTooLarge { qubits: usize },
    MpsBondDimensionExceeded { max: usize },
    MpsTruncationError { error_bits: u64, threshold_bits: u64 },
    GpuInitFailed(String),
    GpuMemoryAlloc { bytes: usize },
    GpuKernelFailed(String),
    NotAvailable(String),
    ConfigError(String),
}

/// A failure of the bridge to an external circuit library.
#[derive(Debug, Clone, PartialEq, Eq)]
pub enum LogosQBridgeError {
    CircuitConversion(String),
    StateConversion(String),
    UnsupportedGate(String),
    AnsatzConversion(String),
    BackendError(String),
}

/// Any error of the runtime.
#[derive(Debug, Clone, PartialEq, Eq)]
pub enum QuantumRuntimeError {
    Circuit(CircuitError),
    Execution(ExecutionError),
    Measurement(MeasurementError),
    Backend(BackendError),
    InvalidParameter(String),
    ResourceNotFound(String),
    Cancelled,
    Timeout(u64),
    Internal(String),
}

impl From<CircuitError> for QuantumRuntimeError {
    fn from(e: CircuitError) -> (r: QuantumRuntimeError) {
        QuantumRuntimeError::Circuit(e)
    }
}

impl vstd::std_specs::convert::FromSpecImpl<CircuitError> for QuantumRuntimeError {
    open spec fn obeys_from_spec() -> bool {
        true
    }

    open spec fn from_spec(e: CircuitError) -> QuantumRuntimeError {
        QuantumRuntimeError::Circuit(e)
    }
}

impl From<ExecutionError> for QuantumRuntimeError {
    fn from(e: ExecutionError) -> (r: QuantumRuntimeError) {
        QuantumRuntimeError::Execution(e)
    }
}

impl vstd::std_specs::convert::FromSpecImpl<ExecutionError> for QuantumRuntimeError {
    open spec fn obeys_from_spec() -> bool {
        true
    }

    open spec fn from_spec(e: ExecutionError) -> QuantumRuntimeError {
        QuantumRuntimeError::Execution(e)
    }
}

impl From<MeasurementError> for QuantumRuntimeError {
    fn from(e: MeasurementError) -> (r: QuantumRuntimeError) {
        QuantumRuntimeError::Measurement(e)
    }
}

impl vstd::std_specs::convert::FromSpecImpl<MeasurementError> for QuantumRuntimeError {
    open spec fn obeys_from_spec() -> bool {
        true
    }

    open spec fn from_spec(e: MeasurementError) -> QuantumRuntimeError {
        QuantumRuntimeError::Measurement(e)
    }
}

impl From<BackendError> for QuantumRuntimeError {
    fn from(e: BackendError) -> (r: QuantumRuntimeError) {
        QuantumRuntimeError::Backend(e)
    }
}

impl vstd::std_specs::convert::FromSpecImpl<BackendError> for QuantumRuntimeError {
    open spec fn obeys_from_spec() -> bool {
        true
    }

    open spec fn from_spec(e: BackendError) -> QuantumRuntimeError {
        QuantumRuntimeError::Backend(e)
    }
}

} // verus!
