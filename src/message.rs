use vstd::prelude::*;
use crate::platform::fresh_id;

verus! {

/// The gates a circuit program may name.
#[derive(Debug, Clone, Copy, PartialEq, Eq, Structural)]
pub enum GateType {
    HadamardGate,
    PauliXGate,
    PauliYGate,
    PauliZGate,
    RotationXGate,
    RotationYGate,
    RotationZGate,
    ControlledNotGate,
    ControlledPhaseGate,
    SwapGate,
    ToffoliGate,
    ControlledRotationYGate,
}

/// How much a submitted circuit may be rewritten before it runs.
#[derive(Debug, Clone, Copy, PartialEq, Eq, Structural)]
pub enum OptimizationLevel {
    Unoptimized,
    Basic,
    Aggressive,
}

/// What a measurement request asks for.
#[derive(Debug, Clone, Copy, PartialEq, Eq, Structural)]
pub enum MeasurementRequestType {
    AllResults,
    LatestOnly,
    Streaming,
    ExpectationValue,
}

/// The answer carried by an acknowledgement.
#[derive(Debug, Clone, Copy, PartialEq, Eq, Structural)]
pub enum AcknowledgeStatus {
    Received,
    Accepted,
    Rejected,
    Processing,
    Completed,
}

/// One gate of a submitted program. Real parameters are carried as their
/// IEEE-754 bit patterns.
#[derive(Debug, Clone)]
pub struct GateInstruction {
    pub gate_type: GateType,
    pub target_quantum_bits: Vec<usize>,
    pub parameter_bits: Vec<u64>,
}

/// A circuit program as submitted by a client process.
#[derive(Debug, Clone)]
pub struct CircuitProgramMessage {
    pub circuit_id: u128,
    pub number_of_quantum_bits: usize,
    pub gate_sequence: Vec<GateInstruction>,
    pub measurement_qubits: Vec<usize>,
    pub execution_shots: usize,
    pub optimization_level: OptimizationLevel,
}

/// The shot count of a program that names none.
pub const DEFAULT_EXECUTION_SHOTS: usize = 1024;

impl CircuitProgramMessage {
    /// An empty program that measures every qubit, 1024 shots, basic
    /// optimization.
    pub fn new(number_of_quantum_bits: usize) -> (r: Self)
        ensures
            r.number_of_quantum_bits == number_of_quantum_bits,
            r.gate_sequence@.len() == 0,
            r.measurement_qubits@.len() == number_of_quantum_bits,
            forall|q: int| 0 <= q < number_of_quantum_bits ==> r.measurement_qubits@[q] == q,
            r.execution_shots == DEFAULT_EXECUTION_SHOTS,
            r.optimization_level == OptimizationLevel::Basic,
    {
        let mut measurement_qubits: Vec<usize> = Vec::new();
        let mut q: usize = 0;
        while q < number_of_quantum_bits
            invariant
                q <= number_of_quantum_bits,
                measurement_qubits@.len() == q,
                forall|k: int| 0 <= k < q ==> measurement_qubits@[k] == k,
            decreases number_of_quantum_bits - q,
        {
            measurement_qubits.push(q);
            q = q + 1;
        }
        CircuitProgramMessage {
            circuit_id: fresh_id(),
            number_of_quantum_bits,
            gate_sequence: Vec::new(),
            measurement_qubits,
            execution_shots: DEFAULT_EXECUTION_SHOTS,
            optimization_level: OptimizationLevel::Basic,
        }
    }

    /// Appends one instruction.
    pub fn add_gate(&mut self, instruction: GateInstruction)
        ensures
            final(self).gate_sequence@ == old(self).gate_sequence@.push(instruction),
            final(self).circuit_id == old(self).circuit_id,
            final(self).number_of_quantum_bits == old(self).number_of_quantum_bits,
            final(self).measurement_qubits@ == old(self).measurement_qubits@,
            final(self).execution_shots == old(self).execution_shots,
            final(self).optimization_level == old(self).optimization_level,
    {
        self.gate_sequence.push(instruction);
    }

    /// The same program with another shot count.
    pub fn with_shots(self, shots: usize) -> (r: Self)
        ensures
            r.execution_shots == shots,
            r.circuit_id == self.circuit_id,
            r.number_of_quantum_bits == self.number_of_quantum_bits,
            r.gate_sequence@ == self.gate_sequence@,
            r.measurement_qubits@ == self.measurement_qubits@,
            r.optimization_level == self.optimization_level,
    {
        let mut s = self;
        s.execution_shots = shots;
        s
    }
}

/// An acknowledgement of an earlier message.
#[derive(Debug, Clone, Copy)]
pub struct AcknowledgeMessage {
    pub original_message_id: u128,
    pub status: AcknowledgeStatus,
}

} // verus!
