use vstd::prelude::*;
use crate::error::CircuitError;
use crate::platform::fresh_id;

verus! {

/// Hadamard on one qubit.
#[derive(Debug, Clone, Copy, PartialEq, Eq, Structural)]
pub struct HadamardGate {
    pub target_qubit: usize,
}

/// Pauli-X (bit flip) on one qubit.
#[derive(Debug, Clone, Copy, PartialEq, Eq, Structural)]
pub struct PauliXGate {
    pub target_qubit: usize,
}

/// Pauli-Y on one qubit.
#[derive(Debug, Clone, Copy, PartialEq, Eq, Structural)]
pub struct PauliYGate {
    pub target_qubit: usize,
}

/// Pauli-Z (phase flip) on one qubit.
#[derive(Debug, Clone, Copy, PartialEq, Eq, Structural)]
pub struct PauliZGate {
    pub target_qubit: usize,
}

/// Controlled NOT: flips the target where the control is 1.
#[derive(Debug, Clone, Copy, PartialEq, Eq, Structural)]
pub struct ControlledNotGate {
    pub control_qubit: usize,
    pub target_qubit: usize,
    pub number_of_quantum_bits: usize,
}

/// Exchanges two qubits.
#[derive(Debug, Clone, Copy, PartialEq, Eq, Structural)]
pub struct SwapGate {
    pub qubit_a: usize,
    pub qubit_b: usize,
    pub number_of_quantum_bits: usize,
}

/// Flips the target where both controls are 1.
#[derive(Debug, Clone, Copy, PartialEq, Eq, Structural)]
pub struct ToffoliGate {
    pub control_qubit_1: usize,
    pub control_qubit_2: usize,
    pub target_qubit: usize,
    pub number_of_quantum_bits: usize,
}

impl HadamardGate {
    pub fn new(target_qubit: usize) -> (r: Self)
        ensures
            r.target_qubit == target_qubit,
    {
        HadamardGate { target_qubit }
    }
}

impl PauliXGate {
    pub fn new(target_qubit: usize) -> (r: Self)
        ensures
            r.target_qubit == target_qubit,
    {
        PauliXGate { target_qubit }
    }
}

impl PauliYGate {
    pub fn new(target_qubit: usize) -> (r: Self)
        ensures
            r.target_qubit == target_qubit,
    {
        PauliYGate { target_qubit }
    }
}

impl PauliZGate {
    pub fn new(target_qubit: usize) -> (r: Self)
        ensures
            r.target_qubit == target_qubit,
    {
        PauliZGate { target_qubit }
    }
}

impl ControlledNotGate {
    pub fn new(control_qubit: usize, target_qubit: usize, number_of_quantum_bits: usize) -> (r: Self)
        ensures
            r.control_qubit == control_qubit,
            r.target_qubit == target_qubit,
            r.number_of_quantum_bits == number_of_quantum_bits,
    {
        ControlledNotGate { control_qubit, target_qubit, number_of_quantum_bits }
    }
}

impl SwapGate {
    pub fn new(qubit_a: usize, qubit_b: usize, number_of_quantum_bits: usize) -> (r: Self)
        ensures
            r.qubit_a == qubit_a,
            r.qubit_b == qubit_b,
            r.number_of_quantum_bits == number_of_quantum_bits,
    {
        SwapGate { qubit_a, qubit_b, number_of_quantum_bits }
    }
}

impl ToffoliGate {
    pub fn new(control_qubit_1: usize, control_qubit_2: usize, target_qubit: usize, number_of_quantum_bits: usize) -> (r: Self)
        ensures
            r.control_qubit_1 == control_qubit_1,
            r.control_qubit_2 == control_qubit_2,
            r.target_qubit == target_qubit,
            r.number_of_quantum_bits == number_of_quantum_bits,
    {
        ToffoliGate { control_qubit_1, control_qubit_2, target_qubit, number_of_quantum_bits }
    }
}

/// A gate with its qubits. Rotation angles are carried as the IEEE-754 bit
/// patterns of the angle in radians.
#[derive(Debug, Clone, Copy, PartialEq, Eq, Structural)]
pub enum Gate {
    Hadamard { target: usize },
    PauliX { target: usize },
    PauliY { target: usize },
    PauliZ { target: usize },
    RotationX { target: usize, theta_bits: u64 },
    RotationY { target: usize, theta_bits: u64 },
    RotationZ { target: usize, theta_bits: u64 },
    ControlledNot { control: usize, target: usize },
    ControlledPhase { control: usize, target: usize, theta_bits: u64 },
    Swap { qubit_a: usize, qubit_b: usize },
    Toffoli { control_1: usize, control_2: usize, target: usize },
}

/// The qubits a gate acts on, controls first.
pub open spec fn gate_targets(g: Gate) -> Seq<usize> {
    match g {
        Gate::Hadamard { target } => seq![target],
        Gate::PauliX { target } => seq![target],
        Gate::PauliY { target } => seq![target],
        Gate::PauliZ { target } => seq![target],
        Gate::RotationX { target, .. } => seq![target],
        Gate::RotationY { target, .. } => seq![target],
        Gate::RotationZ { target, .. } => seq![target],
        Gate::ControlledNot { control, target } => seq![control, target],
        Gate::ControlledPhase { control, target, .. } => seq![control, target],
        Gate::Swap { qubit_a, qubit_b } => seq![qubit_a, qubit_b],
        Gate::Toffoli { control_1, control_2, target } => seq![control_1, control_2, target],
    }
}

/// This gate's name.
pub open spec fn gate_name_text(g: Gate) -> Seq<char> {
    match g {
        Gate::Hadamard { .. } => "hadamard_gate"@,
        Gate::PauliX { .. } => "pauli_x_gate"@,
        Gate::PauliY { .. } => "pauli_y_gate"@,
        Gate::PauliZ { .. } => "pauli_z_gate"@,
        Gate::RotationX { .. } => "rotation_x_gate"@,
        Gate::RotationY { .. } => "rotation_y_gate"@,
        Gate::RotationZ { .. } => "rotation_z_gate"@,
        Gate::ControlledNot { .. } => "controlled_not_gate"@,
        Gate::ControlledPhase { .. } => "controlled_phase_gate"@,
        Gate::Swap { .. } => "swap_gate"@,
        Gate::Toffoli { .. } => "toffoli_gate"@,
    }
}

impl Gate {
    pub fn gate_name(&self) -> (r: &'static str)
        ensures
            r@ == gate_name_text(*self),
    {
        match self {
            Gate::Hadamard { .. } => "hadamard_gate",
            Gate::PauliX { .. } => "pauli_x_gate",
            Gate::PauliY { .. } => "pauli_y_gate",
            Gate::PauliZ { .. } => "pauli_z_gate",
            Gate::RotationX { .. } => "rotation_x_gate",
            Gate::RotationY { .. } => "rotation_y_gate",
            Gate::RotationZ { .. } => "rotation_z_gate",
            Gate::ControlledNot { .. } => "controlled_not_gate",
            Gate::ControlledPhase { .. } => "controlled_phase_gate",
            Gate::Swap { .. } => "swap_gate",
            Gate::Toffoli { .. } => "toffoli_gate",
        }
    }

    /// The qubits this gate acts on, controls first.
    pub fn target_quantum_bits(&self) -> (r: Vec<usize>)
        ensures
            r@ == gate_targets(*self),
    {
        let r = match self {
            Gate::Hadamard { target } => vec![*target],
            Gate::PauliX { target } => vec![*target],
            Gate::PauliY { target } => vec![*target],
            Gate::PauliZ { target } => vec![*target],
            Gate::RotationX { target, .. } => vec![*target],
            Gate::RotationY { target, .. } => vec![*target],
            Gate::RotationZ { target, .. } => vec![*target],
            Gate::ControlledNot { control, target } => vec![*control, *target],
            Gate::ControlledPhase { control, target, .. } => vec![*control, *target],
            Gate::Swap { qubit_a, qubit_b } => vec![*qubit_a, *qubit_b],
            Gate::Toffoli { control_1, control_2, target } => vec![*control_1, *control_2, *target],
        };
        assert(r@ =~= gate_targets(*self));
        r
    }
}

/// One step of a circuit: a gate and the qubits it is applied to.
#[derive(Debug)]
pub struct GateApplicationInstance {
    pub gate: Gate,
    pub target_quantum_bits: Vec<usize>,
}

/// Qubits all below `n` and pairwise distinct.
pub open spec fn valid_targets(n: nat, t: Seq<usize>) -> bool {
    &&& forall|i: int| 0 <= i < t.len() ==> #[trigger] t[i] < n
    &&& forall|i: int, j: int| 0 <= i < j < t.len() ==> #[trigger] t[i] != #[trigger] t[j]
}

/// An ordered list of gate applications on a fixed number of qubits.
#[derive(Debug)]
pub struct QuantumCircuitStructure {
    id: u128,
    number_of_quantum_bits: usize,
    gate_application_instances: Vec<GateApplicationInstance>,
}

/// Where a single-qubit gate on `q` is refused.
pub open spec fn single_qubit_error(n: usize, q: usize) -> Option<CircuitError> {
    if q >= n {
        Some(CircuitError::InvalidQubitIndex { index: q, total: n })
    } else {
        None
    }
}

/// Where a controlled gate is refused: an index out of range (the control
/// is checked first), or the control equal to the target.
pub open spec fn controlled_error(n: usize, control: usize, target: usize) -> Option<CircuitError> {
    if control >= n {
        Some(CircuitError::InvalidQubitIndex { index: control, total: n })
    } else if target >= n {
        Some(CircuitError::InvalidQubitIndex { index: target, total: n })
    } else if control == target {
        Some(CircuitError::SameControlTarget)
    } else {
        None
    }
}

/// Where a swap is refused: an index out of range (the first is checked
/// first), or the same qubit twice.
pub open spec fn swap_error(n: usize, a: usize, b: usize) -> Option<CircuitError> {
    if a >= n {
        Some(CircuitError::InvalidQubitIndex { index: a, total: n })
    } else if b >= n {
        Some(CircuitError::InvalidQubitIndex { index: b, total: n })
    } else if a == b {
        Some(CircuitError::DuplicateQubit(a))
    } else {
        None
    }
}

/// Where a Toffoli gate is refused: an index out of range (in the order
/// control, control, target), the same control twice, or the target equal
/// to a control.
pub open spec fn toffoli_error(n: usize, c1: usize, c2: usize, t: usize) -> Option<CircuitError> {
    if c1 >= n {
        Some(CircuitError::InvalidQubitIndex { index: c1, total: n })
    } else if c2 >= n {
        Some(CircuitError::InvalidQubitIndex { index: c2, total: n })
    } else if t >= n {
        Some(CircuitError::InvalidQubitIndex { index: t, total: n })
    } else if c1 == c2 {
        Some(CircuitError::DuplicateQubit(c1))
    } else if t == c1 || t == c2 {
        Some(CircuitError::SameControlTarget)
    } else {
        None
    }
}

impl QuantumCircuitStructure {
    pub closed spec fn spec_id(&self) -> u128 {
        self.id
    }

    pub closed spec fn qubits(&self) -> nat {
        self.number_of_quantum_bits as nat
    }

    /// The gates, in order.
    pub closed spec fn gates(&self) -> Seq<Gate> {
        self.gate_application_instances@.map_values(|a: GateApplicationInstance| a.gate)
    }

    pub closed spec fn records(&self) -> Seq<GateApplicationInstance> {
        self.gate_application_instances@
    }

    /// Every gate's qubits are in range and pairwise distinct, and each
    /// record names the qubits of its gate.
    pub open spec fn wf(&self) -> bool {
        &&& self.records().len() == self.gates().len()
        &&& forall|i: int| 0 <= i < self.records().len() ==> {
            &&& (#[trigger] self.records()[i]).target_quantum_bits@ == gate_targets(self.gates()[i])
            &&& valid_targets(self.qubits(), gate_targets(self.gates()[i]))
        }
    }

    /// An empty circuit on `number_of_quantum_bits` qubits, with a fresh
    /// identifier.
    pub fn new(number_of_quantum_bits: usize) -> (r: Self)
        ensures
            r.wf(),
            r.qubits() == number_of_quantum_bits,
            r.gates().len() == 0,
    {
        let r = QuantumCircuitStructure {
            id: fresh_id(),
            number_of_quantum_bits,
            gate_application_instances: Vec::new(),
        };
        assert(r.gates() =~= Seq::<Gate>::empty());
        r
    }

    pub fn id(&self) -> (r: u128)
        ensures
            r == self.spec_id(),
    {
        self.id
    }

    pub fn number_of_quantum_bits(&self) -> (r: usize)
        ensures
            r == self.qubits(),
    {
        self.number_of_quantum_bits
    }

    pub fn gate_count(&self) -> (r: usize)
        requires
            self.wf(),
        ensures
            r == self.gates().len(),
    {
        self.gate_application_instances.len()
    }

    /// This gate applications, in order.
    pub fn gate_application_instances(&self) -> (r: &Vec<GateApplicationInstance>)
        ensures
            r@ == self.records(),
    {
        &self.gate_application_instances
    }

    /// This gate at position `i`.
    pub fn gate_at(&self, i: usize) -> (r: Gate)
        requires
            self.wf(),
            i < self.gates().len(),
        ensures
            r == self.gates()[i as int],
    {
        self.gate_application_instances[i].gate
    }

    fn push_gate(&mut self, gate: Gate)
        requires
            old(self).wf(),
            valid_targets(old(self).qubits(), gate_targets(gate)),
        ensures
            final(self).wf(),
            final(self).gates() == old(self).gates().push(gate),
            final(self).qubits() == old(self).qubits(),
            final(self).spec_id() == old(self).spec_id(),
    {
        let targets = gate.target_quantum_bits();
        self.gate_application_instances.push(GateApplicationInstance { gate, target_quantum_bits: targets });
        assert(self.gates() =~= old(self).gates().push(gate));
        assert forall|i: int| 0 <= i < self.records().len() implies {
            &&& (#[trigger] self.records()[i]).target_quantum_bits@ == gate_targets(self.gates()[i])
            &&& valid_targets(self.qubits(), gate_targets(self.gates()[i]))
        } by {
            if i < old(self).records().len() {
                assert(self.records()[i] == old(self).records()[i]);
                assert(self.gates()[i] == old(self).gates()[i]);
            }
        }
    }

    /// Appends a single-qubit gate on `q`, or refuses an index out of range.
    fn add_single(&mut self, q: usize, gate: Gate) -> (r: Result<(), CircuitError>)
        requires
            old(self).wf(),
            gate_targets(gate) == seq![q],
        ensures
            final(self).wf(),
            final(self).qubits() == old(self).qubits(),
            final(self).spec_id() == old(self).spec_id(),
            match single_qubit_error(old(self).qubits() as usize, q) {
                Some(e) => r == Err::<(), CircuitError>(e) && final(self).gates() == old(self).gates(),
                None => r.is_ok() && final(self).gates() == old(self).gates().push(gate),
            },
    {
        if q >= self.number_of_quantum_bits {
            return Err(CircuitError::InvalidQubitIndex { index: q, total: self.number_of_quantum_bits });
        }
        self.push_gate(gate);
        Ok(())
    }

    /// Appends a Hadamard gate on `qubit`.
    pub fn apply_hadamard_gate(&mut self, qubit: usize) -> (r: Result<(), CircuitError>)
        requires
            old(self).wf(),
        ensures
            final(self).wf(),
            final(self).qubits() == old(self).qubits(),
            final(self).spec_id() == old(self).spec_id(),
            match single_qubit_error(old(self).qubits() as usize, qubit) {
                Some(e) => r == Err::<(), CircuitError>(e) && final(self).gates() == old(self).gates(),
                None => r.is_ok() && final(self).gates() == old(self).gates().push(Gate::Hadamard { target: qubit }),
            },
    {
        self.add_single(qubit, Gate::Hadamard { target: qubit })
    }

    /// Appends a Pauli-X gate on `qubit`.
    pub fn apply_pauli_x_gate(&mut self, qubit: usize) -> (r: Result<(), CircuitError>)
        requires
            old(self).wf(),
        ensures
            final(self).wf(),
            final(self).qubits() == old(self).qubits(),
            final(self).spec_id() == old(self).spec_id(),
            match single_qubit_error(old(self).qubits() as usize, qubit) {
                Some(e) => r == Err::<(), CircuitError>(e) && final(self).gates() == old(self).gates(),
                None => r.is_ok() && final(self).gates() == old(self).gates().push(Gate::PauliX { target: qubit }),
            },
    {
        self.add_single(qubit, Gate::PauliX { target: qubit })
    }

    /// Appends a Pauli-Y gate on `qubit`.
    pub fn apply_pauli_y_gate(&mut self, qubit: usize) -> (r: Result<(), CircuitError>)
        requires
            old(self).wf(),
        ensures
            final(self).wf(),
            final(self).qubits() == old(self).qubits(),
            final(self).spec_id() == old(self).spec_id(),
            match single_qubit_error(old(self).qubits() as usize, qubit) {
                Some(e) => r == Err::<(), CircuitError>(e) && final(self).gates() == old(self).gates(),
                None => r.is_ok() && final(self).gates() == old(self).gates().push(Gate::PauliY { target: qubit }),
            },
    {
        self.add_single(qubit, Gate::PauliY { target: qubit })
    }

    /// Appends a Pauli-Z gate on `qubit`.
    pub fn apply_pauli_z_gate(&mut self, qubit: usize) -> (r: Result<(), CircuitError>)
        requires
            old(self).wf(),
        ensures
            final(self).wf(),
            final(self).qubits() == old(self).qubits(),
            final(self).spec_id() == old(self).spec_id(),
            match single_qubit_error(old(self).qubits() as usize, qubit) {
                Some(e) => r == Err::<(), CircuitError>(e) && final(self).gates() == old(self).gates(),
                None => r.is_ok() && final(self).gates() == old(self).gates().push(Gate::PauliZ { target: qubit }),
            },
    {
        self.add_single(qubit, Gate::PauliZ { target: qubit })
    }

    /// Appends an X rotation on `qubit` by the angle whose bit pattern is
    /// `theta_bits`.
    pub fn apply_rotation_x_gate(&mut self, qubit: usize, theta_bits: u64) -> (r: Result<(), CircuitError>)
        requires
            old(self).wf(),
        ensures
            final(self).wf(),
            final(self).qubits() == old(self).qubits(),
            final(self).spec_id() == old(self).spec_id(),
            match single_qubit_error(old(self).qubits() as usize, qubit) {
                Some(e) => r == Err::<(), CircuitError>(e) && final(self).gates() == old(self).gates(),
                None => r.is_ok() && final(self).gates() == old(self).gates().push(Gate::RotationX { target: qubit, theta_bits }),
            },
    {
        self.add_single(qubit, Gate::RotationX { target: qubit, theta_bits })
    }

    /// Appends a Y rotation on `qubit` by the angle whose bit pattern is
    /// `theta_bits`.
    pub fn apply_rotation_y_gate(&mut self, qubit: usize, theta_bits: u64) -> (r: Result<(), CircuitError>)
        requires
            old(self).wf(),
        ensures
            final(self).wf(),
            final(self).qubits() == old(self).qubits(),
            final(self).spec_id() == old(self).spec_id(),
            match single_qubit_error(old(self).qubits() as usize, qubit) {
                Some(e) => r == Err::<(), CircuitError>(e) && final(self).gates() == old(self).gates(),
                None => r.is_ok() && final(self).gates() == old(self).gates().push(Gate::RotationY { target: qubit, theta_bits }),
            },
    {
        self.add_single(qubit, Gate::RotationY { target: qubit, theta_bits })
    }

    /// Appends a Z rotation on `qubit` by the angle whose bit pattern is
    /// `theta_bits`.
    pub fn apply_rotation_z_gate(&mut self, qubit: usize, theta_bits: u64) -> (r: Result<(), CircuitError>)
        requires
            old(self).wf(),
        ensures
            final(self).wf(),
            final(self).qubits() == old(self).qubits(),
            final(self).spec_id() == old(self).spec_id(),
            match single_qubit_error(old(self).qubits() as usize, qubit) {
                Some(e) => r == Err::<(), CircuitError>(e) && final(self).gates() == old(self).gates(),
                None => r.is_ok() && final(self).gates() == old(self).gates().push(Gate::RotationZ { target: qubit, theta_bits }),
            },
    {
        self.add_single(qubit, Gate::RotationZ { target: qubit, theta_bits })
    }

    /// Appends a CNOT, or refuses an index out of range or a control equal
    /// to the target.
    pub fn apply_controlled_not_gate(&mut self, control: usize, target: usize) -> (r: Result<(), CircuitError>)
        requires
            old(self).wf(),
        ensures
            final(self).wf(),
            final(self).qubits() == old(self).qubits(),
            final(self).spec_id() == old(self).spec_id(),
            match controlled_error(old(self).qubits() as usize, control, target) {
                Some(e) => r == Err::<(), CircuitError>(e) && final(self).gates() == old(self).gates(),
                None => r.is_ok() && final(self).gates() == old(self).gates().push(Gate::ControlledNot { control, target }),
            },
    {
        let n = self.number_of_quantum_bits;
        if control >= n {
            return Err(CircuitError::InvalidQubitIndex { index: control, total: n });
        }
        if target >= n {
            return Err(CircuitError::InvalidQubitIndex { index: target, total: n });
        }
        if control == target {
            return Err(CircuitError::SameControlTarget);
        }
        self.push_gate(Gate::ControlledNot { control, target });
        Ok(())
    }

    /// Appends a controlled phase by the angle whose bit pattern is
    /// `theta_bits`, or refuses as `apply_controlled_not_gate` does.
    pub fn apply_controlled_phase_gate(&mut self, control: usize, target: usize, theta_bits: u64) -> (r: Result<(), CircuitError>)
        requires
            old(self).wf(),
        ensures
            final(self).wf(),
            final(self).qubits() == old(self).qubits(),
            final(self).spec_id() == old(self).spec_id(),
            match controlled_error(old(self).qubits() as usize, control, target) {
                Some(e) => r == Err::<(), CircuitError>(e) && final(self).gates() == old(self).gates(),
                None => r.is_ok() && final(self).gates() == old(self).gates().push(Gate::ControlledPhase { control, target, theta_bits }),
            },
    {
        let n = self.number_of_quantum_bits;
        if control >= n {
            return Err(CircuitError::InvalidQubitIndex { index: control, total: n });
        }
        if target >= n {
            return Err(CircuitError::InvalidQubitIndex { index: target, total: n });
        }
        if control == target {
            return Err(CircuitError::SameControlTarget);
        }
        self.push_gate(Gate::ControlledPhase { control, target, theta_bits });
        Ok(())
    }

    /// Appends a swap, or refuses an index out of range or the same qubit twice.
    pub fn apply_swap_gate(&mut self, qubit_a: usize, qubit_b: usize) -> (r: Result<(), CircuitError>)
        requires
            old(self).wf(),
        ensures
            final(self).wf(),
            final(self).qubits() == old(self).qubits(),
            final(self).spec_id() == old(self).spec_id(),
            match swap_error(old(self).qubits() as usize, qubit_a, qubit_b) {
                Some(e) => r == Err::<(), CircuitError>(e) && final(self).gates() == old(self).gates(),
                None => r.is_ok() && final(self).gates() == old(self).gates().push(Gate::Swap { qubit_a, qubit_b }),
            },
    {
        let n = self.number_of_quantum_bits;
        if qubit_a >= n {
            return Err(CircuitError::InvalidQubitIndex { index: qubit_a, total: n });
        }
        if qubit_b >= n {
            return Err(CircuitError::InvalidQubitIndex { index: qubit_b, total: n });
        }
        if qubit_a == qubit_b {
            return Err(CircuitError::DuplicateQubit(qubit_a));
        }
        self.push_gate(Gate::Swap { qubit_a, qubit_b });
        Ok(())
    }

    /// Appends a Toffoli gate, or refuses as `toffoli_error` says.
    pub fn apply_toffoli_gate(&mut self, control_1: usize, control_2: usize, target: usize) -> (r: Result<(), CircuitError>)
        requires
            old(self).wf(),
        ensures
            final(self).wf(),
            final(self).qubits() == old(self).qubits(),
            final(self).spec_id() == old(self).spec_id(),
            match toffoli_error(old(self).qubits() as usize, control_1, control_2, target) {
                Some(e) => r == Err::<(), CircuitError>(e) && final(self).gates() == old(self).gates(),
                None => r.is_ok() && final(self).gates() == old(self).gates().push(Gate::Toffoli { control_1, control_2, target }),
            },
    {
        let n = self.number_of_quantum_bits;
        if control_1 >= n {
            return Err(CircuitError::InvalidQubitIndex { index: control_1, total: n });
        }
        if control_2 >= n {
            return Err(CircuitError::InvalidQubitIndex { index: control_2, total: n });
        }
        if target >= n {
            return Err(CircuitError::InvalidQubitIndex { index: target, total: n });
        }
        if control_1 == control_2 {
            return Err(CircuitError::DuplicateQubit(control_1));
        }
        if target == control_1 || target == control_2 {
            return Err(CircuitError::SameControlTarget);
        }
        self.push_gate(Gate::Toffoli { control_1, control_2, target });
        Ok(())
    }
}

} // verus!
