use vstd::prelude::*;
use crate::circuit::{Gate, QuantumCircuitStructure};
use crate::error::CircuitError;

verus! {

/// The shape of a variational template.
#[derive(Debug, Clone, Copy, PartialEq, Eq, Structural)]
pub enum AnsatzKind {
    /// Layers of Ry and Rz on every qubit, a CNOT chain, then Ry on every qubit.
    HardwareEfficient { layers: usize },
    /// A Hadamard layer, then per round a controlled-phase chain and an Rx on
    /// every qubit.
    Qaoa { depth: usize },
}

/// The rotations and entanglers of layer `l` of the hardware-efficient
/// template on `n` qubits: Ry then Rz on each qubit (parameters `3nl + 2q`
/// and `3nl + 2q + 1`), CNOT from each qubit to the next, then Ry on each
/// qubit (parameter `3nl + 2n + q`).
pub open spec fn hardware_efficient_layer(n: nat, l: nat, p: Seq<u64>) -> Seq<Gate> {
    let base = 3 * n * l;
    Seq::new(2 * n, |k: int| if k % 2 == 0 {
        Gate::RotationY { target: (k / 2) as usize, theta_bits: p[base + k] }
    } else {
        Gate::RotationZ { target: (k / 2) as usize, theta_bits: p[base + k] }
    })
    + Seq::new((if n > 0 { n - 1 } else { 0 }) as nat, |q: int| Gate::ControlledNot { control: q as usize, target: (q + 1) as usize })
    + Seq::new(n, |q: int| Gate::RotationY { target: q as usize, theta_bits: p[base + 2 * n + q] })
}

/// The first `layers` layers of the hardware-efficient template.
pub open spec fn hardware_efficient_gates(n: nat, layers: nat, p: Seq<u64>) -> Seq<Gate>
    decreases layers,
{
    if layers == 0 {
        Seq::empty()
    } else {
        hardware_efficient_gates(n, (layers - 1) as nat, p) + hardware_efficient_layer(n, (layers - 1) as nat, p)
    }
}

/// Round `r` of the QAOA template on `n` qubits, given the doubled angles:
/// a controlled phase by `a[2r]` (that is, 2γ) between neighbours, then an
/// Rx by `a[2r + 1]` (2β) on each qubit.
pub open spec fn qaoa_round(n: nat, r: nat, a: Seq<u64>) -> Seq<Gate> {
    Seq::new((if n > 0 { n - 1 } else { 0 }) as nat, |q: int| Gate::ControlledPhase {
        control: q as usize,
        target: (q + 1) as usize,
        theta_bits: a[(2 * r) as int],
    })
    + Seq::new(n, |q: int| Gate::RotationX { target: q as usize, theta_bits: a[(2 * r + 1) as int] })
}

/// The Hadamard layer and the first `rounds` rounds of the QAOA template.
pub open spec fn qaoa_gates(n: nat, rounds: nat, a: Seq<u64>) -> Seq<Gate>
    decreases rounds,
{
    if rounds == 0 {
        Seq::new(n, |q: int| Gate::Hadamard { target: q as usize })
    } else {
        qaoa_gates(n, (rounds - 1) as nat, a) + qaoa_round(n, (rounds - 1) as nat, a)
    }
}

/// A variational template (hardware-efficient or QAOA): a circuit family
/// with a fixed parameter count.
#[derive(Debug, Clone, Copy, PartialEq, Eq, Structural)]
pub struct LogosQAnsatzAdapter {
    n_qubits: usize,
    n_params: usize,
    kind: AnsatzKind,
}

/// The parameter count of a template shape on `n` qubits: `3·n·L` for `L`
/// hardware-efficient layers, `2·D` for QAOA of depth `D`.
pub open spec fn parameter_count(kind: AnsatzKind, n: nat) -> nat {
    match kind {
        AnsatzKind::HardwareEfficient { layers } => 3 * n * (layers as nat),
        AnsatzKind::Qaoa { depth } => 2 * (depth as nat),
    }
}

impl LogosQAnsatzAdapter {
    pub closed spec fn qubits(&self) -> nat {
        self.n_qubits as nat
    }

    pub closed spec fn params(&self) -> nat {
        self.n_params as nat
    }

    pub closed spec fn spec_kind(&self) -> AnsatzKind {
        self.kind
    }

    /// The parameter count matches the shape.
    pub open spec fn wf(&self) -> bool {
        self.params() == parameter_count(self.spec_kind(), self.qubits())
    }

    /// `layers` hardware-efficient layers on `n_qubits` qubits: `3·n·L`
    /// parameters.
    pub fn hardware_efficient(n_qubits: usize, layers: usize) -> (r: Self)
        requires
            3 * n_qubits * layers <= usize::MAX,
        ensures
            r.wf(),
            r.qubits() == n_qubits,
            r.params() == 3 * n_qubits * layers,
            r.spec_kind() == (AnsatzKind::HardwareEfficient { layers }),
    {
        proof {
            assert(n_qubits * layers <= 3 * n_qubits * layers) by (nonlinear_arith);
            assert(n_qubits * layers * 3 == 3 * n_qubits * layers) by (nonlinear_arith);
        }
        LogosQAnsatzAdapter { n_qubits, n_params: n_qubits * layers * 3, kind: AnsatzKind::HardwareEfficient { layers } }
    }

    /// QAOA of `depth` rounds on `n_qubits` qubits: `2·D` parameters.
    pub fn qaoa(n_qubits: usize, depth: usize) -> (r: Self)
        requires
            2 * depth <= usize::MAX,
        ensures
            r.wf(),
            r.qubits() == n_qubits,
            r.params() == 2 * depth,
            r.spec_kind() == (AnsatzKind::Qaoa { depth }),
    {
        LogosQAnsatzAdapter { n_qubits, n_params: depth * 2, kind: AnsatzKind::Qaoa { depth } }
    }

    pub fn number_of_parameters(&self) -> (r: usize)
        ensures
            r == self.params(),
    {
        self.n_params
    }

    pub fn number_of_quantum_bits(&self) -> (r: usize)
        ensures
            r == self.qubits(),
    {
        self.n_qubits
    }
}

/// Appends layer `l` of the hardware-efficient template.
fn push_hardware_efficient_layer(c: &mut QuantumCircuitStructure, n: usize, l: usize, p: &Vec<u64>)
    requires
        old(c).wf(),
        old(c).qubits() == n,
        3 * n * (l + 1) <= p@.len(),
    ensures
        final(c).wf(),
        final(c).qubits() == n,
        final(c).spec_id() == old(c).spec_id(),
        final(c).gates() == old(c).gates() + hardware_efficient_layer(n as nat, l as nat, p@),
{
    let ghost g0 = c.gates();
    let plen = p.len();
    proof {
        assert(3 * n * l + 3 * n == 3 * n * (l + 1)) by (nonlinear_arith);
        assert(3 * n <= 3 * n * (l + 1)) by (nonlinear_arith);
        assert((3 * n) * l == 3 * n * l) by (nonlinear_arith);
        assert(3 * n * l <= 3 * n * (l + 1)) by (nonlinear_arith);
    }
    let three_n = 3 * n;
    let base = three_n * l;
    let ghost layer = hardware_efficient_layer(n as nat, l as nat, p@);
    let ghost rot = Seq::new(2 * n as nat, |k: int| if k % 2 == 0 {
        Gate::RotationY { target: (k / 2) as usize, theta_bits: p@[base + k] }
    } else {
        Gate::RotationZ { target: (k / 2) as usize, theta_bits: p@[base + k] }
    });
    let ghost ent = Seq::new((if n > 0 { n - 1 } else { 0 }) as nat, |q: int| Gate::ControlledNot { control: q as usize, target: (q + 1) as usize });
    let ghost fin = Seq::new(n as nat, |q: int| Gate::RotationY { target: q as usize, theta_bits: p@[base + 2 * n + q] });
    assert(layer == rot + ent + fin);
    let mut q: usize = 0;
    while q < n
        invariant
            c.wf(),
            c.qubits() == n,
            c.spec_id() == old(c).spec_id(),
            q <= n,
            base == 3 * n * l,
            base + 3 * n <= p@.len(),
            p@.len() == plen,
            rot.len() == 2 * n,
            forall|k: int| 0 <= k < 2 * n ==> #[trigger] rot[k] == (if k % 2 == 0 {
                Gate::RotationY { target: (k / 2) as usize, theta_bits: p@[base + k] }
            } else {
                Gate::RotationZ { target: (k / 2) as usize, theta_bits: p@[base + k] }
            }),
            c.gates() == g0 + rot.subrange(0, 2 * q as int),
        decreases n - q,
    {
        let _ = c.apply_rotation_y_gate(q, p[base + 2 * q]);
        let _ = c.apply_rotation_z_gate(q, p[base + 2 * q + 1]);
        proof {
            assert((2 * q) as int % 2 == 0);
            assert((2 * q + 1) as int % 2 == 1);
            assert((2 * q) as int / 2 == q);
            assert((2 * q + 1) as int / 2 == q);
            assert(rot.subrange(0, 2 * q + 2) =~= rot.subrange(0, 2 * q as int).push(rot[2 * q as int]).push(rot[2 * q + 1]));
        }
        q = q + 1;
    }
    assert(rot.subrange(0, 2 * n as int) =~= rot);
    let mut q: usize = 0;
    while q + 1 < n
        invariant
            c.wf(),
            c.qubits() == n,
            c.spec_id() == old(c).spec_id(),
            n > 0 ==> q <= n - 1,
            n == 0 ==> q == 0,
            ent.len() == (if n > 0 { n - 1 } else { 0 }),
            forall|k: int| 0 <= k < ent.len() ==> #[trigger] ent[k] == (Gate::ControlledNot { control: k as usize, target: (k + 1) as usize }),
            c.gates() == g0 + rot + ent.subrange(0, q as int),
        decreases n - q,
    {
        let _ = c.apply_controlled_not_gate(q, q + 1);
        proof {
            assert(ent.subrange(0, q + 1) =~= ent.subrange(0, q as int).push(ent[q as int]));
        }
        q = q + 1;
    }
    assert(ent.subrange(0, q as int) =~= ent);
    let mut q: usize = 0;
    while q < n
        invariant
            c.wf(),
            c.qubits() == n,
            c.spec_id() == old(c).spec_id(),
            q <= n,
            base == 3 * n * l,
            base + 3 * n <= p@.len(),
            p@.len() == plen,
            fin.len() == n,
            forall|k: int| 0 <= k < n ==> #[trigger] fin[k] == (Gate::RotationY { target: k as usize, theta_bits: p@[base + 2 * n + k] }),
            c.gates() == g0 + rot + ent + fin.subrange(0, q as int),
        decreases n - q,
    {
        let _ = c.apply_rotation_y_gate(q, p[base + 2 * n + q]);
        proof {
            assert(fin.subrange(0, q + 1) =~= fin.subrange(0, q as int).push(fin[q as int]));
        }
        q = q + 1;
    }
    assert(fin.subrange(0, n as int) =~= fin);
    assert(g0 + rot + ent + fin =~= g0 + layer);
}

/// Appends round `r` of the QAOA template.
fn push_qaoa_round(c: &mut QuantumCircuitStructure, n: usize, r: usize, a: &Vec<u64>)
    requires
        old(c).wf(),
        old(c).qubits() == n,
        2 * r + 1 < a@.len(),
    ensures
        final(c).wf(),
        final(c).qubits() == n,
        final(c).spec_id() == old(c).spec_id(),
        final(c).gates() == old(c).gates() + qaoa_round(n as nat, r as nat, a@),
{
    let ghost g0 = c.gates();
    let ghost ent = Seq::new((if n > 0 { n - 1 } else { 0 }) as nat, |q: int| Gate::ControlledPhase {
        control: q as usize,
        target: (q + 1) as usize,
        theta_bits: a@[(2 * r) as int],
    });
    let ghost mix = Seq::new(n as nat, |q: int| Gate::RotationX { target: q as usize, theta_bits: a@[(2 * r + 1) as int] });
    assert(qaoa_round(n as nat, r as nat, a@) == ent + mix);
    let alen = a.len();
    assert(2 * r + 1 < alen);
    let gamma2 = a[2 * r];
    let beta2 = a[2 * r + 1];
    let mut q: usize = 0;
    while q + 1 < n
        invariant
            c.wf(),
            c.qubits() == n,
            c.spec_id() == old(c).spec_id(),
            n > 0 ==> q <= n - 1,
            n == 0 ==> q == 0,
            ent.len() == (if n > 0 { n - 1 } else { 0 }),
            forall|k: int| 0 <= k < ent.len() ==> #[trigger] ent[k] == (Gate::ControlledPhase {
                control: k as usize,
                target: (k + 1) as usize,
                theta_bits: gamma2,
            }),
            c.gates() == g0 + ent.subrange(0, q as int),
        decreases n - q,
    {
        let _ = c.apply_controlled_phase_gate(q, q + 1, gamma2);
        proof {
            assert(ent.subrange(0, q + 1) =~= ent.subrange(0, q as int).push(ent[q as int]));
        }
        q = q + 1;
    }
    assert(ent.subrange(0, q as int) =~= ent);
    let mut q: usize = 0;
    while q < n
        invariant
            c.wf(),
            c.qubits() == n,
            c.spec_id() == old(c).spec_id(),
            q <= n,
            mix.len() == n,
            forall|k: int| 0 <= k < n ==> #[trigger] mix[k] == (Gate::RotationX { target: k as usize, theta_bits: beta2 }),
            c.gates() == g0 + ent + mix.subrange(0, q as int),
        decreases n - q,
    {
        let _ = c.apply_rotation_x_gate(q, beta2);
        proof {
            assert(mix.subrange(0, q + 1) =~= mix.subrange(0, q as int).push(mix[q as int]));
        }
        q = q + 1;
    }
    assert(mix.subrange(0, n as int) =~= mix);
}

impl LogosQAnsatzAdapter {
    /// The template's circuit for the given parameters, real values carried
    /// as bit patterns. For QAOA the values are the doubled angles 2γ and 2β
    /// of each round, in order. A parameter vector of another length is
    /// refused.
    pub fn construct_quantum_circuit(&self, parameter_bits: &Vec<u64>) -> (r: Result<QuantumCircuitStructure, CircuitError>)
        requires
            self.wf(),
        ensures
            parameter_bits@.len() != self.params() ==> r == Err::<QuantumCircuitStructure, CircuitError>(
                CircuitError::ParameterCountMismatch { expected: self.params() as usize, actual: parameter_bits@.len() as usize }),
            parameter_bits@.len() == self.params() ==> r.is_ok() && r.unwrap().wf() && r.unwrap().qubits() == self.qubits()
                && r.unwrap().gates() == match self.spec_kind() {
                    AnsatzKind::HardwareEfficient { layers } => hardware_efficient_gates(self.qubits(), layers as nat, parameter_bits@),
                    AnsatzKind::Qaoa { depth } => qaoa_gates(self.qubits(), depth as nat, parameter_bits@),
                },
    {
        if parameter_bits.len() != self.n_params {
            return Err(CircuitError::ParameterCountMismatch { expected: self.n_params, actual: parameter_bits.len() });
        }
        let n = self.n_qubits;
        let mut c = QuantumCircuitStructure::new(n);
        match self.kind {
            AnsatzKind::HardwareEfficient { layers } => {
                let mut l: usize = 0;
                while l < layers
                    invariant
                        c.wf(),
                        c.qubits() == n,
                        l <= layers,
                        parameter_bits@.len() == 3 * n * layers,
                        c.gates() == hardware_efficient_gates(n as nat, l as nat, parameter_bits@),
                    decreases layers - l,
                {
                    proof {
                        assert(3 * n * (l + 1) <= 3 * n * layers) by (nonlinear_arith)
                            requires l + 1 <= layers;
                    }
                    push_hardware_efficient_layer(&mut c, n, l, parameter_bits);
                    l = l + 1;
                }
            },
            AnsatzKind::Qaoa { depth } => {
                let mut q: usize = 0;
                let ghost hs = Seq::new(n as nat, |k: int| Gate::Hadamard { target: k as usize });
                while q < n
                    invariant
                        c.wf(),
                        c.qubits() == n,
                        q <= n,
                        hs.len() == n,
                        forall|k: int| 0 <= k < n ==> #[trigger] hs[k] == (Gate::Hadamard { target: k as usize }),
                        c.gates() == hs.subrange(0, q as int),
                    decreases n - q,
                {
                    let _ = c.apply_hadamard_gate(q);
                    proof {
                        assert(hs.subrange(0, q + 1) =~= hs.subrange(0, q as int).push(hs[q as int]));
                    }
                    q = q + 1;
                }
                assert(hs.subrange(0, n as int) =~= hs);
                let mut r: usize = 0;
                while r < depth
                    invariant
                        c.wf(),
                        c.qubits() == n,
                        r <= depth,
                        parameter_bits@.len() == 2 * depth,
                        c.gates() == qaoa_gates(n as nat, r as nat, parameter_bits@),
                    decreases depth - r,
                {
                    push_qaoa_round(&mut c, n, r, parameter_bits);
                    r = r + 1;
                }
            },
        }
        Ok(c)
    }
}

} // verus!
