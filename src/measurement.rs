use vstd::prelude::*;
use crate::platform::{now_nanos, string_from_chars};

verus! {

/// The character printed for one measured bit: '0' for 0, '1' otherwise.
pub open spec fn bit_char(b: u8) -> char {
    if b == 0 { '0' } else { '1' }
}

/// The bitstring text of measured bits, first bit (qubit 0) leftmost.
pub open spec fn bit_text(bits: Seq<u8>) -> Seq<char> {
    bits.map_values(|b: u8| bit_char(b))
}

/// The bits read as a binary number, first bit most significant, each byte
/// OR-ed in after a one-place shift (64-bit arithmetic).
pub open spec fn bits_value(bits: Seq<u8>) -> u64
    decreases bits.len(),
{
    if bits.len() == 0 {
        0
    } else {
        ((bits_value(bits.drop_last()) << 1u64) | (bits.last() as u64)) as u64
    }
}

/// One shot's outcome.
#[derive(Debug, Clone)]
pub struct MeasurementEvent {
    pub job_id: u128,
    pub shot_index: usize,
    pub measurement_bitstring: Vec<u8>,
    pub timestamp_nanoseconds: u64,
    pub classical_register_values: Option<Vec<u64>>,
}

impl MeasurementEvent {
    /// The outcome of one shot, stamped now.
    pub fn new(job_id: u128, shot_index: usize, bitstring: Vec<u8>) -> (r: Self)
        ensures
            r.job_id == job_id,
            r.shot_index == shot_index,
            r.measurement_bitstring@ == bitstring@,
            r.classical_register_values.is_none(),
    {
        MeasurementEvent {
            job_id,
            shot_index,
            measurement_bitstring: bitstring,
            timestamp_nanoseconds: now_nanos(),
            classical_register_values: None,
        }
    }

    /// The outcome as text, '0' for a zero byte and '1' for any other.
    pub fn bitstring_as_string(&self) -> (r: String)
        ensures
            r@ == bit_text(self.measurement_bitstring@),
    {
        let bits = &self.measurement_bitstring;
        let mut chars: Vec<char> = Vec::new();
        let mut i: usize = 0;
        while i < bits.len()
            invariant
                i <= bits@.len(),
                chars@ == bit_text(bits@.subrange(0, i as int)),
            decreases bits@.len() - i,
        {
            let c = if bits[i] == 0 { '0' } else { '1' };
            chars.push(c);
            i = i + 1;
            assert(bit_text(bits@.subrange(0, i as int)) =~= bit_text(bits@.subrange(0, i - 1)).push(c));
        }
        assert(bits@.subrange(0, i as int) =~= bits@);
        string_from_chars(&chars)
    }

    /// The outcome read as a binary number.
    pub fn bitstring_as_integer(&self) -> (r: u64)
        ensures
            r == bits_value(self.measurement_bitstring@),
    {
        let bits = &self.measurement_bitstring;
        let mut acc: u64 = 0;
        let mut i: usize = 0;
        while i < bits.len()
            invariant
                i <= bits@.len(),
                acc == bits_value(bits@.subrange(0, i as int)),
            decreases bits@.len() - i,
        {
            let b = bits[i];
            acc = (acc << 1u64) | (b as u64);
            i = i + 1;
            assert(bits@.subrange(0, i as int).drop_last() =~= bits@.subrange(0, i - 1));
        }
        assert(bits@.subrange(0, i as int) =~= bits@);
        acc
    }
}

/// Single-qubit Pauli operators, as factors of a Hamiltonian term.
#[derive(Debug, Clone, Copy, PartialEq, Eq, Structural)]
pub enum PauliOperator {
    Identity,
    PauliX,
    PauliY,
    PauliZ,
}

/// The Pauli-Z observable on one qubit.
#[derive(Debug, Clone, Copy, PartialEq, Eq, Structural)]
pub struct PauliZObservable {
    pub target_qubit: usize,
}

impl PauliZObservable {
    pub fn new(target_qubit: usize) -> (r: Self)
        ensures
            r.target_qubit == target_qubit,
    {
        PauliZObservable { target_qubit }
    }
}

/// The outcomes of a job's shots, in the order they arrived.
#[derive(Debug)]
pub struct MeasurementStream {
    job_id: u128,
    events: Vec<MeasurementEvent>,
    is_complete: bool,
    total_shots: usize,
}

impl MeasurementStream {
    pub closed spec fn spec_events(&self) -> Seq<MeasurementEvent> {
        self.events@
    }

    pub closed spec fn spec_total_shots(&self) -> nat {
        self.total_shots as nat
    }

    pub closed spec fn spec_complete(&self) -> bool {
        self.is_complete
    }

    pub closed spec fn spec_job_id(&self) -> u128 {
        self.job_id
    }

    /// Complete exactly when an outcome has arrived and every expected shot
    /// has.
    pub open spec fn wf(&self) -> bool {
        self.spec_complete() == (self.spec_events().len() > 0 && self.spec_events().len() >= self.spec_total_shots())
    }

    pub fn job_id(&self) -> (r: u128)
        ensures
            r == self.spec_job_id(),
    {
        self.job_id
    }

    /// A stream expecting `total_shots` outcomes, none yet.
    pub fn new(job_id: u128, total_shots: usize) -> (r: Self)
        ensures
            r.wf(),
            r.spec_job_id() == job_id,
            r.spec_events().len() == 0,
            r.spec_total_shots() == total_shots,
            !r.spec_complete(),
    {
        MeasurementStream { job_id, events: Vec::new(), is_complete: false, total_shots }
    }

    /// Appends an outcome; the stream is complete once all expected shots
    /// have arrived.
    pub fn add_event(&mut self, event: MeasurementEvent)
        requires
            old(self).wf(),
        ensures
            final(self).wf(),
            final(self).spec_job_id() == old(self).spec_job_id(),
            final(self).spec_events() == old(self).spec_events().push(event),
            final(self).spec_total_shots() == old(self).spec_total_shots(),
            final(self).spec_complete() == (final(self).spec_events().len() >= final(self).spec_total_shots()),
    {
        self.events.push(event);
        if self.events.len() >= self.total_shots {
            self.is_complete = true;
        }
    }

    pub fn events(&self) -> (r: &Vec<MeasurementEvent>)
        ensures
            r@ == self.spec_events(),
    {
        &self.events
    }

    pub fn is_complete(&self) -> (r: bool)
        ensures
            r == self.spec_complete(),
    {
        self.is_complete
    }

    pub fn completed_shots(&self) -> (r: usize)
        ensures
            r == self.spec_events().len(),
    {
        self.events.len()
    }

    pub fn total_shots(&self) -> (r: usize)
        ensures
            r == self.spec_total_shots(),
    {
        self.total_shots
    }
}

/// The measured bits of basis state `index` on `n` qubits, qubit 0 (the
/// most significant bit) first.
pub open spec fn index_bits(n: nat, index: u64) -> Seq<u8> {
    Seq::new(n, |k: int| ((index >> ((n - 1 - k) as u64)) & 1u64) as u8)
}

/// The bits of basis state `index` on `n` qubits, qubit 0 first.
pub fn index_to_bitstring(n: usize, index: u64) -> (r: Vec<u8>)
    requires
        n <= 64,
    ensures
        r@ == index_bits(n as nat, index),
{
    let mut bits: Vec<u8> = Vec::new();
    let mut k: usize = 0;
    while k < n
        invariant
            n <= 64,
            k <= n,
            bits@.len() == k,
            forall|j: int| 0 <= j < k ==> bits@[j] == ((index >> ((n - 1 - j) as u64)) & 1u64) as u8,
        decreases n - k,
    {
        let shift = (n - 1 - k) as u64;
        let b = ((index >> shift) & 1u64) as u8;
        bits.push(b);
        k = k + 1;
    }
    assert(bits@ =~= index_bits(n as nat, index));
    bits
}

/// Multiplier of the clock-seeded generator of sampling draws.
pub const DRAW_MULTIPLIER: u64 = 6364136223846793005;

/// Increment of the clock-seeded generator of sampling draws.
pub const DRAW_INCREMENT: u64 = 1442695040888963407;

/// Sampling draws are counted in millionths of the unit interval.
pub const DRAW_RESOLUTION: u64 = 1000000;

/// A sampling draw in millionths, from a clock reading: one step of a
/// 64-bit linear congruential generator, reduced modulo a million.
pub open spec fn spec_draw(seed: u64) -> u64 {
    (((seed as nat * DRAW_MULTIPLIER as nat + DRAW_INCREMENT as nat) % 0x10000000000000000) % DRAW_RESOLUTION as nat) as u64
}

/// The draw for `seed`, in millionths: always below a million.
pub fn draw_millionths(seed: u64) -> (r: u64)
    ensures
        r == spec_draw(seed),
        r < DRAW_RESOLUTION,
{
    let x = seed.wrapping_mul(DRAW_MULTIPLIER).wrapping_add(DRAW_INCREMENT);
    proof {
        let m = 0x10000000000000000nat;
        let a = (seed as nat * DRAW_MULTIPLIER as nat) % m;
        assert(x == ((a + DRAW_INCREMENT as nat) % m) as u64);
        assert((a + DRAW_INCREMENT as nat) % m == (seed as nat * DRAW_MULTIPLIER as nat + DRAW_INCREMENT as nat) % m) by {
            vstd::arithmetic::div_mod::lemma_add_mod_noop(
                (seed as nat * DRAW_MULTIPLIER as nat) as int, DRAW_INCREMENT as int, m as int);
            vstd::arithmetic::div_mod::lemma_mod_twice(DRAW_INCREMENT as int, m as int);
        }
    }
    x % DRAW_RESOLUTION
}

/// A sampling draw in millionths from the clock's nanoseconds.
pub fn clock_draw_millionths() -> (r: u64)
    ensures
        r < DRAW_RESOLUTION,
{
    draw_millionths(now_nanos())
}

} // verus!
