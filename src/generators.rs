//! Generators: the contract for producing fresh fuzzing inputs, and two
//! elementary generators of random bytes and random printable characters.
use vstd::prelude::*;
use vstd::string::*;

use crate::inputs::BytesInput;
use crate::rands::{choose_item, chosen_item, Rand};

verus! {

/// The largest number of bytes that a dummy input holds.
pub const DUMMY_BYTES_MAX: usize = 64;

/// Raised by `Generator::generate` when a strategy cannot produce a valid
/// input for the state at hand.
#[derive(Clone, Debug)]
pub struct GenerationError {
    pub reason: String,
}

/// A strategy for synthesising fuzzing inputs of type `I` from a state `S`
/// that gives access to randomness.
pub trait Generator<I, S> {
    /// Draws a fresh input, using the randomness that `state` provides.
    fn generate(&mut self, state: &mut S) -> Result<I, GenerationError>;

    /// Builds a fixed placeholder input that does not depend on randomness.
    fn generate_dummy(&self, state: &S) -> I;
}

/// The bound of the single length draw: `max_size`, with a zero `max_size`
/// treated as one.
pub open spec fn size_bound(max_size: usize) -> u64 {
    if max_size == 0 {
        1
    } else {
        max_size as u64
    }
}

/// The length of a generated input, from the length draw: zero becomes one.
pub open spec fn drawn_size(draw: u64) -> nat {
    if draw == 0 {
        1
    } else {
        draw as nat
    }
}

/// The dummy input of a generator configured with `max_size`:
/// `min(max_size, DUMMY_BYTES_MAX)` zero bytes.
pub open spec fn dummy_bytes(max_size: usize) -> Seq<u8> {
    let n: nat = if max_size < DUMMY_BYTES_MAX {
        max_size as nat
    } else {
        DUMMY_BYTES_MAX as nat
    };
    Seq::new(n, |i: int| 0u8)
}

/// `n` bytes drawn one after another from `rand`, each by `below(256)`,
/// and the state that the draws leave behind.
pub open spec fn random_bytes<R: Rand>(rand: R, n: nat) -> (Seq<u8>, R)
    decreases n,
{
    if n == 0 {
        (Seq::empty(), rand)
    } else {
        let prev = random_bytes(rand, (n - 1) as nat);
        (prev.0.push(prev.1.below_value(256) as u8), prev.1.below_next(256))
    }
}

/// `n` symbols drawn one after another from `rand`, each chosen from the
/// printable alphabet, and the state that the draws leave behind.
pub open spec fn random_printables<R: Rand>(rand: R, n: nat) -> (Seq<u8>, R)
    decreases n,
{
    if n == 0 {
        (Seq::empty(), rand)
    } else {
        let prev = random_printables(rand, (n - 1) as nat);
        (
            prev.0.push(chosen_item(prev.1, printable_alphabet())),
            prev.1.below_next(printable_alphabet().len() as u64),
        )
    }
}

/// What `RandBytesGenerator::generate` produces from `rand`: one length
/// draw, then that many byte draws; and the state left behind.
pub open spec fn generated_bytes<R: Rand>(rand: R, max_size: usize) -> (Seq<u8>, R) {
    let bound = size_bound(max_size);
    random_bytes(rand.below_next(bound), drawn_size(rand.below_value(bound)))
}

/// What `RandPrintablesGenerator::generate` produces from `rand`: one length
/// draw, then that many symbol draws; and the state left behind.
pub open spec fn generated_printables<R: Rand>(rand: R, max_size: usize) -> (Seq<u8>, R) {
    let bound = size_bound(max_size);
    random_printables(rand.below_next(bound), drawn_size(rand.below_value(bound)))
}

/// `random_bytes(rand, n)` holds exactly `n` bytes.
pub proof fn lemma_random_bytes_len<R: Rand>(rand: R, n: nat)
    ensures
        random_bytes(rand, n).0.len() == n,
    decreases n,
{
    if n > 0 {
        lemma_random_bytes_len(rand, (n - 1) as nat);
    }
}

/// `random_printables(rand, n)` holds exactly `n` symbols.
pub proof fn lemma_random_printables_len<R: Rand>(rand: R, n: nat)
    ensures
        random_printables(rand, n).0.len() == n,
    decreases n,
{
    if n > 0 {
        lemma_random_printables_len(rand, (n - 1) as nat);
    }
}

/// Draws the length of an input: one `below` draw under the size bound,
/// with zero turned into one.
fn draw_size<R: Rand>(rand: &mut R, max_size: usize) -> (r: u64)
    ensures
        r as nat == drawn_size(old(rand).below_value(size_bound(max_size))),
        *final(rand) == old(rand).below_next(size_bound(max_size)),
        1 <= r <= size_bound(max_size),
{
    let bound: u64 = if max_size == 0 {
        1
    } else {
        max_size as u64
    };
    let draw = rand.below(bound);
    if draw == 0 {
        1
    } else {
        draw
    }
}

/// The dummy bytes: `min(max_size, DUMMY_BYTES_MAX)` zeros.
fn dummy_vec(max_size: usize) -> (r: Vec<u8>)
    ensures
        r@ == dummy_bytes(max_size),
{
    let size: usize = if max_size < DUMMY_BYTES_MAX {
        max_size
    } else {
        DUMMY_BYTES_MAX
    };
    let mut bytes: Vec<u8> = Vec::new();
    let mut i: usize = 0;
    while i < size
        invariant
            i <= size,
            size == dummy_bytes(max_size).len(),
            bytes@ == dummy_bytes(max_size).take(i as int),
        decreases size - i,
    {
        bytes.push(0u8);
        i = i + 1;
        assert(bytes@ =~= dummy_bytes(max_size).take(i as int));
    }
    assert(bytes@ =~= dummy_bytes(max_size));
    bytes
}

/// Generates random bytes.
#[derive(Clone, Copy, Debug)]
pub struct RandBytesGenerator {
    max_size: usize,
}

impl RandBytesGenerator {
    /// The inclusive upper bound on the length of generated inputs.
    pub closed spec fn spec_max_size(&self) -> usize {
        self.max_size
    }

    /// Returns a generator of up to `max_size` random bytes.
    pub fn new(max_size: usize) -> (r: Self)
        ensures
            r.spec_max_size() == max_size,
    {
        RandBytesGenerator { max_size }
    }

    /// The inclusive upper bound on the length of generated inputs.
    pub fn max_size(&self) -> (r: usize)
        ensures
            r == self.spec_max_size(),
    {
        self.max_size
    }
}

impl<S: Rand> Generator<BytesInput, S> for RandBytesGenerator {
    /// Draws a length in `[0, max_size)`, turns zero into one, then draws that
    /// many bytes, each in `[0, 256)`, in order. Never fails.
    fn generate(&mut self, state: &mut S) -> (r: Result<BytesInput, GenerationError>)
        ensures
            *final(self) == *old(self),
            r is Ok,
            r->Ok_0@ == generated_bytes(*old(state), old(self).spec_max_size()).0,
            *final(state) == generated_bytes(*old(state), old(self).spec_max_size()).1,
            old(self).spec_max_size() >= 1 ==> 1 <= r->Ok_0@.len() <= old(self).spec_max_size(),
    {
        let size = draw_size(state, self.max_size);
        let ghost start = *state;
        let mut bytes: Vec<u8> = Vec::new();
        let mut i: u64 = 0;
        while i < size
            invariant
                i <= size,
                (bytes@, *state) == random_bytes(start, i as nat),
            decreases size - i,
        {
            let b = state.below(256);
            bytes.push(b as u8);
            i = i + 1;
        }
        proof {
            lemma_random_bytes_len(start, size as nat);
        }
        Ok(BytesInput::new(bytes))
    }

    /// Builds `min(max_size, DUMMY_BYTES_MAX)` zero bytes.
    fn generate_dummy(&self, state: &S) -> (r: BytesInput)
        ensures
            r@ == dummy_bytes(self.spec_max_size()),
    {
        BytesInput::new(dummy_vec(self.max_size))
    }
}

/// The alphabet that `RandPrintablesGenerator` draws each symbol from.
pub const PRINTABLES: &'static str = "0123456789ABCDEFGHIJKLMNOPQRSTUVWXYZabcdefghijklmnopqrstuvwxyz \t\n!\"#$%&'()*+,-./:;<=>?@[\\]^_`{|}~";

/// The bytes of the printable alphabet, in their fixed order.
pub open spec fn printable_alphabet() -> Seq<u8> {
    PRINTABLES@.map_values(|c: char| c as u8)
}

fn printables() -> (r: &'static [u8])
    ensures
        r@ == printable_alphabet(),
        r@.len() == 97,
{
    proof {
        reveal_strlit("0123456789ABCDEFGHIJKLMNOPQRSTUVWXYZabcdefghijklmnopqrstuvwxyz \t\n!\"#$%&'()*+,-./:;<=>?@[\\]^_`{|}~");
        assert(PRINTABLES@.len() == 97);
        assert(is_ascii(PRINTABLES));
        is_ascii_spec_bytes(PRINTABLES);
    }
    PRINTABLES.as_bytes()
}

/// Generates random printable characters.
#[derive(Clone, Copy, Debug)]
pub struct RandPrintablesGenerator {
    max_size: usize,
}

impl RandPrintablesGenerator {
    /// The inclusive upper bound on the length of generated inputs.
    pub closed spec fn spec_max_size(&self) -> usize {
        self.max_size
    }

    /// Returns a generator of up to `max_size` random printable characters.
    pub fn new(max_size: usize) -> (r: Self)
        ensures
            r.spec_max_size() == max_size,
    {
        RandPrintablesGenerator { max_size }
    }

    /// The inclusive upper bound on the length of generated inputs.
    pub fn max_size(&self) -> (r: usize)
        ensures
            r == self.spec_max_size(),
    {
        self.max_size
    }
}

impl<S: Rand> Generator<BytesInput, S> for RandPrintablesGenerator {
    /// Draws a length in `[0, max_size)`, turns zero into one, then chooses
    /// that many symbols of the printable alphabet, in order. Never fails.
    fn generate(&mut self, state: &mut S) -> (r: Result<BytesInput, GenerationError>)
        ensures
            *final(self) == *old(self),
            r is Ok,
            r->Ok_0@ == generated_printables(*old(state), old(self).spec_max_size()).0,
            *final(state) == generated_printables(*old(state), old(self).spec_max_size()).1,
            old(self).spec_max_size() >= 1 ==> 1 <= r->Ok_0@.len() <= old(self).spec_max_size(),
            forall|i: int|
                0 <= i < r->Ok_0@.len() ==> printable_alphabet().contains(#[trigger] r->Ok_0@[i]),
    {
        let size = draw_size(state, self.max_size);
        let alphabet = printables();
        let ghost start = *state;
        let mut bytes: Vec<u8> = Vec::new();
        let mut i: u64 = 0;
        while i < size
            invariant
                i <= size,
                alphabet@ == printable_alphabet(),
                alphabet@.len() == 97,
                (bytes@, *state) == random_printables(start, i as nat),
                forall|j: int| 0 <= j < bytes@.len() ==> alphabet@.contains(#[trigger] bytes@[j]),
            decreases size - i,
        {
            let b = choose_item(state, alphabet);
            bytes.push(b);
            i = i + 1;
            assert(alphabet@.contains(b));
        }
        proof {
            lemma_random_printables_len(start, size as nat);
        }
        Ok(BytesInput::new(bytes))
    }

    /// Builds `min(max_size, DUMMY_BYTES_MAX)` zero bytes: the dummy input
    /// ignores the alphabet.
    fn generate_dummy(&self, state: &S) -> (r: BytesInput)
        ensures
            r@ == dummy_bytes(self.spec_max_size()),
    {
        BytesInput::new(dummy_vec(self.max_size))
    }
}

/// The dummy input is fixed by `max_size` alone: it holds
/// `min(max_size, DUMMY_BYTES_MAX)` bytes, every one of them zero, for both
/// generators and whatever the state.
pub proof fn lemma_dummy_is_zeros(max_size: usize)
    ensures
        dummy_bytes(max_size).len() == if max_size < DUMMY_BYTES_MAX {
            max_size as nat
        } else {
            DUMMY_BYTES_MAX as nat
        },
        forall|i: int|
            0 <= i < dummy_bytes(max_size).len() ==> #[trigger] dummy_bytes(max_size)[i] == 0,
{
}

/// Two generators built with the same `max_size` give the same dummy input.
pub proof fn lemma_dummy_same_config(
    a: RandBytesGenerator,
    b: RandBytesGenerator,
    c: RandPrintablesGenerator,
    d: RandPrintablesGenerator,
)
    requires
        a.spec_max_size() == b.spec_max_size(),
        c.spec_max_size() == d.spec_max_size(),
    ensures
        dummy_bytes(a.spec_max_size()) == dummy_bytes(b.spec_max_size()),
        dummy_bytes(c.spec_max_size()) == dummy_bytes(d.spec_max_size()),
{
}

/// Generation is reproducible: two sources in the same state give the same
/// input, byte for byte, and are left in the same state.
pub proof fn lemma_generate_reproducible<R: Rand>(r1: R, r2: R, max_size: usize)
    requires
        r1 == r2,
    ensures
        generated_bytes(r1, max_size) == generated_bytes(r2, max_size),
        generated_printables(r1, max_size) == generated_printables(r2, max_size),
{
}

} // verus!
