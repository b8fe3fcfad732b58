//! Identifiers that the encoder keys its caches by.
//!
//! Each wraps a private number and is only made from its own source, so no
//! identifier can stand for one of another kind.

use crate::content_hash::hash_words;
use vstd::prelude::*;

verus! {

/// The content hash of a shader program.
///
/// Shaders with the same bytecode have the same one, also in a later run: it is
/// the key of the shader cache on disk.
#[derive(Clone, Copy, PartialEq, Eq, Hash, Debug, Structural)]
pub struct ProgramId(u64);

/// The identifier of a texture, unique in the process.
#[derive(Clone, Copy, PartialEq, Eq, Hash, Debug, Structural)]
pub struct TextureId(u64);

/// The identifier of a vertex or index buffer, unique in the process.
#[derive(Clone, Copy, PartialEq, Eq, Hash, Debug, Structural)]
pub struct BufferId(u64);

/// Hands out numbers, each of them once until all of them have been.
///
/// A process has one for its textures and one for its buffers.
#[derive(Debug)]
pub struct IdCounter {
    next: u64,
}

/// The `n`-th number after `start`, where the numbers start over after the last.
pub open spec fn nth(start: u64, n: nat) -> u64 {
    ((start + n) % 0x1_0000_0000_0000_0000) as u64
}

impl View for IdCounter {
    type V = u64;

    /// The number that comes next.
    closed spec fn view(&self) -> u64 {
        self.next
    }
}

impl IdCounter {
    /// A counter that starts with one.
    pub fn new() -> (r: Self)
        ensures
            r@ == 1,
    {
        IdCounter { next: 1 }
    }

    fn take(&mut self) -> (r: u64)
        ensures
            r == old(self)@,
            final(self)@ == nth(old(self)@, 1),
    {
        let taken: u64 = self.next;
        self.next = taken.wrapping_add(1);
        taken
    }
}

impl ProgramId {
    /// The number.
    pub closed spec fn value(self) -> u64 {
        self.0
    }

    /// The identifier of the program with these tokens.
    pub fn from_tokens(tokens: &[u32]) -> (r: Self)
        ensures
            r.value() == crate::content_hash::hash_of(tokens@),
    {
        ProgramId(hash_words(tokens))
    }

    /// The number, which the shader cache stores.
    pub fn raw(self) -> (r: u64)
        ensures
            r == self.value(),
    {
        self.0
    }
}

impl TextureId {
    /// The number.
    pub closed spec fn value(self) -> u64 {
        self.0
    }

    /// The next texture identifier.
    pub fn new_unique(counter: &mut IdCounter) -> (r: Self)
        ensures
            r.value() == old(counter)@,
            final(counter)@ == nth(old(counter)@, 1),
    {
        TextureId(counter.take())
    }

    /// The number.
    pub fn raw(self) -> (r: u64)
        ensures
            r == self.value(),
    {
        self.0
    }
}

impl BufferId {
    /// The number.
    pub closed spec fn value(self) -> u64 {
        self.0
    }

    /// The next buffer identifier.
    pub fn new_unique(counter: &mut IdCounter) -> (r: Self)
        ensures
            r.value() == old(counter)@,
            final(counter)@ == nth(old(counter)@, 1),
    {
        BufferId(counter.take())
    }

    /// The number.
    pub fn raw(self) -> (r: u64)
        ensures
            r == self.value(),
    {
        self.0
    }
}

/// Two numbers of one counter differ, unless all numbers were handed out in
/// between.
pub proof fn counted_ids_are_unique(start: u64, i: nat, j: nat)
    requires
        i < j,
        j - i < 0x1_0000_0000_0000_0000,
    ensures
        nth(start, i) != nth(start, j),
{
    let m = 0x1_0000_0000_0000_0000int;
    let (a, b) = (start + i, start + j);
    if a % m == b % m {
        vstd::arithmetic::div_mod::lemma_fundamental_div_mod(a, m);
        vstd::arithmetic::div_mod::lemma_fundamental_div_mod(b, m);
        assert(b - a == m * (b / m - a / m)) by (nonlinear_arith)
            requires
                a == m * (a / m) + a % m,
                b == m * (b / m) + b % m,
                a % m == b % m,
        ;
        assert(b / m - a / m <= 0 || b / m - a / m >= 1);
        assert(false) by (nonlinear_arith)
            requires
                m == 0x1_0000_0000_0000_0000,
                0 < b - a < m,
                b - a == m * (b / m - a / m),
                b / m - a / m <= 0 || b / m - a / m >= 1,
        ;
    }
}

/// Taking numbers one after the other runs through them in order.
pub proof fn counting_advances(start: u64, n: nat)
    ensures
        nth(start, 0) == start,
        nth(nth(start, n), 1) == nth(start, n + 1),
{
}

} // verus!
