//! Fixed-width byte strings and the 256-bit unsigned integer of the protocol.

use vstd::prelude::*;
use vstd::std_specs::cmp::PartialEqSpecImpl;

verus! {

/// A byte string of exactly `N` bytes.
#[derive(Clone, Copy, Debug)]
pub struct FixedBytes<const N: usize> {
    pub bytes: [u8; N],
}

/// A 20-byte execution-layer account address.
pub type Address = FixedBytes<20>;

/// A 32-byte hash or root.
pub type Hash32 = FixedBytes<32>;

/// A compressed BLS public key.
pub type PublicKey = FixedBytes<48>;

/// A compressed BLS signature.
pub type Signature = FixedBytes<96>;

/// The logs bloom filter of an execution payload.
pub type Bloom = FixedBytes<256>;

impl<const N: usize> View for FixedBytes<N> {
    type V = Seq<u8>;

    open spec fn view(&self) -> Seq<u8> {
        self.bytes@
    }
}

impl<const N: usize> FixedBytes<N> {
    /// Wraps an array.
    pub fn new(bytes: [u8; N]) -> (out: Self)
        ensures
            out.bytes == bytes,
            out@ == bytes@,
    {
        FixedBytes { bytes }
    }

    /// The string of `N` zero bytes.
    pub fn zero() -> (out: Self)
        ensures
            out@ == Seq::new(N as nat, |i: int| 0u8),
    {
        let out = FixedBytes { bytes: [0u8;N] };
        assert(out@ =~= Seq::new(N as nat, |i: int| 0u8));
        out
    }

    /// Two byte strings of one width are the same value exactly when they
    /// hold the same bytes.
    pub proof fn lemma_view_injective(self, other: Self)
        ensures
            (self@ == other@) <==> (self == other),
    {
        if self@ == other@ {
            assert forall|i: int| 0 <= i < N implies self.bytes[i] == other.bytes[i] by {
                assert(self.bytes@[i] == other.bytes@[i]);
            }
            assert(self.bytes =~= other.bytes);
        }
    }

    /// A copy of the bytes in a vector.
    pub fn to_vec(&self) -> (out: Vec<u8>)
        ensures
            out@ == self@,
    {
        let mut out: Vec<u8> = Vec::new();
        let mut i: usize = 0;
        while i < N
            invariant
                i <= N,
                out@ == self@.take(i as int),
            decreases N - i,
        {
            out.push(self.bytes[i]);
            i += 1;
            assert(self@.take(i as int) =~= self@.take(i - 1).push(self@[i - 1]));
        }
        assert(self@.take(N as int) =~= self@);
        out
    }
}

impl<const N: usize> PartialEq for FixedBytes<N> {
    fn eq(&self, other: &Self) -> (same: bool) {
        let mut i: usize = 0;
        while i < N
            invariant
                i <= N,
                forall|j: int| 0 <= j < i ==> self.bytes[j] == other.bytes[j],
            decreases N - i,
        {
            if self.bytes[i] != other.bytes[i] {
                return false;
            }
            i += 1;
        }
        assert(self.bytes =~= other.bytes);
        true
    }
}

impl<const N: usize> PartialEqSpecImpl for FixedBytes<N> {
    open spec fn obeys_eq_spec() -> bool {
        true
    }

    open spec fn eq_spec(&self, other: &Self) -> bool {
        *self == *other
    }
}

impl<const N: usize> Eq for FixedBytes<N> {

}

/// A 256-bit unsigned integer, held as its 32 bytes, least significant first.
#[derive(Clone, Copy, Debug, PartialEq, Eq)]
pub struct U256 {
    pub le_bytes: FixedBytes<32>,
}

/// The number that a string of bytes stands for, least significant byte
/// first.
pub open spec fn le_value(bytes: Seq<u8>) -> nat
    decreases bytes.len(),
{
    if bytes.len() == 0 {
        0
    } else {
        bytes[0] as nat + 256 * le_value(bytes.drop_first())
    }
}

/// The `n` low bytes of a number, least significant first.
pub open spec fn le_bytes(x: nat, n: nat) -> Seq<u8>
    decreases n,
{
    if n == 0 {
        Seq::empty()
    } else {
        seq![(x % 256) as u8] + le_bytes(x / 256, (n - 1) as nat)
    }
}

/// What is left of a number above its `n` low bytes.
pub open spec fn above_le_bytes(x: nat, n: nat) -> nat
    decreases n,
{
    if n == 0 {
        x
    } else {
        above_le_bytes(x / 256, (n - 1) as nat)
    }
}

impl View for U256 {
    type V = Seq<u8>;

    open spec fn view(&self) -> Seq<u8> {
        self.le_bytes@
    }
}

impl U256 {
    /// The integer as a number.
    pub open spec fn value(self) -> nat {
        le_value(self@)
    }

    /// Two integers are the same value exactly when they hold the same
    /// bytes.
    pub proof fn lemma_view_injective(self, other: Self)
        ensures
            (self@ == other@) <==> (self == other),
    {
        self.le_bytes.lemma_view_injective(other.le_bytes);
    }

    /// The integer with the value of a 64-bit number.
    pub open spec fn spec_from_u64(x: u64) -> Self {
        choose|out: Self| out@ == le_bytes(x as nat, 32)
    }

    /// The integer with the value of a 64-bit number.
    pub fn from_u64(x: u64) -> (out: Self)
        ensures
            out == Self::spec_from_u64(x),
            out@ == le_bytes(x as nat, 32),
            out.value() == x,
    {
        let mut bytes = [0u8;32];
        let mut rest: u64 = x;
        let mut i: usize = 0;
        while i < 32
            invariant
                i <= 32,
                le_bytes(x as nat, 32) == bytes@.take(i as int) + le_bytes(
                    rest as nat,
                    (32 - i) as nat,
                ),
            decreases 32 - i,
        {
            let low: u8 = (rest % 256) as u8;
            bytes[i] = low;
            proof {
                let tail = le_bytes((rest / 256) as nat, (32 - i - 1) as nat);
                assert(le_bytes(rest as nat, (32 - i) as nat) == seq![low] + tail);
                assert(bytes@.take(i + 1) + tail =~= bytes@.take(i as int) + (seq![low] + tail));
            }
            rest = rest / 256;
            i += 1;
        }
        let out = U256 { le_bytes: FixedBytes { bytes } };
        proof {
            assert(bytes@.take(32) =~= bytes@);
            assert(bytes@ + le_bytes(rest as nat, 0) =~= bytes@);
            lemma_u64_fits(x, 32);
            lemma_le_value_of_le_bytes(x as nat, 32);
            out.lemma_view_injective(Self::spec_from_u64(x));
        }
        out
    }

    /// Zero.
    pub fn zero() -> (out: Self)
        ensures
            out@ == Seq::new(32, |i: int| 0u8),
            out.value() == 0,
    {
        let out = U256 { le_bytes: FixedBytes::zero() };
        proof {
            lemma_le_value_zeros(out@);
        }
        out
    }
}

/// The low bytes of a number stand for the number, where nothing of it lies
/// above them.
pub proof fn lemma_le_value_of_le_bytes(x: nat, n: nat)
    requires
        above_le_bytes(x, n) == 0,
    ensures
        le_bytes(x, n).len() == n,
        le_value(le_bytes(x, n)) == x,
    decreases n,
{
    if n > 0 {
        lemma_le_value_of_le_bytes(x / 256, (n - 1) as nat);
        assert(le_bytes(x, n).drop_first() =~= le_bytes(x / 256, (n - 1) as nat));
    }
}

/// Nothing lies above the bytes of zero.
pub proof fn lemma_above_le_bytes_zero(n: nat)
    ensures
        above_le_bytes(0, n) == 0,
    decreases n,
{
    if n > 0 {
        lemma_above_le_bytes_zero((n - 1) as nat);
    }
}

/// A 64-bit number has nothing above its eight low bytes.
pub proof fn lemma_u64_fits(x: u64, n: nat)
    requires
        n >= 8,
    ensures
        above_le_bytes(x as nat, n) == 0,
{
    let x8 = (x as nat) / 256 / 256 / 256 / 256 / 256 / 256 / 256 / 256;
    assert(x8 == 0);
    lemma_above_le_bytes_zero((n - 8) as nat);
    reveal_with_fuel(above_le_bytes, 9);
}

/// Different 64-bit numbers differ in their eight low bytes.
pub proof fn lemma_u64_le_bytes_injective(a: u64, b: u64)
    requires
        le_bytes(a as nat, 8) == le_bytes(b as nat, 8),
    ensures
        a == b,
{
    lemma_u64_fits(a, 8);
    lemma_u64_fits(b, 8);
    lemma_le_value_of_le_bytes(a as nat, 8);
    lemma_le_value_of_le_bytes(b as nat, 8);
}

/// A string of zero bytes stands for zero.
pub proof fn lemma_le_value_zeros(bytes: Seq<u8>)
    requires
        forall|i: int| 0 <= i < bytes.len() ==> bytes[i] == 0,
    ensures
        le_value(bytes) == 0,
    decreases bytes.len(),
{
    if bytes.len() > 0 {
        lemma_le_value_zeros(bytes.drop_first());
    }
}

/// The extra data of an execution payload: at most 32 bytes, held at the
/// front of a buffer whose other bytes are zero.
#[derive(Clone, Copy, Debug, PartialEq, Eq)]
pub struct ExtraData {
    buffer: FixedBytes<32>,
    len: u8,
}

impl View for ExtraData {
    type V = Seq<u8>;

    closed spec fn view(&self) -> Seq<u8> {
        self.buffer@.take(self.len as int)
    }
}

impl ExtraData {
    #[verifier::type_invariant]
    spec fn wf(self) -> bool {
        &&& self.len <= 32
        &&& forall|i: int| self.len <= i < 32 ==> self.buffer@[i] == 0
    }

    /// No extra data.
    pub fn empty() -> (out: Self)
        ensures
            out@ == Seq::<u8>::empty(),
    {
        ExtraData { buffer: FixedBytes::zero(), len: 0 }
    }

    /// The extra data with these bytes, if they are at most 32.
    pub fn from_slice(data: &[u8]) -> (out: Option<Self>)
        ensures
            out is Some <==> data@.len() <= 32,
            out matches Some(extra) ==> extra@ == data@,
    {
        if data.len() > 32 {
            return None;
        }
        let mut bytes = [0u8;32];
        let mut i: usize = 0;
        while i < data.len()
            invariant
                i <= data@.len() <= 32,
                bytes@.take(i as int) == data@.take(i as int),
                forall|j: int| i <= j < 32 ==> bytes@[j] == 0,
            decreases data@.len() - i,
        {
            bytes[i] = data[i];
            i += 1;
            assert(bytes@.take(i as int) =~= bytes@.take(i - 1).push(data@[i - 1]));
            assert(data@.take(i as int) =~= data@.take(i - 1).push(data@[i - 1]));
        }
        assert(data@.take(i as int) =~= data@);
        Some(ExtraData { buffer: FixedBytes { bytes }, len: i as u8 })
    }

    /// A copy of the bytes.
    pub fn to_vec(&self) -> (out: Vec<u8>)
        ensures
            out@ == self@,
    {
        proof {
            use_type_invariant(self);
        }
        let mut out: Vec<u8> = Vec::new();
        let mut i: usize = 0;
        let n: usize = self.len as usize;
        while i < n
            invariant
                i <= n <= 32,
                n == self.len,
                out@ == self.buffer@.take(i as int),
            decreases n - i,
        {
            out.push(self.buffer.bytes[i]);
            i += 1;
            assert(self.buffer@.take(i as int) =~= self.buffer@.take(i - 1).push(
                self.buffer@[i - 1],
            ));
        }
        out
    }

    /// The number of bytes, which is at most 32.
    pub fn len(&self) -> (n: usize)
        ensures
            n == self@.len(),
            n <= 32,
    {
        proof {
            use_type_invariant(self);
        }
        self.len as usize
    }
}

} // verus!
