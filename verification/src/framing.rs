//! Length-delimited message framing: the base-128 variable-length length prefix of a
//! Protobuf-encoded message on a byte stream.
use vstd::prelude::*;
use vstd::arithmetic::power2::*;
use vstd::arithmetic::div_mod::*;
use vstd::arithmetic::mul::*;
use vstd::bits::*;

verus! {

/// Longest varint that fits a 64-bit value, in bytes.
pub const MAX_VARINT_LEN: usize = 10;

/// The number that the 7-bit groups of `bytes` encode, least significant group first.
pub open spec fn spec_varint(bytes: Seq<u8>) -> nat
    decreases bytes.len(),
{
    if bytes.len() == 0 {
        0
    } else {
        spec_varint(bytes.drop_last()) + (bytes.last() % 128) as nat * pow2((7 * (bytes.len() - 1)) as nat)
    }
}

/// Decodes a varint one byte at a time, as the bytes arrive from a stream.
pub struct VarintDecoder {
    value: u64,
    shift: u32,
    bytes: Ghost<Seq<u8>>,
}

impl View for VarintDecoder {
    type V = Seq<u8>;

    /// The bytes taken so far; each has its continuation bit set.
    closed spec fn view(&self) -> Seq<u8> {
        self.bytes@
    }
}

impl VarintDecoder {
    /// The decoder's state matches the bytes it took.
    pub closed spec fn wf(&self) -> bool {
        &&& self.shift == 7 * self.bytes@.len()
        &&& self.bytes@.len() <= MAX_VARINT_LEN
        &&& self.value == spec_varint(self.bytes@) % pow2(64)
        &&& self.shift < 64 ==> self.value < pow2(self.shift as nat)
    }

    /// A decoder that has taken no byte.
    pub fn new() -> (r: Self)
        ensures
            r.wf(),
            r@ == Seq::<u8>::empty(),
    {
        proof {
            lemma2_to64();
        }
        VarintDecoder { value: 0, shift: 0, bytes: Ghost(Seq::empty()) }
    }

    /// Takes the next byte. A byte without the continuation bit (below 0x80) ends the varint,
    /// whose value, modulo 2^64, is returned; otherwise the decoder waits for more bytes. A
    /// 64-bit value takes at most ten bytes: a byte after ten continuation bytes is refused and
    /// the decoder left unchanged.
    pub fn push(&mut self, byte: u8) -> (r: VarintStep)
        requires
            old(self).wf(),
        ensures
            final(self).wf(),
            old(self)@.len() >= MAX_VARINT_LEN ==> r is Overlong && final(self)@ == old(self)@,
            old(self)@.len() < MAX_VARINT_LEN ==> final(self)@ == old(self)@.push(byte),
            old(self)@.len() < MAX_VARINT_LEN && byte < 0x80 ==> r == VarintStep::Value(
                (spec_varint(old(self)@.push(byte)) % pow2(64)) as u64,
            ),
            old(self)@.len() < MAX_VARINT_LEN && byte >= 0x80 ==> r is Continue,
    {
        if self.shift >= 70 {
            return VarintStep::Overlong;
        }
        let ghost old_bytes = self.bytes@;
        let ghost new_bytes = old_bytes.push(byte);
        let shift = self.shift;
        let group: u64 = (byte & 0x7F) as u64;
        let value = self.value;
        let new_value = value | (group << shift);
        proof {
            assert(new_bytes.drop_last() == old_bytes);
            lemma_varint_step(value, group, shift, byte, old_bytes);
        }
        self.value = new_value;
        self.shift = shift + 7;
        self.bytes = Ghost(new_bytes);
        if byte < 0x80 {
            VarintStep::Value(new_value)
        } else {
            VarintStep::Continue
        }
    }
}

/// What a decoder does with one byte.
#[derive(Debug, Clone, Copy, PartialEq, Eq, Structural)]
pub enum VarintStep {
    /// The varint goes on.
    Continue,
    /// The byte ended the varint, whose value this is.
    Value(u64),
    /// Ten continuation bytes came before: the varint does not fit 64 bits.
    Overlong,
}

/// How a byte sequence begins, read as a varint.
#[derive(Debug, Clone, Copy, PartialEq, Eq, Structural)]
pub enum VarintPrefix {
    /// A varint of this value fills the first bytes, this many of them.
    Complete(u64, usize),
    /// The bytes end before the varint does.
    Incomplete,
    /// The first ten bytes all carry the continuation bit.
    Overlong,
}

/// How `bytes` begins, read as a varint, when its first `i` bytes carry the continuation bit.
pub open spec fn spec_varint_prefix_from(bytes: Seq<u8>, i: nat) -> VarintPrefix
    decreases MAX_VARINT_LEN - i,
{
    if i >= MAX_VARINT_LEN {
        VarintPrefix::Overlong
    } else if i >= bytes.len() {
        VarintPrefix::Incomplete
    } else if bytes[i as int] < 0x80 {
        VarintPrefix::Complete(
            (spec_varint(bytes.take((i + 1) as int)) % pow2(64)) as u64,
            (i + 1) as usize,
        )
    } else {
        spec_varint_prefix_from(bytes, i + 1)
    }
}

/// How `bytes` begins, read as a varint: the value (modulo 2^64) and length of the varint ended
/// by the first byte without continuation bit, if one of the first ten bytes is such a byte.
pub open spec fn spec_varint_prefix(bytes: Seq<u8>) -> VarintPrefix {
    spec_varint_prefix_from(bytes, 0)
}

/// Reads the varint at the start of `bytes`, as a stream reader takes it byte after byte.
pub fn decode_varint(bytes: &[u8]) -> (r: VarintPrefix)
    ensures
        r == spec_varint_prefix(bytes@),
{
    let mut decoder = VarintDecoder::new();
    let mut i: usize = 0;
    while i < bytes.len()
        invariant
            i <= bytes@.len(),
            i <= MAX_VARINT_LEN,
            decoder.wf(),
            decoder@ == bytes@.take(i as int),
            spec_varint_prefix_from(bytes@, i as nat) == spec_varint_prefix(bytes@),
        decreases bytes@.len() - i,
    {
        if i == MAX_VARINT_LEN {
            return VarintPrefix::Overlong;
        }
        let byte = bytes[i];
        let step = decoder.push(byte);
        assert(bytes@.take(i as int).push(byte) =~= bytes@.take(i + 1));
        match step {
            VarintStep::Value(value) => {
                return VarintPrefix::Complete(value, i + 1);
            },
            VarintStep::Continue => {},
            VarintStep::Overlong => {
                return VarintPrefix::Overlong;
            },
        }
        i = i + 1;
    }
    if i == MAX_VARINT_LEN {
        VarintPrefix::Overlong
    } else {
        VarintPrefix::Incomplete
    }
}

/// The standard varint encoding of `n`: 7-bit groups, least significant first, every byte but
/// the last with its continuation bit (0x80) set.
pub open spec fn spec_varint_encoding(n: nat) -> Seq<u8>
    decreases n,
{
    if n < 128 {
        seq![n as u8]
    } else {
        seq![(n % 128 + 128) as u8] + spec_varint_encoding(n / 128)
    }
}

/// A byte in front of a varint adds its group below the groups that follow.
proof fn lemma_varint_prepend(b: u8, rest: Seq<u8>)
    ensures
        spec_varint(seq![b] + rest) == (b % 128) as nat + 128 * spec_varint(rest),
    decreases rest.len(),
{
    let s = seq![b] + rest;
    lemma2_to64();
    if rest.len() == 0 {
        assert(s.drop_last() =~= Seq::<u8>::empty());
        assert(s.last() == b);
        assert(spec_varint(s) == spec_varint(s.drop_last()) + (b % 128) as nat * pow2(0));
    } else {
        let rd = rest.drop_last();
        assert(s.drop_last() =~= seq![b] + rd);
        lemma_varint_prepend(b, rd);
        let k = (7 * (rest.len() - 1)) as nat;
        lemma_pow2_adds(7, k);
        assert(pow2((7 * (s.len() - 1)) as nat) == 128 * pow2(k));
        let g = (rest.last() % 128) as nat;
        assert(s.last() == rest.last());
        assert(spec_varint(s) == spec_varint(seq![b] + rd) + g * pow2((7 * (s.len() - 1)) as nat));
        assert(spec_varint(rest) == spec_varint(rd) + g * pow2(k));
        assert(g * (128 * pow2(k)) == 128 * (g * pow2(k))) by (nonlinear_arith);
    }
}

/// Decoding the varint encoding of a value gives the value back. Every byte of the encoding but
/// the last carries the continuation bit, so a decoder takes the whole encoding and ends on its
/// last byte; a 64-bit value takes at most ten bytes.
pub proof fn lemma_varint_roundtrip(n: u64)
    ensures
        spec_varint(spec_varint_encoding(n as nat)) == n,
        spec_varint_encoding(n as nat).len() <= MAX_VARINT_LEN,
        spec_varint_encoding(n as nat).last() < 0x80,
        forall|i: int|
            0 <= i < spec_varint_encoding(n as nat).len() - 1 ==> #[trigger] spec_varint_encoding(
                n as nat,
            )[i] >= 0x80,
{
    lemma_varint_encoding(n as nat, 10);
    lemma2_to64();
    lemma_pow2_strictly_increases(64, 70);
}

/// A stream that starts with the varint encoding of a value starts with that value: reading it
/// takes exactly the encoding's bytes, whatever follows.
pub proof fn lemma_varint_prefix_of_encoding(v: u64, rest: Seq<u8>)
    ensures
        spec_varint_prefix(spec_varint_encoding(v as nat) + rest) == VarintPrefix::Complete(
            v,
            spec_varint_encoding(v as nat).len() as usize,
        ),
{
    let enc = spec_varint_encoding(v as nat);
    let s = enc + rest;
    lemma_varint_roundtrip(v);
    lemma_prefix_skips_continuation(s, enc.len() - 1, 0);
    assert(s.take(enc.len() as int) =~= enc);
    lemma2_to64();
    lemma_small_mod(v as nat, pow2(64));
}

/// Reading from position `i` reaches position `n` when the bytes in between carry the
/// continuation bit.
proof fn lemma_prefix_skips_continuation(s: Seq<u8>, n: int, i: nat)
    requires
        i <= n < s.len(),
        n < MAX_VARINT_LEN,
        forall|j: int| i <= j < n ==> #[trigger] s[j] >= 0x80,
    ensures
        spec_varint_prefix_from(s, i) == spec_varint_prefix_from(s, n as nat),
    decreases n - i,
{
    if i < n {
        lemma_prefix_skips_continuation(s, n, i + 1);
    }
}

/// The encoding of `n` decodes to `n`, ends with a byte without continuation bit, has it on
/// every other byte, and is at most `k` bytes long when `n < 2^(7k)`.
proof fn lemma_varint_encoding(n: nat, k: nat)
    ensures
        spec_varint(spec_varint_encoding(n)) == n,
        spec_varint_encoding(n).len() >= 1,
        spec_varint_encoding(n).last() < 0x80,
        forall|i: int| 0 <= i < spec_varint_encoding(n).len() - 1 ==> #[trigger] spec_varint_encoding(n)[i] >= 0x80,
        k >= 1 && n < pow2(7 * k) ==> spec_varint_encoding(n).len() <= k,
    decreases n,
{
    let enc = spec_varint_encoding(n);
    if n < 128 {
        assert(enc =~= seq![n as u8]);
        lemma_varint_prepend(n as u8, Seq::<u8>::empty());
        assert(seq![n as u8] + Seq::<u8>::empty() =~= enc);
        assert(spec_varint(Seq::<u8>::empty()) == 0);
        assert((n as u8) % 128 == n);
    } else {
        let b = (n % 128 + 128) as u8;
        let rest = spec_varint_encoding(n / 128);
        let km1 = if k >= 1 { (k - 1) as nat } else { 0nat };
        lemma_varint_encoding(n / 128, km1);
        assert(enc =~= seq![b] + rest);
        lemma_varint_prepend(b, rest);
        assert(b % 128 == n % 128);
        assert(n == 128 * (n / 128) + n % 128);
        assert forall|i: int| 0 <= i < enc.len() - 1 implies #[trigger] enc[i] >= 0x80 by {
            if i > 0 {
                assert(enc[i] == rest[i - 1]);
            }
        }
        if k >= 1 && n < pow2(7 * k) {
            if k == 1 {
                lemma2_to64();
            } else {
                lemma_pow2_adds(7, 7 * km1);
                lemma2_to64();
                assert(pow2(7 * k) == 128 * pow2(7 * km1));
                assert(n / 128 < pow2(7 * km1)) by {
                    lemma_multiply_divide_lt(n as int, 128, pow2(7 * km1) as int);
                }
            }
        }
    }
}

/// A varint of `n` bytes is below `2^(7n)`.
proof fn lemma_varint_bound(bytes: Seq<u8>)
    ensures
        spec_varint(bytes) < pow2((7 * bytes.len()) as nat),
    decreases bytes.len(),
{
    lemma_pow2_pos((7 * bytes.len()) as nat);
    if bytes.len() > 0 {
        let n = bytes.len();
        lemma_varint_bound(bytes.drop_last());
        let p = pow2((7 * (n - 1)) as nat);
        lemma_pow2_adds((7 * (n - 1)) as nat, 7);
        lemma2_to64();
        assert(pow2((7 * n) as nat) == p * 128);
        let g = (bytes.last() % 128) as nat;
        assert(g * p <= 127 * p) by (nonlinear_arith)
            requires g <= 127, p > 0;
    }
}

/// One decoding step adds the next 7-bit group at the current shift, modulo 2^64.
proof fn lemma_varint_step(value: u64, group: u64, shift: u32, byte: u8, bytes: Seq<u8>)
    requires
        shift == 7 * bytes.len(),
        bytes.len() < MAX_VARINT_LEN,
        value == spec_varint(bytes) % pow2(64),
        value < pow2(shift as nat),
        group == (byte & 0x7F) as u64,
    ensures
        (value | (group << shift)) == spec_varint(bytes.push(byte)) % pow2(64),
        shift + 7 < 64 ==> (value | (group << shift)) < pow2((shift + 7) as nat),
{
    assert(group == byte % 128) by (bit_vector)
        requires group == (byte & 0x7Fu8) as u64;
    assert(bytes.push(byte).drop_last() == bytes);
    lemma2_to64();
    lemma_pow2_pos(shift as nat);
    let p = pow2(shift as nat);
    let sv = spec_varint(bytes);
    lemma_varint_bound(bytes);
    lemma_pow2_strictly_increases(shift as nat, 64);
    lemma_small_mod(sv, pow2(64));
    assert(value == sv);
    let full = spec_varint(bytes.push(byte));
    assert(full == sv + group * p);
    let shifted = group << shift;
    assert(1u64 << (shift as u64) == p) by {
        lemma_u64_pow2_no_overflow(shift as nat);
        lemma_u64_shl_is_mul(1, shift as u64);
    }
    assert(value | shifted == value + shifted) by (bit_vector)
        requires value < (1u64 << (shift as u64)), shifted == group << shift, shift < 64, group < 128;
    if shift <= 56 {
        lemma_pow2_strictly_increases(shift as nat, 57);
        assert(group * p < 128 * pow2(57)) by (nonlinear_arith)
            requires group < 128, p < pow2(57), p > 0;
        assert((shift as u64) as nat == shift as nat);
        lemma_pow2_adds(7, 57);
        assert(128 * pow2(57) == pow2(64));
        assert(group * pow2((shift as u64) as nat) <= u64::MAX);
        lemma_u64_shl_is_mul(group, shift as u64);
        assert(shifted == group * p);
        assert(sv + group * p < pow2(64));
        lemma_small_mod(full, pow2(64));
    } else {
        assert(shift == 63);
        assert(p == pow2(63));
        lemma_pow2_unfold(64);
        assert(group << 63u32 == (group % 2) << 63u32) by (bit_vector);
        assert((group % 2) * pow2(63) <= pow2(63)) by (nonlinear_arith)
            requires group % 2 <= 1, pow2(63) > 0;
        assert(((group % 2) as u64) * pow2((63u64) as nat) <= u64::MAX);
        lemma_u64_shl_is_mul(group % 2, 63);
        assert(shifted == (group % 2) * p);
        assert(group * p == (group / 2) * pow2(64) + (group % 2) * p) by (nonlinear_arith)
            requires pow2(64) == 2 * p;
        lemma_mod_multiples_vanish((group / 2) as int, (sv + (group % 2) * p) as int, pow2(64) as int);
        lemma_small_mod((sv + (group % 2) * p) as nat, pow2(64));
    }
    if shift + 7 < 64 {
        lemma_pow2_adds(shift as nat, 7);
        assert(group * p <= 127 * p) by (nonlinear_arith)
            requires group <= 127, p > 0;
    }
}

} // verus!
