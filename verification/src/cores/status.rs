//! The status bits of a core: a register of 128 switches.

use vstd::prelude::*;

verus! {

/// Number of status bits.
pub const STATUS_BITS: usize = 128;

/// Number of 16-bit words that hold the status bits.
pub const STATUS_WORDS: usize = 8;

/// The status bits of a core. A value of this type is a snapshot: it stands
/// for what the register held when it was taken.
#[derive(Clone, Copy, Debug)]
pub struct StatusBitMap {
    bits: [bool; 128],
}

/// Bit `k` of a number.
pub open spec fn spec_bit_of(value: nat, k: nat) -> bool
    decreases k,
{
    if k == 0 {
        value % 2 == 1
    } else {
        spec_bit_of(value / 2, (k - 1) as nat)
    }
}

/// The number whose bits are the bits `start..end` of a register, the bit at
/// `start` being the lowest.
pub open spec fn spec_value_of(bits: Seq<bool>, start: int, end: int) -> nat
    decreases end - start,
{
    if start >= end {
        0
    } else {
        (if bits[start] {
            1nat
        } else {
            0nat
        }) + 2 * spec_value_of(bits, start + 1, end)
    }
}

/// Two to the power of `n`.
pub open spec fn spec_pow2(n: nat) -> nat
    decreases n,
{
    if n == 0 {
        1
    } else {
        2 * spec_pow2((n - 1) as nat)
    }
}

/// The register with the bits `start..end` set to the low bits of `value`
/// and every other bit as it was.
pub open spec fn spec_set_range(bits: Seq<bool>, start: int, end: int, value: nat) -> Seq<bool> {
    Seq::new(
        bits.len(),
        |i: int|
            if start <= i < end {
                spec_bit_of(value, (i - start) as nat)
            } else {
                bits[i]
            },
    )
}

/// Reading a range of bits that hold the low bits of a number gives the
/// number modulo two to the power of the length of the range.
pub proof fn lemma_value_of_bits(bits: Seq<bool>, start: int, end: int, value: nat)
    requires
        0 <= start <= end <= bits.len(),
        forall|i: int| start <= i < end ==> bits[i] == spec_bit_of(value, (i - start) as nat),
    ensures
        spec_value_of(bits, start, end) == value % spec_pow2((end - start) as nat),
    decreases end - start,
{
    if start < end {
        assert forall|i: int| start + 1 <= i < end implies bits[i] == spec_bit_of(
            value / 2,
            (i - (start + 1)) as nat,
        ) by {
            assert(bits[i] == spec_bit_of(value, (i - start) as nat));
        }
        lemma_value_of_bits(bits, start + 1, end, value / 2);
        let p = spec_pow2((end - start - 1) as nat);
        lemma_pow2_positive((end - start - 1) as nat);
        assert(spec_pow2((end - start) as nat) == 2 * p);
        assert(bits[start] == (value % 2 == 1));
        let b: nat = if bits[start] {
            1
        } else {
            0
        };
        assert(b == value % 2);
        assert(value % (2 * p) == value % 2 + 2 * ((value / 2) % p)) by {
            lemma_mod_twice(value, p);
        }
    } else {
        assert(spec_pow2(0) == 1);
    }
}

/// Two to any power is positive.
pub proof fn lemma_pow2_positive(n: nat)
    ensures
        spec_pow2(n) > 0,
    decreases n,
{
    if n > 0 {
        lemma_pow2_positive((n - 1) as nat);
    }
}

proof fn lemma_mod_twice(value: nat, p: nat)
    requires
        p > 0,
    ensures
        value % (2 * p) == value % 2 + 2 * ((value / 2) % p),
{
    let h = value / 2;
    let q = h / p;
    let r = h % p;
    vstd::arithmetic::div_mod::lemma_fundamental_div_mod(h as int, p as int);
    vstd::arithmetic::div_mod::lemma_fundamental_div_mod(value as int, 2);
    assert(value == 2 * h + value % 2);
    assert(h == p * q + r);
    let low = value % 2 + 2 * r;
    assert(value as int == (q as int) * ((2 * p) as int) + low as int) by (nonlinear_arith)
        requires
            value == 2 * h + value % 2,
            h == p * q + r,
            low == value % 2 + 2 * r,
    ;
    assert(0 <= low < 2 * p);
    vstd::arithmetic::div_mod::lemma_fundamental_div_mod_converse(
        value as int,
        (2 * p) as int,
        q as int,
        low as int,
    );
}

impl View for StatusBitMap {
    type V = Seq<bool>;

    closed spec fn view(&self) -> Seq<bool> {
        self.bits@
    }
}

impl StatusBitMap {
    /// The register with every bit clear.
    pub fn new() -> (r: StatusBitMap)
        ensures
            r@.len() == STATUS_BITS,
            forall|i: int| 0 <= i < STATUS_BITS ==> !r@[i],
    {
        StatusBitMap { bits: [false; 128] }
    }

    /// The number of bits: 128.
    pub fn len(&self) -> (r: usize)
        ensures
            r == STATUS_BITS,
            self@.len() == STATUS_BITS,
    {
        STATUS_BITS
    }

    /// One bit.
    pub fn get(&self, index: usize) -> (r: bool)
        requires
            index < STATUS_BITS,
        ensures
            r == self@[index as int],
    {
        self.bits[index]
    }

    /// Sets one bit and leaves the others as they are.
    pub fn set(&mut self, index: usize, value: bool)
        requires
            index < STATUS_BITS,
        ensures
            final(self)@ == old(self)@.update(index as int, value),
            final(self)@.len() == STATUS_BITS,
    {
        self.bits[index] = value;
        assert(self.bits@ =~= old(self).bits@.update(index as int, value));
    }

    /// Sets the bits `start..end` to the low bits of `value`, the bit at
    /// `start` taking the lowest, and leaves the others as they are.
    pub fn set_range(&mut self, start: usize, end: usize, value: u32)
        requires
            start <= end <= STATUS_BITS,
        ensures
            final(self)@ == spec_set_range(old(self)@, start as int, end as int, value as nat),
            final(self)@.len() == STATUS_BITS,
    {
        let mut i: usize = start;
        let mut rest: u32 = value;
        while i < end
            invariant
                start <= i <= end <= STATUS_BITS,
                self.bits@.len() == STATUS_BITS,
                forall|k: nat| #[trigger]
                    spec_bit_of(rest as nat, k) == spec_bit_of(value as nat, k + (i - start) as nat),
                forall|j: int|
                    0 <= j < STATUS_BITS ==> self.bits@[j] == (if start <= j < i {
                        spec_bit_of(value as nat, (j - start) as nat)
                    } else {
                        old(self).bits@[j]
                    }),
            decreases end - i,
        {
            let bit = rest % 2 == 1;
            proof {
                assert(spec_bit_of(rest as nat, 0) == bit);
                assert forall|k: nat| #[trigger]
                    spec_bit_of((rest / 2) as nat, k) == spec_bit_of(
                        value as nat,
                        k + (i + 1 - start) as nat,
                    ) by {
                    assert(spec_bit_of(rest as nat, k + 1) == spec_bit_of((rest / 2) as nat, k));
                    assert(spec_bit_of(rest as nat, k + 1) == spec_bit_of(
                        value as nat,
                        k + 1 + (i - start) as nat,
                    ));
                }
            }
            self.bits[i] = bit;
            rest = rest / 2;
            i = i + 1;
        }
        assert(self.bits@ =~= spec_set_range(
            old(self).bits@,
            start as int,
            end as int,
            value as nat,
        ));
    }

    /// The number held by the bits `start..end`, the bit at `start` being
    /// the lowest. The range holds at most 32 bits.
    pub fn get_range(&self, start: usize, end: usize) -> (r: u32)
        requires
            start <= end <= STATUS_BITS,
            end - start <= 32,
        ensures
            r as nat == spec_value_of(self@, start as int, end as int),
    {
        let mut i: usize = end;
        let mut acc: u32 = 0;
        proof {
            lemma_pow2_positive(0);
        }
        while i > start
            invariant
                start <= i <= end <= STATUS_BITS,
                end - start <= 32,
                self.bits@.len() == STATUS_BITS,
                acc as nat == spec_value_of(self.bits@, i as int, end as int),
                (acc as nat) < spec_pow2((end - i) as nat),
            decreases i - start,
        {
            i = i - 1;
            proof {
                lemma_pow2_bound((end - i) as nat);
                assert(spec_pow2((end - i) as nat) == 2 * spec_pow2((end - i - 1) as nat));
            }
            let b: u32 = if self.bits[i] {
                1
            } else {
                0
            };
            acc = b + 2 * acc;
        }
        acc
    }

    /// The bits one by one, each as 1 or 0.
    pub fn to_flags(&self) -> (r: Vec<u8>)
        ensures
            r@.len() == STATUS_BITS,
            forall|i: int|
                0 <= i < STATUS_BITS ==> #[trigger] r@[i] == (if self@[i] {
                    1u8
                } else {
                    0u8
                }),
    {
        let mut r: Vec<u8> = Vec::new();
        let mut i: usize = 0;
        while i < STATUS_BITS
            invariant
                i <= STATUS_BITS,
                r@.len() == i,
                self.bits@.len() == STATUS_BITS,
                forall|j: int|
                    0 <= j < i ==> #[trigger] r@[j] == (if self.bits@[j] {
                        1u8
                    } else {
                        0u8
                    }),
            decreases STATUS_BITS - i,
        {
            r.push(if self.bits[i] {
                1
            } else {
                0
            });
            i = i + 1;
        }
        r
    }

    /// The register with each bit set where the flag at its place is not
    /// zero, and clear where it is zero or there is no flag at its place.
    pub fn from_flags(flags: &[u8]) -> (r: StatusBitMap)
        ensures
            r@.len() == STATUS_BITS,
            forall|i: int|
                0 <= i < STATUS_BITS ==> #[trigger] r@[i] == (i < flags@.len() && flags@[i] != 0),
    {
        let mut r = StatusBitMap::new();
        let mut i: usize = 0;
        while i < STATUS_BITS && i < flags.len()
            invariant
                i <= STATUS_BITS,
                i <= flags@.len(),
                r.bits@.len() == STATUS_BITS,
                forall|j: int| 0 <= j < i ==> #[trigger] r.bits@[j] == (flags@[j] != 0),
                forall|j: int| i <= j < STATUS_BITS ==> !(#[trigger] r.bits@[j]),
            decreases STATUS_BITS - i,
        {
            r.bits[i] = flags[i] != 0;
            i = i + 1;
        }
        r
    }

    /// The register as eight 16-bit words, bit 0 of the register being the
    /// lowest bit of the first word.
    pub fn as_words(&self) -> (r: [u16; 8])
        ensures
            forall|w: int|
                0 <= w < STATUS_WORDS ==> (#[trigger] r@[w]) as nat == spec_value_of(
                    self@,
                    16 * w,
                    16 * w + 16,
                ),
    {
        let mut r: [u16; 8] = [0; 8];
        let mut w: usize = 0;
        while w < 8
            invariant
                w <= 8,
                forall|v: int|
                    0 <= v < w ==> (#[trigger] r@[v]) as nat == spec_value_of(
                        self@,
                        16 * v,
                        16 * v + 16,
                    ),
            decreases 8 - w,
        {
            let word = self.get_range(16 * w, 16 * w + 16);
            proof {
                lemma_value_of_bound(self@, 16 * w as int, 16 * w as int + 16);
                lemma_pow2_16();
            }
            r[w] = word as u16;
            w = w + 1;
        }
        r
    }
}

/// Two to a power of at most 32 fits in 33 bits.
pub proof fn lemma_pow2_bound(n: nat)
    requires
        n <= 32,
    ensures
        spec_pow2(n) <= 0x1_0000_0000,
    decreases n,
{
    if n > 0 {
        lemma_pow2_bound((n - 1) as nat);
        lemma_pow2_step_bound((n - 1) as nat);
    }
}

proof fn lemma_pow2_step_bound(n: nat)
    requires
        n < 32,
    ensures
        spec_pow2(n) <= 0x8000_0000,
    decreases 32 - n,
{
    if n < 31 {
        lemma_pow2_step_bound(n + 1);
        assert(spec_pow2(n + 1) == 2 * spec_pow2(n));
    } else {
        lemma_pow2_31();
    }
}

proof fn lemma_pow2_16()
    ensures
        spec_pow2(16) == 0x1_0000,
{
    reveal_with_fuel(spec_pow2, 17);
}

proof fn lemma_pow2_31()
    ensures
        spec_pow2(31) == 0x8000_0000,
{
    lemma_pow2_16();
    lemma_pow2_add(16, 15);
    reveal_with_fuel(spec_pow2, 16);
}

proof fn lemma_pow2_add(a: nat, b: nat)
    ensures
        spec_pow2(a + b) == spec_pow2(a) * spec_pow2(b),
    decreases b,
{
    if b == 0 {
        assert(spec_pow2(a) * 1 == spec_pow2(a));
    } else {
        lemma_pow2_add(a, (b - 1) as nat);
        assert(spec_pow2(a + b) == 2 * spec_pow2((a + b - 1) as nat));
        assert(2 * (spec_pow2(a) * spec_pow2((b - 1) as nat)) == spec_pow2(a) * (2 * spec_pow2(
            (b - 1) as nat,
        ))) by (nonlinear_arith);
    }
}

/// The number held by a range of bits is below two to the power of the
/// length of the range.
pub proof fn lemma_value_of_bound(bits: Seq<bool>, start: int, end: int)
    requires
        start <= end,
    ensures
        spec_value_of(bits, start, end) < spec_pow2((end - start) as nat),
    decreases end - start,
{
    if start < end {
        lemma_value_of_bound(bits, start + 1, end);
    }
}

/// Bits written to a range are the bits read from it: reading the range
/// after setting it to a number gives the number modulo two to the power of
/// the length of the range, and every bit outside the range is as it was.
pub proof fn law_set_range_then_read(bits: Seq<bool>, start: int, end: int, value: nat)
    requires
        0 <= start <= end <= bits.len(),
    ensures
        spec_value_of(spec_set_range(bits, start, end, value), start, end) == value % spec_pow2(
            (end - start) as nat,
        ),
        forall|i: int|
            0 <= i < bits.len() && !(start <= i < end) ==> spec_set_range(
                bits,
                start,
                end,
                value,
            )[i] == bits[i],
{
    lemma_value_of_bits(spec_set_range(bits, start, end, value), start, end, value);
}

} // verus!
