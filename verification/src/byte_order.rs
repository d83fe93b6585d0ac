//! Integers as bytes, in either order.

use vstd::prelude::*;

verus! {

/// The order in which the bytes of an integer stand.
#[derive(Debug, Clone, Copy, PartialEq, Eq, Structural)]
pub enum ByteOrder {
    /// The least significant byte comes first.
    Little,
    /// The most significant byte comes first.
    Big,
}

/// The bytes with the least significant one first.
pub open spec fn ascending(order: ByteOrder, bytes: Seq<u8>) -> Seq<u8> {
    match order {
        ByteOrder::Little => bytes,
        ByteOrder::Big => bytes.reverse(),
    }
}

/// The number whose base-256 digits are `digits`, the least significant first.
pub open spec fn base256(digits: Seq<u8>) -> int
    decreases digits.len(),
{
    if digits.len() == 0 {
        0
    } else {
        digits[0] + 256 * base256(digits.skip(1))
    }
}

/// The lowest `count` base-256 digits of `n`, the least significant first.
pub open spec fn digits256(n: int, count: nat) -> Seq<u8>
    decreases count,
{
    if count == 0 {
        Seq::empty()
    } else {
        seq![(n % 256) as u8] + digits256(n / 256, (count - 1) as nat)
    }
}

/// The integer that lies in `-half .. half` and differs from `n` by a multiple of
/// `2 * half`, for `n` in `0 .. 2 * half`.
pub open spec fn two_complement(n: int, half: int) -> int {
    if n < half {
        n
    } else {
        n - 2 * half
    }
}

/// The 32-bit integer that four bytes stand for.
pub open spec fn i32_of(order: ByteOrder, bytes: Seq<u8>) -> i32 {
    two_complement(base256(ascending(order, bytes)), 0x8000_0000) as i32
}

/// The four bytes that stand for a 32-bit integer.
pub open spec fn i32_bytes(order: ByteOrder, n: i32) -> Seq<u8> {
    ascending(order, digits256(n as int % 0x1_0000_0000, 4))
}

/// The 64-bit integer that eight bytes stand for.
pub open spec fn i64_of(order: ByteOrder, bytes: Seq<u8>) -> i64 {
    two_complement(base256(ascending(order, bytes)), 0x8000_0000_0000_0000) as i64
}

/// The eight bytes that stand for a 64-bit integer.
pub open spec fn i64_bytes(order: ByteOrder, n: i64) -> Seq<u8> {
    ascending(order, digits256(n as int % 0x1_0000_0000_0000_0000, 8))
}

/// Two to the power of eight times `count`.
pub open spec fn power256(count: nat) -> int
    decreases count,
{
    if count == 0 {
        1
    } else {
        256 * power256((count - 1) as nat)
    }
}

/// A number is no negative one and has no more digits than it was made of.
pub proof fn lemma_base256_bounds(digits: Seq<u8>)
    ensures
        0 <= base256(digits) < power256(digits.len()),
    decreases digits.len(),
{
    if digits.len() > 0 {
        lemma_base256_bounds(digits.skip(1));
    }
}

/// The digits of a number make that number again.
pub proof fn lemma_base256_of_digits(n: int, count: nat)
    requires
        0 <= n < power256(count),
    ensures
        digits256(n, count).len() == count,
        base256(digits256(n, count)) == n,
    decreases count,
{
    if count > 0 {
        lemma_base256_of_digits(n / 256, (count - 1) as nat);
        assert(digits256(n, count).skip(1) =~= digits256(n / 256, (count - 1) as nat));
    }
}

proof fn lemma_low_digit(low: int, rest: int)
    requires
        0 <= low < 256,
    ensures
        (low + 256 * rest) % 256 == low,
        (low + 256 * rest) / 256 == rest,
{
}

/// The number that digits make has those digits.
pub proof fn lemma_digits_of_base256(digits: Seq<u8>)
    ensures
        digits256(base256(digits), digits.len()) == digits,
    decreases digits.len(),
{
    if digits.len() > 0 {
        let rest = digits.skip(1);
        lemma_digits_of_base256(rest);
        lemma_low_digit(digits[0] as int, base256(rest));
        assert(digits256(base256(digits), digits.len()) == seq![digits[0]] + rest);
        assert(digits =~= seq![digits[0]] + rest);
    } else {
        assert(digits =~= Seq::empty());
    }
}

proof fn lemma_power256()
    ensures
        power256(4) == 0x1_0000_0000,
        power256(8) == 0x1_0000_0000_0000_0000,
{
    reveal_with_fuel(power256, 9);
}

/// Turning the bytes round twice changes nothing.
pub proof fn lemma_ascending(order: ByteOrder, bytes: Seq<u8>)
    ensures
        ascending(order, bytes).len() == bytes.len(),
        ascending(order, ascending(order, bytes)) == bytes,
{
    assert(bytes.reverse().reverse() =~= bytes);
}

/// Reading back a 32-bit integer gives the integer that was written.
pub proof fn law_i32_read_back(order: ByteOrder, n: i32)
    ensures
        i32_bytes(order, n).len() == 4,
        i32_of(order, i32_bytes(order, n)) == n,
{
    lemma_power256();
    let u = n as int % 0x1_0000_0000;
    lemma_base256_of_digits(u, 4);
    lemma_ascending(order, digits256(u, 4));
}

/// Writing a 32-bit integer that was read gives the bytes that it was read from.
pub proof fn law_i32_write_back(order: ByteOrder, bytes: Seq<u8>)
    requires
        bytes.len() == 4,
    ensures
        i32_bytes(order, i32_of(order, bytes)) == bytes,
{
    lemma_power256();
    lemma_ascending(order, bytes);
    lemma_base256_bounds(ascending(order, bytes));
    lemma_digits_of_base256(ascending(order, bytes));
}

/// Reading back a 64-bit integer gives the integer that was written.
pub proof fn law_i64_read_back(order: ByteOrder, n: i64)
    ensures
        i64_bytes(order, n).len() == 8,
        i64_of(order, i64_bytes(order, n)) == n,
{
    lemma_power256();
    let u = n as int % 0x1_0000_0000_0000_0000;
    lemma_base256_of_digits(u, 8);
    lemma_ascending(order, digits256(u, 8));
}

/// Writing a 64-bit integer that was read gives the bytes that it was read from.
pub proof fn law_i64_write_back(order: ByteOrder, bytes: Seq<u8>)
    requires
        bytes.len() == 8,
    ensures
        i64_bytes(order, i64_of(order, bytes)) == bytes,
{
    lemma_power256();
    lemma_ascending(order, bytes);
    lemma_base256_bounds(ascending(order, bytes));
    lemma_digits_of_base256(ascending(order, bytes));
}

/// `u16::to_ne_bytes` returns the two bytes of a number in the order of the
/// machine, which is one of the two.
#[verifier::external_body]
fn native_bytes(n: u16) -> (bytes: [u8; 2])
    ensures
        bytes@ == seq![(n % 256) as u8, (n / 256) as u8] || bytes@ == seq![
            (n / 256) as u8,
            (n % 256) as u8,
        ],
{
    n.to_ne_bytes()
}

/// Whether the bytes that the machine makes of the number 1 stand for 1 in this order.
/// Which of the two orders that is depends on the machine.
pub closed spec fn is_native(order: ByteOrder) -> bool {
    exists|bytes: [u8; 2]| #[trigger]
        call_ensures(native_bytes, (1u16,), bytes) && base256(ascending(order, bytes@)) == 1
}

impl ByteOrder {
    /// The order of the machine that the program runs on.
    pub fn native() -> (order: ByteOrder)
        ensures
            is_native(order),
    {
        let bytes: [u8; 2] = native_bytes(1);
        let order = if bytes[0] == 1 {
            ByteOrder::Little
        } else {
            ByteOrder::Big
        };
        proof {
            reveal_with_fuel(base256, 3);
            assert(ascending(order, bytes@) =~= seq![1u8, 0u8]);
        }
        order
    }

    /// The number that the bytes stand for, where their highest bit is no sign.
    fn unsigned(self, bytes: &[u8]) -> (n: u128)
        requires
            bytes@.len() <= 8,
        ensures
            n == base256(ascending(self, bytes@)),
            n < power256(bytes@.len()),
            power256(bytes@.len()) <= 0x1_0000_0000_0000_0000,
    {
        proof {
            lemma_power256();
            lemma_ascending(self, bytes@);
            lemma_base256_bounds(ascending(self, bytes@));
            lemma_power256_grows(bytes@.len(), 8);
        }
        let ghost digits = ascending(self, bytes@);
        let count: usize = bytes.len();
        let mut n: u128 = 0;
        let mut i: usize = count;
        assert(digits.skip(count as int) =~= Seq::empty());
        while i > 0
            invariant
                0 <= i <= count,
                count == bytes@.len() <= 8,
                digits == ascending(self, bytes@),
                digits.len() == count,
                n == base256(digits.skip(i as int)),
                n < power256((count - i) as nat),
                power256(8) == 0x1_0000_0000_0000_0000,
            decreases i,
        {
            let digit: u8 = match self {
                ByteOrder::Little => bytes[i - 1],
                ByteOrder::Big => bytes[count - i],
            };
            proof {
                assert(digit == digits[i - 1]);
                assert(digits.skip(i - 1).skip(1) =~= digits.skip(i as int));
                lemma_power256_grows((count - i) as nat, 8);
                lemma_base256_bounds(digits.skip(i - 1));
            }
            n = digit as u128 + 256 * n;
            i = i - 1;
        }
        assert(digits.skip(0) =~= digits);
        n
    }

    /// The lowest `count` bytes of `n`.
    fn bytes_of(self, n: u128, count: usize) -> (bytes: Vec<u8>)
        requires
            0 < count <= 8,
        ensures
            bytes@ == ascending(self, digits256(n as int, count as nat)),
            bytes@.len() == count,
    {
        let mut digits: Vec<u8> = Vec::new();
        let mut rest: u128 = n;
        let mut i: usize = 0;
        proof {
            lemma_digits256_len(n as int, count as nat);
        }
        assert(digits@ + digits256(rest as int, count as nat) =~= digits256(n as int, count as nat));
        while i < count
            invariant
                0 <= i <= count,
                digits@.len() == i,
                digits@ + digits256(rest as int, (count - i) as nat) == digits256(
                    n as int,
                    count as nat,
                ),
            decreases count - i,
        {
            let ghost before = digits@;
            let ghost tail = digits256(rest as int / 256, (count - i - 1) as nat);
            digits.push((rest % 256) as u8);
            assert(digits@ + tail =~= before + (seq![(rest as int % 256) as u8] + tail));
            rest = rest / 256;
            i = i + 1;
        }
        assert(digits@ =~= digits256(n as int, count as nat));
        match self {
            ByteOrder::Little => digits,
            ByteOrder::Big => {
                let mut turned: Vec<u8> = Vec::new();
                let mut left: usize = count;
                while left > 0
                    invariant
                        0 <= left <= count,
                        digits@.len() == count,
                        turned@.len() == count - left,
                        forall|k: int|
                            0 <= k < turned@.len() ==> turned@[k] == digits@[count - 1 - k],
                    decreases left,
                {
                    turned.push(digits[left - 1]);
                    left = left - 1;
                }
                assert(turned@ =~= digits@.reverse());
                turned
            },
        }
    }

    /// The 32-bit integer that four bytes stand for.
    pub fn read_i32(self, bytes: &[u8]) -> (n: i32)
        requires
            bytes@.len() == 4,
        ensures
            n == i32_of(self, bytes@),
    {
        proof {
            lemma_power256();
        }
        let u: u128 = self.unsigned(bytes);
        if u < 0x8000_0000 {
            u as i32
        } else {
            (u as i64 - 0x1_0000_0000) as i32
        }
    }

    /// The four bytes that stand for a 32-bit integer.
    pub fn write_i32(self, n: i32) -> (bytes: Vec<u8>)
        ensures
            bytes@ == i32_bytes(self, n),
            bytes@.len() == 4,
    {
        let u: u128 = if n < 0 {
            (n as i64 + 0x1_0000_0000) as u128
        } else {
            n as u128
        };
        self.bytes_of(u, 4)
    }

    /// The 64-bit integer that eight bytes stand for.
    pub fn read_i64(self, bytes: &[u8]) -> (n: i64)
        requires
            bytes@.len() == 8,
        ensures
            n == i64_of(self, bytes@),
    {
        proof {
            lemma_power256();
        }
        let u: u128 = self.unsigned(bytes);
        if u < 0x8000_0000_0000_0000 {
            u as i64
        } else {
            (u as i128 - 0x1_0000_0000_0000_0000) as i64
        }
    }

    /// The eight bytes that stand for a 64-bit integer.
    pub fn write_i64(self, n: i64) -> (bytes: Vec<u8>)
        ensures
            bytes@ == i64_bytes(self, n),
            bytes@.len() == 8,
    {
        let u: u128 = if n < 0 {
            (n as i128 + 0x1_0000_0000_0000_0000) as u128
        } else {
            n as u128
        };
        self.bytes_of(u, 8)
    }
}

proof fn lemma_power256_grows(low: nat, high: nat)
    requires
        low <= high,
    ensures
        0 < power256(low) <= power256(high),
    decreases high,
{
    if high > 0 {
        if low == high {
            lemma_power256_grows((low - 1) as nat, (high - 1) as nat);
        } else {
            lemma_power256_grows(low, (high - 1) as nat);
        }
    }
}

proof fn lemma_digits256_len(n: int, count: nat)
    ensures
        digits256(n, count).len() == count,
    decreases count,
{
    if count > 0 {
        lemma_digits256_len(n / 256, (count - 1) as nat);
    }
}

/// The 32-bit integer with the same lowest 32 bits as `n`.
pub open spec fn low_i32(n: int) -> i32 {
    two_complement(n % 0x1_0000_0000, 0x8000_0000) as i32
}

/// Keeps the lowest 32 bits of a number.
pub(crate) fn truncate_i32(n: u128) -> (low: i32)
    ensures
        low == low_i32(n as int),
{
    let u: u128 = n % 0x1_0000_0000;
    if u < 0x8000_0000 {
        u as i32
    } else {
        (u as i64 - 0x1_0000_0000) as i32
    }
}

/// What four bytes stand for: with the least significant byte first in `Little`, last in
/// `Big`, and with negative numbers as two's complements.
pub proof fn law_what_four_bytes_stand_for(a: u8, b: u8, c: u8, d: u8)
    ensures
        ({
            let n = a + 0x100 * b + 0x1_0000 * c + 0x100_0000 * d;
            let signed = if n < 0x8000_0000 {
                n
            } else {
                n - 0x1_0000_0000
            };
            &&& i32_of(ByteOrder::Little, seq![a, b, c, d]) == signed
            &&& i32_of(ByteOrder::Big, seq![d, c, b, a]) == signed
        }),
{
    reveal_with_fuel(base256, 5);
    let bytes = seq![a, b, c, d];
    assert(seq![d, c, b, a].reverse() =~= bytes);
    assert(bytes.skip(1) =~= seq![b, c, d]);
    assert(seq![b, c, d].skip(1) =~= seq![c, d]);
    assert(seq![c, d].skip(1) =~= seq![d]);
    assert(seq![d].skip(1) =~= Seq::empty());
    assert(base256(bytes) == a + 256 * (b + 256 * (c + 256 * (d as int))));
}

/// What eight bytes stand for, in the same way: the upper four count two to the power of
/// 32 times.
pub proof fn law_what_eight_bytes_stand_for(low: Seq<u8>, high: Seq<u8>)
    requires
        low.len() == 4,
        high.len() == 4,
    ensures
        i64_of(ByteOrder::Little, low + high) == i64_of(ByteOrder::Big, (low + high).reverse()),
        i64_of(ByteOrder::Little, low + high) == i32_of(ByteOrder::Little, high) * 0x1_0000_0000
            + base256(low),
{
    lemma_power256();
    lemma_base256_bounds(low);
    lemma_base256_bounds(high);
    lemma_base256_joined(low, high);
    assert((low + high).reverse().reverse() =~= low + high);
}

proof fn lemma_base256_joined(low: Seq<u8>, high: Seq<u8>)
    ensures
        base256(low + high) == base256(low) + power256(low.len()) * base256(high),
    decreases low.len(),
{
    if low.len() == 0 {
        assert(low + high =~= high);
    } else {
        let rest = low.skip(1);
        lemma_base256_joined(rest, high);
        assert((low + high).skip(1) =~= rest + high);
        let p = power256(rest.len());
        let h = base256(high);
        assert(256 * (p * h) == (256 * p) * h) by (nonlinear_arith);
    }
}

} // verus!
