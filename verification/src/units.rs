//! Display units for byte quantities: exact conversion into a unit, rounding
//! to two decimal places, and the human-readable text of a transfer rate.

use crate::rate::NANOS_PER_SECOND;
use crate::text::{fixed2, push_fixed2};
use vstd::arithmetic::div_mod::{
    lemma_fundamental_div_mod, lemma_fundamental_div_mod_converse, lemma_mod_pos_bound,
};
use vstd::prelude::*;
use vstd::string::*;

verus! {

/// The unit in which byte quantities are shown.
#[derive(Debug, Clone, Copy, PartialEq, Eq, Structural)]
pub enum DataSize {
    Byte,
    Kilobyte,
    Megabyte,
    Gigabyte,
}

/// A byte quantity expressed exactly in a display unit: `whole` full units
/// plus `remainder` bytes that do not fill another unit.
#[derive(Debug, Clone, Copy, PartialEq, Eq, Structural)]
pub struct UnitQuantity {
    pub unit: DataSize,
    pub whole: u64,
    pub remainder: u64,
}

/// `num / den` rounded to the nearest integer, a tie going to the even
/// neighbour (meaningful for `num >= 0` and `den > 0`).
pub open spec fn round_half_even(num: int, den: int) -> int {
    let q = num / den;
    let r = num % den;
    if 2 * r < den {
        q
    } else if 2 * r > den {
        q + 1
    } else if q % 2 == 0 {
        q
    } else {
        q + 1
    }
}

/// The text of a transfer rate of `delta` bytes over `elapsed` nanoseconds
/// shown in `unit`: the rate with two decimal places, a space, the unit's
/// suffix and `/s` (meaningful for `elapsed > 0`).
pub open spec fn rate_text(unit: DataSize, delta: nat, elapsed: nat) -> Seq<char> {
    fixed2(unit.rate_hundredths(delta, elapsed)) + seq![' '] + unit.suffix_text() + seq![
        '/',
        's',
    ]
}

impl DataSize {
    /// Number of bytes that make up one of this unit (powers of 1024).
    pub open spec fn bytes_per_unit(self) -> int {
        match self {
            DataSize::Byte => 1,
            DataSize::Kilobyte => 1024,
            DataSize::Megabyte => 1_048_576,
            DataSize::Gigabyte => 1_073_741_824,
        }
    }

    /// The abbreviation written after a quantity in this unit.
    pub open spec fn suffix_text(self) -> Seq<char> {
        match self {
            DataSize::Byte => seq!['B'],
            DataSize::Kilobyte => seq!['K', 'B'],
            DataSize::Megabyte => seq!['M', 'B'],
            DataSize::Gigabyte => seq!['G', 'B'],
        }
    }

    /// `bytes` expressed in this unit, in hundredths of the unit, rounded to
    /// the nearest hundredth with ties to even.
    pub open spec fn hundredths_of(self, bytes: nat) -> nat {
        round_half_even(bytes as int * 100, self.bytes_per_unit()) as nat
    }

    /// The rate of `delta` bytes over `elapsed` nanoseconds, in hundredths of
    /// this unit per second: the exact quotient, rounded once, to the nearest
    /// hundredth with ties to even (meaningful for `elapsed > 0`).
    pub open spec fn rate_hundredths(self, delta: nat, elapsed: nat) -> nat {
        round_half_even(
            delta * NANOS_PER_SECOND as int * 100,
            elapsed * self.bytes_per_unit(),
        ) as nat
    }

    /// Executable counterpart of [`DataSize::bytes_per_unit`].
    pub fn unit_bytes(&self) -> (n: u64)
        ensures
            n == self.bytes_per_unit(),
    {
        match self {
            DataSize::Byte => 1,
            DataSize::Kilobyte => 1024,
            DataSize::Megabyte => 1_048_576,
            DataSize::Gigabyte => 1_073_741_824,
        }
    }

    /// The abbreviation of this unit: `B`, `KB`, `MB` or `GB`.
    pub fn get_size_suffix(&self) -> (s: &'static str)
        ensures
            s@ == self.suffix_text(),
    {
        proof {
            reveal_strlit("B");
            reveal_strlit("KB");
            reveal_strlit("MB");
            reveal_strlit("GB");
        }
        let s = match self {
            DataSize::Byte => "B",
            DataSize::Kilobyte => "KB",
            DataSize::Megabyte => "MB",
            DataSize::Gigabyte => "GB",
        };
        assert(s@ =~= self.suffix_text());
        s
    }

    /// Expresses `bytes` in this unit without loss: the number of whole units
    /// and the bytes left over.
    pub fn convert(&self, bytes: u64) -> (q: UnitQuantity)
        ensures
            q.unit == *self,
            q.whole == bytes as int / self.bytes_per_unit(),
            q.remainder == bytes as int % self.bytes_per_unit(),
            q.well_formed(),
            q.total_bytes() == bytes,
    {
        let per_unit = self.unit_bytes();
        let q = UnitQuantity { unit: *self, whole: bytes / per_unit, remainder: bytes % per_unit };
        assert(q.whole * per_unit + q.remainder == bytes) by (nonlinear_arith)
            requires
                per_unit > 0,
                q.whole == bytes / per_unit,
                q.remainder == bytes % per_unit,
        ;
        q
    }

    /// The longest time, in nanoseconds, whose product with the size of this
    /// unit still fits in 128 bits.
    fn longest_elapsed(&self) -> (limit: u128)
        ensures
            forall|elapsed: u128|
                elapsed <= limit <==> #[trigger] (elapsed * self.bytes_per_unit()) <= u128::MAX,
    {
        let limit: u128 = match self {
            DataSize::Byte => u128::MAX,
            DataSize::Kilobyte => u128::MAX / 1024,
            DataSize::Megabyte => u128::MAX / 1_048_576,
            DataSize::Gigabyte => u128::MAX / 1_073_741_824,
        };
        assert forall|elapsed: u128|
            elapsed <= limit <==> #[trigger] (elapsed * self.bytes_per_unit()) <= u128::MAX by {
            lemma_times_unit(*self, elapsed as int);
        }
        limit
    }

    /// Computes [`DataSize::rate_hundredths`].
    pub fn rate_in_hundredths(&self, delta: u64, elapsed: u128) -> (h: u128)
        requires
            elapsed > 0,
        ensures
            h == self.rate_hundredths(delta as nat, elapsed as nat),
    {
        let scaled: u128 = delta as u128 * NANOS_PER_SECOND * 100;
        if elapsed > self.longest_elapsed() {
            // the divisor is beyond 128 bits, so more than twice the dividend
            proof {
                lemma_below_the_divisor(scaled as int, elapsed * self.bytes_per_unit());
            }
            0
        } else {
            let per_unit: u128 = self.unit_bytes() as u128;
            let divisor: u128 = elapsed * per_unit;
            assert(divisor > 0) by {
                lemma_times_unit(*self, elapsed as int);
            }
            let rounded_down: u128 = scaled / divisor;
            let rest: u128 = scaled % divisor;
            if rest < divisor - rest {
                rounded_down
            } else if rest > divisor - rest {
                rounded_down + 1
            } else if rounded_down % 2 == 0 {
                rounded_down
            } else {
                rounded_down + 1
            }
        }
    }

    /// The text of a transfer rate of `delta` bytes over `elapsed`
    /// nanoseconds shown in this unit, such as `1.00 KB/s`.
    pub fn format_rate(&self, delta: u64, elapsed: u128) -> (s: String)
        requires
            elapsed > 0,
        ensures
            s@ == rate_text(*self, delta as nat, elapsed as nat),
    {
        let hundredths = self.rate_in_hundredths(delta, elapsed);
        let mut s = String::new();
        push_fixed2(&mut s, hundredths);
        proof {
            reveal_strlit(" ");
            reveal_strlit("/s");
        }
        s.append(" ");
        s.append(self.get_size_suffix());
        s.append("/s");
        assert(s@ =~= rate_text(*self, delta as nat, elapsed as nat));
        s
    }
}

impl UnitQuantity {
    /// The remainder does not fill a unit.
    pub open spec fn well_formed(self) -> bool {
        self.remainder < self.unit.bytes_per_unit()
    }

    /// The number of bytes this quantity stands for.
    pub open spec fn total_bytes(self) -> int {
        self.whole * self.unit.bytes_per_unit() + self.remainder
    }

    /// The quantity in hundredths of its unit, rounded to the nearest
    /// hundredth with ties to even.
    pub fn hundredths(&self) -> (h: u128)
        ensures
            h == self.unit.hundredths_of(self.total_bytes() as nat),
    {
        let per_unit: u128 = self.unit.unit_bytes() as u128;
        assert(self.whole * per_unit <= 0xFFFF_FFFF_FFFF_FFFF * 0x4000_0000) by (nonlinear_arith)
            requires
                self.whole <= 0xFFFF_FFFF_FFFF_FFFF,
                per_unit <= 0x4000_0000,
        ;
        let total: u128 = self.whole as u128 * per_unit + self.remainder as u128;
        let scaled: u128 = total * 100;
        let rounded_down: u128 = scaled / per_unit;
        let rest: u128 = scaled % per_unit;
        if 2 * rest < per_unit {
            rounded_down
        } else if 2 * rest > per_unit {
            rounded_down + 1
        } else if rounded_down % 2 == 0 {
            rounded_down
        } else {
            rounded_down + 1
        }
    }
}

/// The product of a number with the size of a unit, unit by unit.
pub proof fn lemma_times_unit(unit: DataSize, n: int)
    ensures
        n * unit.bytes_per_unit() == match unit {
            DataSize::Byte => n,
            DataSize::Kilobyte => 1024 * n,
            DataSize::Megabyte => 1_048_576 * n,
            DataSize::Gigabyte => 1_073_741_824 * n,
        },
{
    let size = unit.bytes_per_unit();
    match unit {
        DataSize::Byte => {
            assert(n * size == n) by (nonlinear_arith)
                requires
                    size == 1,
            ;
        },
        DataSize::Kilobyte => {
            assert(n * size == 1024 * n) by (nonlinear_arith)
                requires
                    size == 1024,
            ;
        },
        DataSize::Megabyte => {
            assert(n * size == 1_048_576 * n) by (nonlinear_arith)
                requires
                    size == 1_048_576,
            ;
        },
        DataSize::Gigabyte => {
            assert(n * size == 1_073_741_824 * n) by (nonlinear_arith)
                requires
                    size == 1_073_741_824,
            ;
        },
    }
}

/// Rounding a quotient does not depend on the scale of its two parts:
/// `num * scale` over `den * scale` rounds as `num` over `den` does.
pub proof fn lemma_round_half_even_scaled(num: int, den: int, scale: int)
    requires
        0 <= num,
        0 < den,
        0 < scale,
    ensures
        round_half_even(num * scale, den * scale) == round_half_even(num, den),
{
    let q = num / den;
    let r = num % den;
    lemma_fundamental_div_mod(num, den);
    lemma_mod_pos_bound(num, den);
    assert(num == q * den + r) by (nonlinear_arith)
        requires
            num == den * q + r,
    ;
    assert(num * scale == q * (den * scale) + r * scale) by (nonlinear_arith)
        requires
            num == q * den + r,
    ;
    assert(0 <= r * scale < den * scale) by (nonlinear_arith)
        requires
            0 <= r < den,
            0 < scale,
    ;
    lemma_fundamental_div_mod_converse(num * scale, den * scale, q, r * scale);
    assert(2 * (r * scale) < den * scale <==> 2 * r < den) by (nonlinear_arith)
        requires
            0 < scale,
    ;
    assert(2 * (r * scale) > den * scale <==> 2 * r > den) by (nonlinear_arith)
        requires
            0 < scale,
    ;
}

/// A natural number below its divisor has the quotient zero and is its own
/// remainder.
pub proof fn lemma_below_the_divisor(num: int, den: int)
    requires
        0 <= num < den,
    ensures
        num / den == 0,
        num % den == num,
{
    assert(num / den == 0 && num % den == num) by (nonlinear_arith)
        requires
            0 <= num < den,
    ;
}

} // verus!
