use vstd::prelude::*;

verus! {

/// `10^n`.
pub open spec fn pow10(n: nat) -> nat
    decreases n,
{
    if n == 0 {
        1
    } else {
        10 * pow10((n - 1) as nat)
    }
}

/// `n / d` rounded to the nearest integer, halves away from zero (`n >= 0`, `d > 0`).
pub open spec fn div_round_half_up(n: int, d: int) -> int {
    if 2 * (n % d) >= d {
        n / d + 1
    } else {
        n / d
    }
}

/// The value `mantissa / 10^scale` in minor units (hundredths), rounded to the
/// nearest minor unit with halves away from zero.
pub open spec fn minor_units_of(mantissa: int, scale: nat) -> int {
    if scale <= 2 {
        mantissa * pow10((2 - scale) as nat)
    } else if mantissa >= 0 {
        div_round_half_up(mantissa, pow10((scale - 2) as nat) as int)
    } else {
        -div_round_half_up(-mantissa, pow10((scale - 2) as nat) as int)
    }
}

pub open spec fn fits_i64(v: int) -> bool {
    i64::MIN <= v <= i64::MAX
}

/// A decimal amount of currency units, `mantissa / 10^scale`, as it arrives at
/// the boundary of the system (for example "49.99" is mantissa 4999, scale 2).
#[derive(Clone, Copy, Debug, PartialEq, Eq, Structural)]
pub struct DecimalAmount {
    pub mantissa: i128,
    pub scale: u32,
}

proof fn lemma_pow10_positive(n: nat)
    ensures
        pow10(n) >= 1,
    decreases n,
{
    if n > 0 {
        lemma_pow10_positive((n - 1) as nat);
    }
}

proof fn lemma_pow10_grows(a: nat, b: nat)
    requires
        a <= b,
    ensures
        pow10(a) <= pow10(b),
    decreases b,
{
    if a < b {
        lemma_pow10_grows(a, (b - 1) as nat);
        lemma_pow10_positive((b - 1) as nat);
    }
}

proof fn lemma_pow10_38_39()
    ensures
        pow10(38) == 100000000000000000000000000000000000000nat,
        pow10(39) == 1000000000000000000000000000000000000000nat,
{
    reveal_with_fuel(pow10, 40);
}

/// `10^n` as an unsigned 128-bit integer.
fn pow10_u128(n: u32) -> (r: u128)
    requires
        n <= 38,
    ensures
        r == pow10(n as nat),
{
    let mut r: u128 = 1;
    let mut i: u32 = 0;
    while i < n
        invariant
            i <= n <= 38,
            r == pow10(i as nat),
        decreases n - i,
    {
        proof {
            lemma_pow10_grows((i + 1) as nat, 38);
            lemma_pow10_38_39();
        }
        r = r * 10;
        i = i + 1;
    }
    r
}

impl DecimalAmount {
    /// The amount in minor units, rounded to the nearest minor unit (halves
    /// away from zero); `None` when that number does not fit in an `i64`.
    pub fn to_minor_units(&self) -> (r: Option<i64>)
        ensures
            r == (if fits_i64(minor_units_of(self.mantissa as int, self.scale as nat)) {
                Some(minor_units_of(self.mantissa as int, self.scale as nat) as i64)
            } else {
                None::<i64>
            }),
    {
        let m = self.mantissa;
        let ghost v = minor_units_of(m as int, self.scale as nat);
        if self.scale <= 2 {
            let f: i128 = if self.scale == 2 {
                1
            } else if self.scale == 1 {
                10
            } else {
                100
            };
            assert(f == pow10((2 - self.scale) as nat)) by {
                reveal_with_fuel(pow10, 3);
            }
            if m > (i64::MAX as i128) || m < (i64::MIN as i128) {
                proof {
                    assert(v == m * f);
                    assert(!fits_i64(v)) by (nonlinear_arith)
                        requires
                            v == m * f,
                            f >= 1,
                            m > i64::MAX || m < i64::MIN,
                    ;
                }
                return None;
            }
            let p: i128 = m * f;
            if p > (i64::MAX as i128) || p < (i64::MIN as i128) {
                None
            } else {
                Some(p as i64)
            }
        } else {
            let k: u32 = self.scale - 2;
            let neg = m < 0;
            let a: u128 = if neg {
                (-(m + 1)) as u128 + 1
            } else {
                m as u128
            };
            assert(a as int == if m >= 0 { m as int } else { -m });
            if k > 38 {
                proof {
                    lemma_pow10_grows(39, k as nat);
                    lemma_pow10_38_39();
                    let d = pow10(k as nat) as int;
                    assert(a < 2 * (a as int) + 1);
                    assert((a as int) / d == 0 && (a as int) % d == a as int) by (nonlinear_arith)
                        requires
                            0 <= a < d,
                    ;
                    assert(div_round_half_up(a as int, d) == 0);
                }
                return Some(0);
            }
            let d: u128 = pow10_u128(k);
            proof {
                lemma_pow10_positive(k as nat);
            }
            let q: u128 = a / d;
            let rem: u128 = a % d;
            let rounded: u128 = if rem >= d - rem {
                q + 1
            } else {
                q
            };
            assert(rounded as int == div_round_half_up(a as int, d as int));
            if rounded > (i64::MAX as u128) + 1 {
                return None;
            }
            if neg {
                Some((0i128 - rounded as i128) as i64)
            } else if rounded > (i64::MAX as u128) {
                None
            } else {
                Some(rounded as i64)
            }
        }
    }

    /// The decimal amount with scale 2 that stands for `minor` minor units.
    pub fn from_minor_units(minor: i64) -> (r: DecimalAmount)
        ensures
            r.mantissa == minor as i128,
            r.scale == 2,
            minor_units_of(r.mantissa as int, r.scale as nat) == minor,
    {
        let r = DecimalAmount { mantissa: minor as i128, scale: 2 };
        assert(pow10(0) == 1);
        assert(minor_units_of(r.mantissa as int, 2) == minor * 1);
        r
    }
}

} // verus!
