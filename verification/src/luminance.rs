//! The luminance scale of HDR static metadata, in whole nits.
//!
//! A display states its peak luminance as a code `c` that stands for
//! `50 * 2^(c / 32)` nits. The whole nits below that value are computed here
//! in integers, from 32nd roots of two in fixed point.

use vstd::arithmetic::power::{lemma_pow_adds, lemma_pow_distributes, lemma_pow_multiplies,
    lemma_pow_positive, lemma_square_is_pow2, pow};
use vstd::arithmetic::power2::{lemma2_to64, lemma_pow2, lemma_pow2_adds, lemma_pow2_pos, pow2};
use vstd::prelude::*;

verus! {

/// `n` is `50 * 2^(code / 32)` rounded down: raised to the 32nd power, the
/// exact value lies from `n` up to, and not at, `n + 1`.
pub open spec fn luminance_floor(n: nat, code: nat) -> bool {
    pow(n as int, 32) <= pow(50, 32) * pow2(code) < pow(n as int + 1, 32)
}

/// The whole nits that a luminance code stands for.
pub open spec fn nits_for(code: nat) -> nat {
    choose|n: nat| luminance_floor(n, code)
}

/// The fixed-point unit: values are counted in steps of `2^-24`.
const SCALE: u64 = 0x100_0000;

/// A larger base has a larger power.
proof fn lemma_pow_base(a: int, b: int, e: nat)
    requires
        0 <= a <= b,
    ensures
        0 <= pow(a, e) <= pow(b, e),
    decreases e,
{
    reveal(pow);
    if e > 0 {
        lemma_pow_base(a, b, (e - 1) as nat);
        let x = pow(a, (e - 1) as nat);
        let y = pow(b, (e - 1) as nat);
        assert(0 <= a * x <= b * y) by (nonlinear_arith)
            requires
                0 <= a <= b,
                0 <= x <= y,
        ;
    }
}

/// A code names one luminance: the rounded value is unique.
pub proof fn law_luminance_unique(m: nat, n: nat, code: nat)
    requires
        luminance_floor(m, code),
        luminance_floor(n, code),
    ensures
        m == n,
{
    if m < n {
        lemma_pow_base(m as int + 1, n as int, 32);
    }
    if n < m {
        lemma_pow_base(n as int + 1, m as int, 32);
    }
}

/// A larger code never stands for a smaller luminance.
pub proof fn law_luminance_monotone(m: nat, c: nat, n: nat, d: nat)
    requires
        c <= d,
        luminance_floor(m, c),
        luminance_floor(n, d),
    ensures
        m <= n,
{
    let step = pow2((d - c) as nat);
    lemma_pow2_adds(c, (d - c) as nat);
    lemma_pow2_pos((d - c) as nat);
    lemma_pow2_pos(c);
    lemma_pow_positive(50, 32);
    let base = pow(50, 32);
    let x = pow2(c);
    assert(base * x <= base * (x * step)) by (nonlinear_arith)
        requires
            base > 0,
            x > 0,
            step > 0,
    ;
    if n < m {
        lemma_pow_base(n as int + 1, m as int, 32);
    }
}

/// The 32nd power by repeated squaring.
spec fn pow32(x: int) -> int {
    let a = x * x;
    let b = a * a;
    let c = b * b;
    let d = c * c;
    d * d
}

/// Repeated squaring computes the 32nd power.
proof fn lemma_pow32(x: int)
    ensures
        pow(x, 32) == pow32(x),
{
    lemma_square_is_pow2(x);
    lemma_pow_adds(x, 2, 2);
    lemma_pow_adds(x, 4, 4);
    lemma_pow_adds(x, 8, 8);
    lemma_pow_adds(x, 16, 16);
}

/// `t` steps are the 32nd root of `p`, rounded down to a step.
spec fn root_entry(t: int, p: int) -> bool {
    pow32(t) <= p * pow32(0x100_0000) < pow32(t + 1)
}

/// `t` steps are `2^(r / 32)` rounded down to a step.
spec fn rounded_root(t: int, r: nat) -> bool {
    pow(t, 32) <= pow2(r) * pow(0x100_0000, 32) < pow(t + 1, 32)
}

/// A root found by repeated squaring is a root.
proof fn lemma_rounded_root(t: int, r: nat)
    requires
        root_entry(t, pow2(r) as int),
    ensures
        rounded_root(t, r),
{
    lemma_pow32(t);
    lemma_pow32(t + 1);
    lemma_pow32(0x100_0000);
}

/// The part of a step that `t` leaves out changes no whole number of nits, in
/// any of the eight octaves.
spec fn no_carry(t: int) -> bool {
    &&& (50 * t) % 0x100_0000 + 50 <= 0x100_0000
    &&& (100 * t) % 0x100_0000 + 100 <= 0x100_0000
    &&& (200 * t) % 0x100_0000 + 200 <= 0x100_0000
    &&& (400 * t) % 0x100_0000 + 400 <= 0x100_0000
    &&& (800 * t) % 0x100_0000 + 800 <= 0x100_0000
    &&& (1600 * t) % 0x100_0000 + 1600 <= 0x100_0000
    &&& (3200 * t) % 0x100_0000 + 3200 <= 0x100_0000
    &&& (6400 * t) % 0x100_0000 + 6400 <= 0x100_0000
}

/// `2^(r / 32)` in steps, rounded down.
fn root_of_two(r: u8) -> (t: u64)
    requires
        r < 32,
    ensures
        rounded_root(t as int, r as nat),
        no_carry(t as int),
        t < 0x200_0000,
{
    proof {
        lemma2_to64();
    }
    match r {
        0 => {
            proof {
                assert(root_entry(16777216, 1)) by (nonlinear_arith);
                lemma_rounded_root(16777216, 0);
                assert(no_carry(16777216));
            }
            16777216
        },
        1 => {
            proof {
                assert(root_entry(17144589, 2)) by (nonlinear_arith);
                lemma_rounded_root(17144589, 1);
                assert(no_carry(17144589));
            }
            17144589
        },
        2 => {
            proof {
                assert(root_entry(17520006, 4)) by (nonlinear_arith);
                lemma_rounded_root(17520006, 2);
                assert(no_carry(17520006));
            }
            17520006
        },
        3 => {
            proof {
                assert(root_entry(17903645, 8)) by (nonlinear_arith);
                lemma_rounded_root(17903645, 3);
                assert(no_carry(17903645));
            }
            17903645
        },
        4 => {
            proof {
                assert(root_entry(18295683, 16)) by (nonlinear_arith);
                lemma_rounded_root(18295683, 4);
                assert(no_carry(18295683));
            }
            18295683
        },
        5 => {
            proof {
                assert(root_entry(18696307, 32)) by (nonlinear_arith);
                lemma_rounded_root(18696307, 5);
                assert(no_carry(18696307));
            }
            18696307
        },
        6 => {
            proof {
                assert(root_entry(19105702, 64)) by (nonlinear_arith);
                lemma_rounded_root(19105702, 6);
                assert(no_carry(19105702));
            }
            19105702
        },
        7 => {
            proof {
                assert(root_entry(19524063, 128)) by (nonlinear_arith);
                lemma_rounded_root(19524063, 7);
                assert(no_carry(19524063));
            }
            19524063
        },
        8 => {
            proof {
                assert(root_entry(19951584, 256)) by (nonlinear_arith);
                lemma_rounded_root(19951584, 8);
                assert(no_carry(19951584));
            }
            19951584
        },
        9 => {
            proof {
                assert(root_entry(20388467, 512)) by (nonlinear_arith);
                lemma_rounded_root(20388467, 9);
                assert(no_carry(20388467));
            }
            20388467
        },
        10 => {
            proof {
                assert(root_entry(20834916, 1024)) by (nonlinear_arith);
                lemma_rounded_root(20834916, 10);
                assert(no_carry(20834916));
            }
            20834916
        },
        11 => {
            proof {
                assert(root_entry(21291142, 2048)) by (nonlinear_arith);
                lemma_rounded_root(21291142, 11);
                assert(no_carry(21291142));
            }
            21291142
        },
        12 => {
            proof {
                assert(root_entry(21757357, 4096)) by (nonlinear_arith);
                lemma_rounded_root(21757357, 12);
                assert(no_carry(21757357));
            }
            21757357
        },
        13 => {
            proof {
                assert(root_entry(22233781, 8192)) by (nonlinear_arith);
                lemma_rounded_root(22233781, 13);
                assert(no_carry(22233781));
            }
            22233781
        },
        14 => {
            proof {
                assert(root_entry(22720637, 16384)) by (nonlinear_arith);
                lemma_rounded_root(22720637, 14);
                assert(no_carry(22720637));
            }
            22720637
        },
        15 => {
            proof {
                assert(root_entry(23218155, 32768)) by (nonlinear_arith);
                lemma_rounded_root(23218155, 15);
                assert(no_carry(23218155));
            }
            23218155
        },
        16 => {
            proof {
                assert(root_entry(23726566, 65536)) by (nonlinear_arith);
                lemma_rounded_root(23726566, 16);
                assert(no_carry(23726566));
            }
            23726566
        },
        17 => {
            proof {
                assert(root_entry(24246110, 131072)) by (nonlinear_arith);
                lemma_rounded_root(24246110, 17);
                assert(no_carry(24246110));
            }
            24246110
        },
        18 => {
            proof {
                assert(root_entry(24777031, 262144)) by (nonlinear_arith);
                lemma_rounded_root(24777031, 18);
                assert(no_carry(24777031));
            }
            24777031
        },
        19 => {
            proof {
                assert(root_entry(25319577, 524288)) by (nonlinear_arith);
                lemma_rounded_root(25319577, 19);
                assert(no_carry(25319577));
            }
            25319577
        },
        20 => {
            proof {
                assert(root_entry(25874004, 1048576)) by (nonlinear_arith);
                lemma_rounded_root(25874004, 20);
                assert(no_carry(25874004));
            }
            25874004
        },
        21 => {
            proof {
                assert(root_entry(26440571, 2097152)) by (nonlinear_arith);
                lemma_rounded_root(26440571, 21);
                assert(no_carry(26440571));
            }
            26440571
        },
        22 => {
            proof {
                assert(root_entry(27019544, 4194304)) by (nonlinear_arith);
                lemma_rounded_root(27019544, 22);
                assert(no_carry(27019544));
            }
            27019544
        },
        23 => {
            proof {
                assert(root_entry(27611195, 8388608)) by (nonlinear_arith);
                lemma_rounded_root(27611195, 23);
                assert(no_carry(27611195));
            }
            27611195
        },
        24 => {
            proof {
                assert(root_entry(28215801, 16777216)) by (nonlinear_arith);
                lemma_rounded_root(28215801, 24);
                assert(no_carry(28215801));
            }
            28215801
        },
        25 => {
            proof {
                assert(root_entry(28833647, 33554432)) by (nonlinear_arith);
                lemma_rounded_root(28833647, 25);
                assert(no_carry(28833647));
            }
            28833647
        },
        26 => {
            proof {
                assert(root_entry(29465021, 67108864)) by (nonlinear_arith);
                lemma_rounded_root(29465021, 26);
                assert(no_carry(29465021));
            }
            29465021
        },
        27 => {
            proof {
                assert(root_entry(30110221, 134217728)) by (nonlinear_arith);
                lemma_rounded_root(30110221, 27);
                assert(no_carry(30110221));
            }
            30110221
        },
        28 => {
            proof {
                assert(root_entry(30769549, 268435456)) by (nonlinear_arith);
                lemma_rounded_root(30769549, 28);
                assert(no_carry(30769549));
            }
            30769549
        },
        29 => {
            proof {
                assert(root_entry(31443315, 536870912)) by (nonlinear_arith);
                lemma_rounded_root(31443315, 29);
                assert(no_carry(31443315));
            }
            31443315
        },
        30 => {
            proof {
                assert(root_entry(32131834, 1073741824)) by (nonlinear_arith);
                lemma_rounded_root(32131834, 30);
                assert(no_carry(32131834));
            }
            32131834
        },
        _ => {
            proof {
                assert(root_entry(32835429, 2147483648)) by (nonlinear_arith);
                lemma_rounded_root(32835429, 31);
                assert(no_carry(32835429));
            }
            32835429
        },
    }
}

/// Scaling a rounded root by an octave's factor gives the rounded luminance.
proof fn lemma_octave(t: int, q: nat, r: nat, k: int, n: int)
    requires
        t >= 0,
        rounded_root(t, r),
        k == 50 * pow2(q),
        n == (k * t) / 0x100_0000,
        (k * t) % 0x100_0000 + k <= 0x100_0000,
    ensures
        n >= 0,
        luminance_floor(n as nat, 32 * q + r),
{
    let unit: int = 0x100_0000;
    let s = pow(unit, 32);
    let kk = pow(k, 32);
    let p = pow2(r) as int;
    lemma_pow2_pos(q);
    lemma_pow2_pos(r);
    lemma_pow_positive(unit, 32);
    lemma_pow_positive(k, 32);
    assert(k * t >= 0) by (nonlinear_arith)
        requires
            k >= 0,
            t >= 0,
    ;
    // The exact value, over the octave's factor.
    assert(pow(50, 32) * pow2(32 * q + r) == kk * p) by {
        lemma_pow_distributes(50, pow2(q) as int, 32);
        lemma_pow2(q);
        lemma_pow2(32 * q);
        lemma_pow_multiplies(2, q, 32);
        assert(q * 32 == 32 * q);
        lemma_pow2_adds(32 * q, r);
        let a = pow(50, 32);
        let b = pow2(32 * q) as int;
        assert(a * (b * p) == (a * b) * p) by (nonlinear_arith);
    }
    // From below.
    assert(pow(n, 32) <= kk * p) by {
        lemma_pow_base(n * unit, k * t, 32);
        lemma_pow_distributes(n, unit, 32);
        lemma_pow_distributes(k, t, 32);
        let a = pow(n, 32);
        let tt = pow(t, 32);
        assert(a <= kk * p) by (nonlinear_arith)
            requires
                a * s <= kk * tt,
                tt <= p * s,
                kk > 0,
                s > 0,
        ;
    }
    // From above.
    assert(kk * p < pow(n + 1, 32)) by {
        assert(k * (t + 1) == k * t + k) by (nonlinear_arith);
        lemma_pow_base(k * (t + 1), (n + 1) * unit, 32);
        lemma_pow_distributes(n + 1, unit, 32);
        lemma_pow_distributes(k, t + 1, 32);
        let a = pow(n + 1, 32);
        let tt = pow(t + 1, 32);
        assert(kk * p < a) by (nonlinear_arith)
            requires
                kk * tt <= a * s,
                p * s < tt,
                kk > 0,
                s > 0,
        ;
    }
}

/// The whole nits that a luminance code stands for.
pub fn luminance_nits(code: u8) -> (n: u32)
    ensures
        luminance_floor(n as nat, code as nat),
        n == nits_for(code as nat),
{
    let q: u8 = code / 32;
    let r: u8 = code % 32;
    let t: u64 = root_of_two(r);
    let k: u64 = match q {
        0 => 50,
        1 => 100,
        2 => 200,
        3 => 400,
        4 => 800,
        5 => 1600,
        6 => 3200,
        _ => 6400,
    };
    assert(k * t <= 6400 * 0x200_0000) by (nonlinear_arith)
        requires
            k <= 6400,
            t <= 0x200_0000,
    ;
    let n: u64 = k * t / SCALE;
    proof {
        lemma2_to64();
        lemma_octave(t as int, q as nat, r as nat, k as int, n as int);
        law_luminance_unique(n as nat, nits_for(code as nat), code as nat);
    }
    n as u32
}

/// Rounding down is always possible.
proof fn lemma_floor_exists(x: int, n: nat) -> (r: nat)
    requires
        pow(n as int, 32) <= x,
    ensures
        pow(r as int, 32) <= x < pow(r as int + 1, 32),
    decreases x - n,
{
    if x < pow(n as int + 1, 32) {
        n
    } else {
        lemma_pow_grows(n + 1, 32);
        lemma_floor_exists(x, n + 1)
    }
}

/// A power of a whole number is no smaller than the number.
proof fn lemma_pow_grows(n: nat, e: nat)
    requires
        n >= 1,
        e >= 1,
    ensures
        pow(n as int, e) >= n,
    decreases e,
{
    reveal(pow);
    if e > 1 {
        lemma_pow_grows(n, (e - 1) as nat);
        let p = pow(n as int, (e - 1) as nat);
        assert(n * p >= n) by (nonlinear_arith)
            requires
                n >= 1,
                p >= n,
        ;
    } else {
        assert(pow(n as int, 0) == 1);
    }
}

/// Every code stands for a luminance, one that fits in 32 bits.
pub proof fn lemma_nits_for(code: u8)
    ensures
        luminance_floor(nits_for(code as nat), code as nat),
        nits_for(code as nat) <= u32::MAX,
{
    let c = code as nat;
    let x = pow(50, 32) * pow2(c);
    lemma_pow_positive(50, 32);
    lemma_pow2_pos(c);
    assert(x >= 0) by (nonlinear_arith)
        requires
            x == pow(50, 32) * pow2(c),
            pow(50, 32) > 0,
            pow2(c) > 0,
    ;
    assert(pow(0, 32) == 0) by {
        reveal(pow);
    }
    let r = lemma_floor_exists(x, 0);
    assert(luminance_floor(r, c));
    let n = nits_for(c);
    // Both factors lie below powers of two whose product is 2^448.
    lemma2_to64();
    lemma_pow_base(50, 64, 32);
    lemma_pow2(6);
    lemma_pow_multiplies(2, 6, 32);
    lemma_pow2(192);
    assert(pow(64, 32) == pow2(192));
    lemma_pow2_adds(c, (256 - c) as nat);
    lemma_pow2_pos((256 - c) as nat);
    let rest = pow2((256 - c) as nat) as int;
    let p = pow2(c) as int;
    assert(p <= p * rest) by (nonlinear_arith)
        requires
            p > 0,
            rest > 0,
    ;
    lemma_pow2_adds(192, 256);
    lemma_pow2(14);
    lemma_pow_multiplies(2, 14, 32);
    lemma_pow2(448);
    let top = pow2(14) as int;
    assert(pow(top, 32) == pow2(448));
    let a = pow(50, 32);
    let b = pow2(192) as int;
    let d = pow2(256) as int;
    assert(a * p <= b * d) by (nonlinear_arith)
        requires
            0 < a <= b,
            0 < p <= d,
    ;
    if n > top {
        lemma_pow_base(top + 1, n as int, 32);
        lemma_pow_strict(top, 32);
    }
}

/// A larger base has a strictly larger power.
proof fn lemma_pow_strict(a: int, e: nat)
    requires
        a >= 1,
        e >= 1,
    ensures
        pow(a, e) < pow(a + 1, e),
    decreases e,
{
    reveal(pow);
    if e > 1 {
        lemma_pow_strict(a, (e - 1) as nat);
        lemma_pow_positive(a, (e - 1) as nat);
        let x = pow(a, (e - 1) as nat);
        let y = pow(a + 1, (e - 1) as nat);
        assert(a * x < (a + 1) * y) by (nonlinear_arith)
            requires
                a >= 1,
                0 < x < y,
        ;
    } else {
        assert(pow(a, 0) == 1 && pow(a + 1, 0) == 1);
    }
}

/// Thirty-two codes more double the luminance, and the scale starts at fifty
/// nits.
pub proof fn law_luminance_doubles(m: nat, n: nat, code: nat)
    requires
        luminance_floor(m, code),
        luminance_floor(n, code + 32),
    ensures
        2 * m <= n <= 2 * m + 1,
        code == 0 ==> m == 50,
{
    let x = pow(50, 32) * pow2(code);
    lemma_pow2_adds(code, 32);
    lemma_pow2(32);
    let two = pow(2, 32);
    assert(pow(50, 32) * pow2(code + 32) == two * x) by (nonlinear_arith)
        requires
            pow2(code + 32) == pow2(code) * pow2(32),
            pow2(32) == two,
            x == pow(50, 32) * pow2(code),
    ;
    lemma_pow_positive(2, 32);
    lemma_pow_distributes(2, m as int, 32);
    lemma_pow_distributes(2, m as int + 1, 32);
    let low = pow(m as int, 32);
    let high = pow(m as int + 1, 32);
    assert(two * low <= two * x < two * high) by (nonlinear_arith)
        requires
            low <= x < high,
            two > 0,
    ;
    if n < 2 * m {
        lemma_pow_base(n as int + 1, 2 * m as int, 32);
    }
    if n > 2 * m + 1 {
        lemma_pow_base(2 * (m as int + 1), n as int, 32);
    }
    if code == 0 {
        lemma2_to64();
        lemma_pow_strict(50, 32);
        assert(luminance_floor(50, 0));
        law_luminance_unique(m, 50, 0);
    }
}

} // verus!
