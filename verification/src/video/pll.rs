//! Synthesis of PLL parameters for a requested pixel clock.
//!
//! All frequencies are exact integers in hertz. The reference clock of the
//! PLL runs at 50 MHz; a solution `(c, m, ko)` drives the VCO at
//! `m * 50 MHz + ko` and divides it by `c`, so `ko / 50 MHz` is the
//! fractional part of the multiplier.
//!
//! The search walks the post-dividers upwards from the first one that lifts
//! the VCO to 400 MHz and takes the first whose fractional part lies outside
//! the dead-zone, the open interval between 0.05 and 0.95. It is a
//! best-effort search: once a rejected candidate has driven the VCO past
//! 1500 MHz the search is abandoned, and the first candidate is used with its
//! fractional part clamped away.

use vstd::prelude::*;

verus! {

/// The reference frequency of the PLL, in hertz.
pub const REF_HZ: u64 = 50_000_000;

/// The lowest VCO frequency that a candidate may have, in hertz.
pub const VCO_MIN_HZ: u64 = 400_000_000;

/// The VCO frequency past which the search is abandoned, in hertz.
pub const VCO_MAX_HZ: u64 = 1_500_000_000;

/// Lower edge of the dead-zone: 0.05 of the reference, in hertz.
pub const K_LOW_HZ: u32 = 2_500_000;

/// Upper edge of the dead-zone: 0.95 of the reference, in hertz.
pub const K_HIGH_HZ: u32 = 47_500_000;

/// One setting of the PLL.
#[derive(Clone, Copy, Debug, PartialEq, Eq, Structural)]
pub struct Pll {
    /// The post-divider.
    pub c: u32,
    /// The whole part of the multiplier.
    pub m: u32,
    /// The fractional part of the multiplier, as hertz of VCO frequency:
    /// the fraction is `ko / 50_000_000`.
    pub ko: u32,
}

/// The VCO frequency that divider `c` asks for, in hertz.
pub open spec fn spec_vco(f_out: int, c: int) -> int {
    f_out * c
}

/// The smallest divider, not below `c`, that lifts the VCO to its minimum.
pub open spec fn spec_first_divider(f_out: int, c: int) -> int {
    if f_out * c >= VCO_MIN_HZ as int {
        c
    } else {
        (VCO_MIN_HZ as int + f_out - 1) / f_out
    }
}

/// Whether the search, started at divider `first`, may come to divider `d`:
/// it goes on from a divider only while the VCO has not passed its maximum.
pub open spec fn spec_reached(f_out: int, first: int, d: int) -> bool {
    d >= first && (d == first || spec_vco(f_out, d - 1) <= VCO_MAX_HZ as int)
}

/// The setting that divider `c` gives for the pixel clock `f_out`.
pub open spec fn spec_candidate(f_out: int, c: int) -> Pll {
    Pll {
        c: c as u32,
        m: ((f_out * c) / (REF_HZ as int)) as u32,
        ko: ((f_out * c) % (REF_HZ as int)) as u32,
    }
}

/// Whether a fractional part lies outside the dead-zone.
pub open spec fn spec_k_accepted(ko: int) -> bool {
    ko <= K_LOW_HZ as int || ko >= K_HIGH_HZ as int
}

/// What the search returns when it stands at divider `c`.
pub open spec fn spec_search(f_out: int, c: int) -> Option<Pll>
    decreases VCO_MAX_HZ as int + f_out - f_out * c,
    via spec_search_decreases
{
    if f_out <= 0 || c <= 0 {
        None
    } else if spec_k_accepted(spec_candidate(f_out, c).ko as int) {
        Some(spec_candidate(f_out, c))
    } else if f_out * c > VCO_MAX_HZ as int {
        None
    } else {
        spec_search(f_out, c + 1)
    }
}

#[via_fn]
proof fn spec_search_decreases(f_out: int, c: int) {
    assert(f_out * (c + 1) == f_out * c + f_out) by (nonlinear_arith);
}

/// The clamped setting: a fractional part of at least 0.95 is carried into
/// the multiplier, any other is dropped.
pub open spec fn spec_clamp_k(p: Pll) -> Pll {
    if p.ko >= K_HIGH_HZ {
        Pll { c: p.c, m: (p.m + 1) as u32, ko: 0 }
    } else {
        Pll { c: p.c, m: p.m, ko: 0 }
    }
}

/// The setting chosen for `f_out`: what the search finds, else the first
/// candidate, clamped.
pub open spec fn spec_find_pll(f_out: int) -> Pll {
    let first = spec_first_divider(f_out, 1);
    match spec_search(f_out, first) {
        Some(p) => p,
        None => spec_clamp_k(spec_candidate(f_out, first)),
    }
}

/// The pixel clock that a setting produces, in hertz, rounded down.
pub open spec fn spec_reconstructed(p: Pll) -> int {
    (p.m as int * REF_HZ as int + p.ko as int) / (p.c as int)
}

/// The register encoding of a divider: the high and the low count in bits
/// 8.. and 0.., and bit 17 set when the divider is odd.
pub open spec fn spec_pll_div(div: u32) -> u32 {
    if div & 1 != 0 {
        0x20000u32 | (((div / 2) + 1) as u32) << 8 | (div / 2)
    } else {
        ((div / 2) << 8) | (div / 2)
    }
}

/// The register encoding of a fractional part: the fraction scaled to 32
/// bits, or 1 where the fraction is below 0.05.
pub open spec fn spec_k_register(ko: u32) -> int {
    if ko >= K_LOW_HZ {
        (ko as int * 0x1_0000_0000) / (REF_HZ as int)
    } else {
        1
    }
}

proof fn lemma_mul_step(f: int, c: int)
    ensures
        f * (c + 1) == f * c + f,
{
    assert(f * (c + 1) == f * c + f) by (nonlinear_arith);
}

proof fn lemma_mul_mono(f: int, a: int, b: int)
    requires
        f >= 0,
        a <= b,
    ensures
        f * a <= f * b,
{
    assert(f * a <= f * b) by (nonlinear_arith)
        requires
            f >= 0,
            a <= b,
    ;
}

/// The first divider is the least one, from `c` on, that brings the VCO to
/// its minimum.
pub proof fn lemma_first_divider(f_out: int, c: int)
    requires
        f_out > 0,
        c >= 0,
    ensures
        spec_first_divider(f_out, c) >= c,
        f_out * spec_first_divider(f_out, c) >= VCO_MIN_HZ as int,
        f_out * spec_first_divider(f_out, c) < VCO_MIN_HZ as int + f_out || spec_first_divider(
            f_out,
            c,
        ) == c,
        forall|d: int|
            c <= d < spec_first_divider(f_out, c) ==> #[trigger] spec_vco(f_out, d)
                < VCO_MIN_HZ as int,
{
    let r = spec_first_divider(f_out, c);
    let need = (VCO_MIN_HZ as int + f_out - 1) / f_out;
    assert(f_out * need >= VCO_MIN_HZ as int && f_out * need < VCO_MIN_HZ as int + f_out) by {
        vstd::arithmetic::div_mod::lemma_fundamental_div_mod(VCO_MIN_HZ as int + f_out - 1, f_out);
        vstd::arithmetic::div_mod::lemma_mod_bound(VCO_MIN_HZ as int + f_out - 1, f_out);
    }
    if f_out * c < VCO_MIN_HZ as int {
        if need < c {
            lemma_mul_mono(f_out, need, c);
        }
        assert forall|d: int| c <= d < r implies #[trigger] spec_vco(f_out, d)
            < VCO_MIN_HZ as int by {
            lemma_mul_mono(f_out, d + 1, need);
            lemma_mul_step(f_out, d);
        }
    }
}

/// The first divider from `c` on that brings the VCO to its minimum, with
/// the multiplier that it gives.
pub fn find_pll_once_(f_out: u32, c: u32) -> (p: Pll)
    requires
        f_out > 0,
        (f_out as int * c as int) / (REF_HZ as int) <= u32::MAX,
    ensures
        p == spec_candidate(f_out as int, spec_first_divider(f_out as int, c as int)),
        p.c as int == spec_first_divider(f_out as int, c as int),
        p.c >= c,
        f_out as int * p.c as int >= VCO_MIN_HZ as int,
        forall|d: int| c <= d < p.c ==> #[trigger] spec_vco(f_out as int, d) < VCO_MIN_HZ as int,
        p.m as int * REF_HZ as int + p.ko as int == f_out as int * p.c as int,
        p.ko < REF_HZ,
{
    let f: u64 = f_out as u64;
    let ghost fi = f_out as int;
    let ghost ci = c as int;
    let ghost vmin = VCO_MIN_HZ as int;
    proof {
        lemma_first_divider(fi, ci);
        assert(fi * ci <= 0xFFFF_FFFF * 0xFFFF_FFFF) by (nonlinear_arith)
            requires
                0 <= fi <= 0xFFFF_FFFF,
                0 <= ci <= 0xFFFF_FFFF,
        ;
        assert(fi * ci >= 0) by (nonlinear_arith)
            requires
                0 <= fi,
                0 <= ci,
        ;
        let need = (vmin + fi - 1) / fi;
        assert(0 <= need <= vmin) by {
            vstd::arithmetic::div_mod::lemma_fundamental_div_mod(vmin + fi - 1, fi);
            vstd::arithmetic::div_mod::lemma_mod_bound(vmin + fi - 1, fi);
            assert(need >= 0 && need <= vmin) by (nonlinear_arith)
                requires
                    fi >= 1,
                    vmin >= 1,
                    vmin + fi - 1 == fi * need + (vmin + fi - 1) % fi,
                    0 <= (vmin + fi - 1) % fi < fi,
            ;
        }
    }
    let c1: u32 = if f * (c as u64) >= VCO_MIN_HZ {
        c
    } else {
        ((VCO_MIN_HZ + f - 1) / f) as u32
    };
    let ghost c1i = c1 as int;
    proof {
        assert(c1i == spec_first_divider(fi, ci));
        assert(fi * c1i <= 0xFFFF_FFFF * 0xFFFF_FFFF) by (nonlinear_arith)
            requires
                0 <= fi <= 0xFFFF_FFFF,
                0 <= c1i <= 0xFFFF_FFFF,
        ;
        vstd::arithmetic::div_mod::lemma_fundamental_div_mod(fi * c1i, REF_HZ as int);
        vstd::arithmetic::div_mod::lemma_mod_bound(fi * c1i, REF_HZ as int);
        if c1 != c {
            assert((fi * c1i) / (REF_HZ as int) <= u32::MAX);
        }
    }
    let fvco: u64 = f * (c1 as u64);
    let m: u32 = (fvco / REF_HZ) as u32;
    let ko: u32 = (fvco % REF_HZ) as u32;
    Pll { c: c1, m, ko }
}

/// What the search returns, said without recursion: the candidate of the
/// first divider it comes to whose fractional part is accepted, and nothing
/// where it comes to none.
pub proof fn lemma_search_first(f_out: int, c: int)
    requires
        0 < f_out <= u32::MAX,
        0 < c,
        spec_vco(f_out, c) <= VCO_MAX_HZ as int + f_out,
    ensures
        match spec_search(f_out, c) {
            Some(p) => {
                &&& spec_reached(f_out, c, p.c as int)
                &&& p == spec_candidate(f_out, p.c as int)
                &&& spec_k_accepted(p.ko as int)
                &&& spec_vco(f_out, p.c as int) == p.m as int * REF_HZ as int + p.ko as int
                &&& forall|d: int|
                    c <= d < p.c ==> !spec_k_accepted(
                        (#[trigger] spec_candidate(f_out, d)).ko as int,
                    )
            },
            None => forall|d: int| #[trigger]
                spec_reached(f_out, c, d) ==> !spec_k_accepted(spec_candidate(f_out, d).ko as int),
        },
    decreases VCO_MAX_HZ as int + f_out - f_out * c,
{
    let cand = spec_candidate(f_out, c);
    lemma_mul_step(f_out, c);
    assert(0 <= f_out * c) by (nonlinear_arith)
        requires
            0 < f_out,
            0 < c,
    ;
    assert(c <= VCO_MAX_HZ as int + 1) by (nonlinear_arith)
        requires
            0 < f_out,
            0 < c,
            f_out * c <= VCO_MAX_HZ as int + f_out,
    ;
    vstd::arithmetic::div_mod::lemma_fundamental_div_mod(f_out * c, REF_HZ as int);
    vstd::arithmetic::div_mod::lemma_mod_bound(f_out * c, REF_HZ as int);
    if spec_k_accepted(cand.ko as int) {
    } else if f_out * c > VCO_MAX_HZ as int {
        assert forall|d: int| #[trigger] spec_reached(f_out, c, d) implies !spec_k_accepted(
            spec_candidate(f_out, d).ko as int,
        ) by {
            if d != c {
                lemma_mul_mono(f_out, c, d - 1);
            }
        }
    } else {
        lemma_search_first(f_out, c + 1);
        match spec_search(f_out, c + 1) {
            Some(p) => {
                assert forall|d: int| c <= d < p.c implies !spec_k_accepted(
                    (#[trigger] spec_candidate(f_out, d)).ko as int,
                ) by {
                    if d != c {
                    }
                }
            },
            None => {
                assert forall|d: int| #[trigger] spec_reached(f_out, c, d) implies !spec_k_accepted(
                    spec_candidate(f_out, d).ko as int,
                ) by {
                    if d != c {
                        assert(spec_reached(f_out, c + 1, d));
                    }
                }
            },
        }
    }
}

/// Searches the dividers for a setting whose fractional part lies outside
/// the dead-zone. `None` says that the search was abandoned.
pub fn find_pll_par_(f_out: u32) -> (r: Option<Pll>)
    requires
        f_out > 0,
    ensures
        r == spec_search(f_out as int, spec_first_divider(f_out as int, 1)),
        match r {
            Some(p) => {
                &&& spec_reached(f_out as int, spec_first_divider(f_out as int, 1), p.c as int)
                &&& p == spec_candidate(f_out as int, p.c as int)
                &&& spec_k_accepted(p.ko as int)
                &&& p.ko < REF_HZ
                &&& spec_vco(f_out as int, p.c as int) == p.m as int * REF_HZ as int + p.ko as int
                &&& forall|d: int|
                    spec_first_divider(f_out as int, 1) <= d < p.c ==> !spec_k_accepted(
                        (#[trigger] spec_candidate(f_out as int, d)).ko as int,
                    )
            },
            None => forall|d: int| #[trigger]
                spec_reached(f_out as int, spec_first_divider(f_out as int, 1), d)
                    ==> !spec_k_accepted(spec_candidate(f_out as int, d).ko as int),
        },
{
    let f: u64 = f_out as u64;
    let ghost fi = f_out as int;
    let first = find_pll_once_(f_out, 1);
    let ghost c0 = first.c as int;
    proof {
        lemma_first_divider(fi, 1);
    }
    let mut c: u32 = first.c;
    loop
        invariant
            f == f_out,
            fi == f_out as int,
            0 < fi <= u32::MAX,
            c0 <= c,
            0 < c,
            c0 == spec_first_divider(fi, 1),
            0 < c0,
            spec_vco(fi, c0) <= VCO_MAX_HZ as int + fi,
            spec_vco(fi, c as int) <= VCO_MAX_HZ as int + fi,
            spec_search(fi, c0) == spec_search(fi, c as int),
        decreases VCO_MAX_HZ as int + fi - fi * (c as int),
    {
        let ghost ci = c as int;
        proof {
            lemma_mul_step(fi, ci);
            assert(0 <= fi * ci) by (nonlinear_arith)
                requires
                    0 < fi,
                    0 < ci,
            ;
            vstd::arithmetic::div_mod::lemma_fundamental_div_mod(fi * ci, REF_HZ as int);
            vstd::arithmetic::div_mod::lemma_mod_bound(fi * ci, REF_HZ as int);
        }
        let fvco: u64 = f * (c as u64);
        let m: u32 = (fvco / REF_HZ) as u32;
        let ko: u32 = (fvco % REF_HZ) as u32;
        if ko <= K_LOW_HZ || ko >= K_HIGH_HZ {
            proof {
                lemma_search_first(fi, c0);
            }
            return Some(Pll { c, m, ko });
        }
        if fvco > VCO_MAX_HZ {
            proof {
                lemma_search_first(fi, c0);
            }
            return None;
        }
        proof {
            assert(ci <= VCO_MAX_HZ as int) by (nonlinear_arith)
                requires
                    0 < fi,
                    0 < ci,
                    fi * ci <= VCO_MAX_HZ as int,
            ;
        }
        c = c + 1;
    }
}

/// Clamps the fractional part to a boundary: a part of at least 0.95 is
/// carried into the multiplier, any other is dropped.
pub fn clamp_k(p: Pll) -> (r: Pll)
    requires
        p.m < u32::MAX,
    ensures
        r == spec_clamp_k(p),
        r.ko == 0,
        r.c == p.c,
{
    if p.ko >= K_HIGH_HZ {
        Pll { c: p.c, m: p.m + 1, ko: 0 }
    } else {
        Pll { c: p.c, m: p.m, ko: 0 }
    }
}

/// Chooses the PLL setting for the pixel clock `f_out`.
///
/// Where the search finds a setting, that setting is returned and gives the
/// requested clock exactly. Where the search is abandoned, the first
/// candidate is returned with its fractional part clamped to zero; the clock
/// it gives is then below the requested one by less than one reference step
/// divided by the divider. In both cases the fractional part of the result
/// lies outside the dead-zone.
pub fn find_pll(f_out: u32) -> (p: Pll)
    requires
        f_out > 0,
    ensures
        p == spec_find_pll(f_out as int),
        spec_k_accepted(p.ko as int),
        p.ko < REF_HZ,
        p.c as int >= spec_first_divider(f_out as int, 1),
        p.c > 0,
        p.m as int * REF_HZ as int + p.ko as int <= spec_vco(f_out as int, p.c as int),
        spec_vco(f_out as int, p.c as int) <= VCO_MAX_HZ as int + f_out as int,
        spec_search(f_out as int, spec_first_divider(f_out as int, 1)).is_some() ==> p.m as int
            * REF_HZ as int + p.ko as int == spec_vco(f_out as int, p.c as int),
        spec_search(f_out as int, spec_first_divider(f_out as int, 1)).is_none() ==> p.ko == 0
            && p.c as int == spec_first_divider(f_out as int, 1) && p.m as int
            == spec_vco(f_out as int, p.c as int) / (REF_HZ as int),
{
    proof {
        lemma_first_divider(f_out as int, 1);
    }
    match find_pll_par_(f_out) {
        Some(p) => {
            proof {
                let first = spec_first_divider(f_out as int, 1);
                if p.c as int != first {
                    lemma_mul_step(f_out as int, p.c as int - 1);
                }
            }
            p
        },
        None => {
            let first = find_pll_once_(f_out, 1);
            proof {
                assert(spec_reached(f_out as int, first.c as int, first.c as int));
                assert(!spec_k_accepted(spec_candidate(f_out as int, first.c as int).ko as int));
            }
            clamp_k(first)
        },
    }
}

/// Encodes a divider for a counter register of the PLL.
pub fn get_pll_div_(div: u32) -> (r: u32)
    ensures
        r == spec_pll_div(div),
{
    if div & 1 != 0 {
        0x20000u32 | ((div / 2) + 1) << 8 | (div / 2)
    } else {
        ((div / 2) << 8) | (div / 2)
    }
}

/// Encodes a fractional part for the fractional register of the PLL.
pub fn k_register(ko: u32) -> (r: u32)
    requires
        ko < REF_HZ,
    ensures
        r as int == spec_k_register(ko),
{
    if ko >= K_LOW_HZ {
        let scaled: u64 = (ko as u64) * 0x1_0000_0000u64;
        proof {
            assert((ko as int * 0x1_0000_0000) / (REF_HZ as int) <= u32::MAX) by (nonlinear_arith)
                requires
                    0 <= ko as int,
                    (ko as int) < 50_000_000,
                    REF_HZ as int == 50_000_000,
            ;
        }
        (scaled / REF_HZ) as u32
    } else {
        1
    }
}

/// Whatever clock is asked for, the chosen setting never has its fractional
/// part inside the dead-zone: either the search found the setting, which then
/// gives the requested clock exactly and so within a thousandth of it, or the
/// search was abandoned and the fractional part is clamped to zero on the
/// first candidate, which then gives at most the requested clock.
pub proof fn law_find_pll_outside_dead_zone(f_out: int)
    requires
        0 < f_out <= u32::MAX,
    ensures
        spec_k_accepted(spec_find_pll(f_out).ko as int),
        match spec_search(f_out, spec_first_divider(f_out, 1)) {
            Some(p) => spec_find_pll(f_out) == p && spec_reconstructed(p) == f_out && 1000 * (
            f_out - spec_reconstructed(p)) <= f_out,
            None => spec_find_pll(f_out).ko == 0 && spec_find_pll(f_out).c as int
                == spec_first_divider(f_out, 1) && spec_reconstructed(spec_find_pll(f_out))
                <= f_out,
        },
{
    let first = spec_first_divider(f_out, 1);
    lemma_first_divider(f_out, 1);
    lemma_search_first(f_out, first);
    match spec_search(f_out, first) {
        Some(p) => {
            assert(p.c as int >= first);
            assert(p.c > 0);
            assert(spec_vco(f_out, p.c as int) == f_out * (p.c as int));
            vstd::arithmetic::div_mod::lemma_div_multiples_vanish(f_out, p.c as int);
            assert(f_out * (p.c as int) == (p.c as int) * f_out) by (nonlinear_arith);
        },
        None => {
            assert(spec_reached(f_out, first, first));
            let cand = spec_candidate(f_out, first);
            assert(first <= VCO_MIN_HZ as int + f_out) by (nonlinear_arith)
                requires
                    0 < f_out,
                    0 < first,
                    f_out * first <= VCO_MIN_HZ as int + f_out,
            ;
            vstd::arithmetic::div_mod::lemma_fundamental_div_mod(f_out * first, REF_HZ as int);
            vstd::arithmetic::div_mod::lemma_mod_bound(f_out * first, REF_HZ as int);
            let q = spec_find_pll(f_out);
            assert(q.ko == 0);
            assert(q.c as int == first);
            assert(q.m as int * REF_HZ as int <= f_out * first);
            assert(spec_reconstructed(q) <= f_out) by {
                vstd::arithmetic::div_mod::lemma_div_is_ordered(
                    q.m as int * REF_HZ as int,
                    f_out * first,
                    first,
                );
                vstd::arithmetic::div_mod::lemma_div_multiples_vanish(f_out, first);
                assert(f_out * first == first * f_out) by (nonlinear_arith);
            }
        },
    }
}

} // verus!
