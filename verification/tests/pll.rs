use mister_fpga::video::pll::{
    clamp_k, find_pll, find_pll_once_, find_pll_par_, get_pll_div_, k_register, Pll,
};

fn outside_dead_zone(ko: u32) -> bool {
    ko <= 2_500_000 || ko >= 47_500_000
}

#[test]
fn pll_div_even_and_odd() {
    assert_eq!(get_pll_div_(8), 0x0404);
    assert_eq!(get_pll_div_(9), 0x20000 | (5 << 8) | 4);
    assert_eq!(get_pll_div_(0), 0);
    assert_eq!(get_pll_div_(1), 0x20100);
    assert_eq!(get_pll_div_(115), 0x23a39);
}

#[test]
fn pll_div_of_a_huge_divider_drops_the_high_bits() {
    assert_eq!(get_pll_div_(400_000_000), 0xebebc200);
}

#[test]
fn k_register_scales_the_fraction() {
    assert_eq!(k_register(0), 1);
    assert_eq!(k_register(2_499_999), 1);
    assert_eq!(k_register(2_500_000), 0x0ccccccc);
    assert_eq!(k_register(47_500_000), 0xf3333333);
    assert_eq!(k_register(48_000_000), 0xf5c28f5c);
    assert_eq!(k_register(25_000_000), 0x80000000);
}

#[test]
fn find_pll_once_takes_the_first_divider_at_400_mhz() {
    assert_eq!(find_pll_once_(148_500_000, 1), Pll { c: 3, m: 8, ko: 45_500_000 });
    assert_eq!(find_pll_once_(25_175_000, 1), Pll { c: 16, m: 8, ko: 2_800_000 });
    assert_eq!(find_pll_once_(400_000_000, 1), Pll { c: 1, m: 8, ko: 0 });
    assert_eq!(find_pll_once_(100_000_000, 7), Pll { c: 7, m: 14, ko: 0 });
}

#[test]
fn find_pll_par_accepts_a_fraction_outside_the_dead_zone() {
    assert_eq!(find_pll_par_(100_000_000), Some(Pll { c: 4, m: 8, ko: 0 }));
    assert_eq!(find_pll_par_(27_000_000), Some(Pll { c: 24, m: 12, ko: 48_000_000 }));
    assert_eq!(find_pll_par_(12_587_000), Some(Pll { c: 115, m: 28, ko: 47_505_000 }));
    assert_eq!(find_pll_par_(402_500_000), Some(Pll { c: 1, m: 8, ko: 2_500_000 }));
    assert_eq!(find_pll_par_(447_500_000), Some(Pll { c: 1, m: 8, ko: 47_500_000 }));
}

#[test]
fn find_pll_par_of_148_5_mhz_is_abandoned() {
    assert_eq!(find_pll_par_(148_500_000), None);
    assert_eq!(find_pll_par_(25_175_000), None);
    assert_eq!(find_pll_par_(4_294_967_295), None);
}

#[test]
fn find_pll_falls_back_to_the_first_candidate_clamped() {
    assert_eq!(find_pll(148_500_000), Pll { c: 3, m: 8, ko: 0 });
    assert_eq!(find_pll(25_175_000), Pll { c: 16, m: 8, ko: 0 });
    assert_eq!(find_pll(4_294_967_295), Pll { c: 1, m: 85, ko: 0 });
}

#[test]
fn find_pll_of_one_hertz() {
    assert_eq!(find_pll(1), Pll { c: 400_000_000, m: 8, ko: 0 });
}

#[test]
fn find_pll_never_in_dead_zone() {
    let mut khz: u32 = 25_000;
    while khz <= 200_000 {
        let f = khz * 1000;
        let p: Pll = find_pll(f);
        assert!(outside_dead_zone(p.ko), "{} kHz gave {:?}", khz, p);
        match find_pll_par_(f) {
            Some(q) => {
                assert_eq!(p, q);
                let vco = q.m as u64 * 50_000_000 + q.ko as u64;
                assert_eq!(vco, f as u64 * q.c as u64);
                assert_eq!(vco / q.c as u64, f as u64);
            }
            None => {
                assert_eq!(p.ko, 0);
                assert_eq!(p.c, find_pll_once_(f, 1).c);
                assert_eq!(p.m, find_pll_once_(f, 1).m);
            }
        }
        khz += 37;
    }
}

#[test]
fn clamp_k_carries_a_high_fraction() {
    assert_eq!(clamp_k(Pll { c: 2, m: 8, ko: 47_500_000 }), Pll { c: 2, m: 9, ko: 0 });
    assert_eq!(clamp_k(Pll { c: 2, m: 8, ko: 47_499_999 }), Pll { c: 2, m: 8, ko: 0 });
    assert_eq!(clamp_k(Pll { c: 2, m: 8, ko: 1 }), Pll { c: 2, m: 8, ko: 0 });
}
