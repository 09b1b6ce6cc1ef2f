use thr_core::thr::{
    MpuRes, Thr, ThrRes, mpu_reset_table, rbar_reset, SCB_CCR_NONBASETHRDENA, SCB_CCR_STKALIGN,
};
use thr_core::vtable::{Binding, Exception};

fn mpu_with(mpu_type: u32) -> MpuRes {
    MpuRes {
        mpu_type,
        mpu_ctrl: 0x5,
        mpu_rbar: vec![0xDEAD_BEEF; 8],
        mpu_rasr: vec![0x7; 8],
    }
}

#[test]
fn rbar_reset_word_is_region_plus_valid_bit() {
    assert_eq!(rbar_reset(0), 0x10);
    assert_eq!(rbar_reset(3), 0x13);
    assert_eq!(rbar_reset(7), 0x17);
}

#[test]
fn reset_table_alternates_rbar_words_and_zeros() {
    let table = mpu_reset_table();
    assert_eq!(table.len(), 16);
    for region in 0..8 {
        assert_eq!(table[2 * region], 0x10 | region as u32);
        assert_eq!(table[2 * region + 1], 0);
    }
}

#[test]
fn reset_disables_all_eight_regions() {
    let mut mpu = mpu_with(8 << 8);
    mpu.reset();
    assert_eq!(mpu.mpu_ctrl, 0);
    for region in 0..8 {
        assert_eq!(mpu.mpu_rasr[region], 0, "region must read back disabled");
        assert_eq!(mpu.mpu_rbar[region], 0x10 | region as u32);
    }
    assert_eq!(mpu.mpu_type, 8 << 8);
}

#[test]
fn reset_without_protection_unit_is_a_no_op() {
    let mut mpu = mpu_with(0);
    mpu.reset();
    assert_eq!(mpu.mpu_ctrl, 0x5);
    assert_eq!(mpu.mpu_rbar, vec![0xDEAD_BEEF; 8]);
    assert_eq!(mpu.mpu_rasr, vec![0x7; 8]);
    // Running it twice leaves the same state as running it once.
    mpu.reset();
    assert_eq!(mpu.mpu_ctrl, 0x5);
    assert_eq!(mpu.mpu_rbar, vec![0xDEAD_BEEF; 8]);
}

#[test]
fn reset_twice_equals_reset_once() {
    let mut once = mpu_with(8 << 8);
    once.reset();
    let mut twice = mpu_with(8 << 8);
    twice.reset();
    twice.reset();
    assert_eq!(once.mpu_ctrl, twice.mpu_ctrl);
    assert_eq!(once.mpu_rbar, twice.mpu_rbar);
    assert_eq!(once.mpu_rasr, twice.mpu_rasr);
}

#[test]
fn new_and_free_round_trip_the_handles() {
    let thr = Thr::new(mpu_with(8 << 8), ThrRes { scb_ccr: 0x42 });
    let (mpu, thr_res) = thr.free();
    assert_eq!(mpu.mpu_type, 8 << 8);
    assert_eq!(mpu.mpu_ctrl, 0x5);
    assert_eq!(thr_res.scb_ccr, 0x42);
}

#[test]
fn init_sets_mandatory_bits_over_a_hostile_configurator() {
    let thr = Thr::new(mpu_with(8 << 8), ThrRes { scb_ccr: 0 });
    // A configurator that clears both mandatory bits must still observe
    // them set afterwards.
    let (_, _, thr_res) =
        thr.init(|v| v & !(SCB_CCR_STKALIGN | SCB_CCR_NONBASETHRDENA), &Vec::new());
    assert_eq!(thr_res.scb_ccr & SCB_CCR_STKALIGN, SCB_CCR_STKALIGN);
    assert_eq!(thr_res.scb_ccr & SCB_CCR_NONBASETHRDENA, SCB_CCR_NONBASETHRDENA);
}

#[test]
fn init_keeps_configurator_bits_and_runs_the_mpu_reset() {
    let thr = Thr::new(mpu_with(8 << 8), ThrRes { scb_ccr: 0 });
    let (fleet, mpu, thr_res) = thr.init(|v| v | 0x0001_0000, &Vec::new());
    assert_eq!(
        thr_res.scb_ccr,
        0x0001_0000 | SCB_CCR_STKALIGN | SCB_CCR_NONBASETHRDENA
    );
    assert_eq!(mpu.mpu_ctrl, 0);
    for region in 0..8 {
        assert_eq!(mpu.mpu_rasr[region], 0);
        assert_eq!(mpu.mpu_rbar[region], 0x10 | region as u32);
    }
    assert_eq!(fleet.len(), 0);
}

#[test]
fn init_issues_one_token_per_binding() {
    let bindings = vec![
        Binding::Exception(Exception::SysTick, 7),
        Binding::Irq(5, 8),
        Binding::Exception(Exception::HardFault, 9),
    ];
    let thr = Thr::new(mpu_with(8 << 8), ThrRes { scb_ccr: 0 });
    let (fleet, _, _) = thr.init(|v| v, &bindings);
    assert_eq!(fleet.len(), 3);
    assert_eq!(fleet.token(0).vector(), 15);
    assert_eq!(fleet.token(1).vector(), 21);
    assert_eq!(fleet.token(2).vector(), 3);
}
