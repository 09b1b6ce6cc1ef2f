//! Threading-system initialization.
//!
//! `Thr` owns the two hardware resources the substrate touches at boot: the
//! memory-protection unit registers and the core-control register. Its
//! one-shot `init` applies the caller's core-control transform, forces the
//! two mandatory exception-entry bits, drives the protection unit to its
//! disabled baseline, and issues the fleet of thread-identity tokens — one
//! per declared vector binding. `init` consumes `self`, so a second fleet
//! cannot be produced from the same resources.

use vstd::prelude::*;

use crate::vtable::{Binding, spec_binding_index};

verus! {

/// Require 8-byte stack alignment on exception entry.
pub const SCB_CCR_STKALIGN: u32 = 0x0000_0200;

/// Enable nested-vectored-interrupt mode: a higher-priority exception may
/// preempt a handler without the core returning to base level first.
pub const SCB_CCR_NONBASETHRDENA: u32 = 0x0000_0001;

/// Number of protection regions the reset sequence covers.
pub const MPU_REGION_COUNT: usize = 8;

/// The memory-protection unit's register state.
///
/// `mpu_type` is read-only hardware identification: its DREGION field
/// (bits 15 down to 8) reports how many regions the unit implements, zero
/// meaning no protection unit is present. `mpu_ctrl` is the global control
/// register; `mpu_rbar` and `mpu_rasr` are each region's base-address and
/// attribute/size registers.
pub struct MpuRes {
    /// Type register; DREGION in bits 15 down to 8.
    pub mpu_type: u32,
    /// Global control register.
    pub mpu_ctrl: u32,
    /// Per-region base-address registers.
    pub mpu_rbar: Vec<u32>,
    /// Per-region attribute/size registers.
    pub mpu_rasr: Vec<u32>,
}

/// Ghost image of the protection unit's registers.
#[verifier::ext_equal]
pub ghost struct MpuSnapshot {
    /// Type register.
    pub mpu_type: u32,
    /// Global control register.
    pub mpu_ctrl: u32,
    /// Per-region base-address registers.
    pub mpu_rbar: Seq<u32>,
    /// Per-region attribute/size registers.
    pub mpu_rasr: Seq<u32>,
}

impl View for MpuRes {
    type V = MpuSnapshot;

    open spec fn view(&self) -> MpuSnapshot {
        MpuSnapshot {
            mpu_type: self.mpu_type,
            mpu_ctrl: self.mpu_ctrl,
            mpu_rbar: self.mpu_rbar@,
            mpu_rasr: self.mpu_rasr@,
        }
    }
}

/// The DREGION field of the type register: how many regions the unit has.
pub open spec fn spec_dregion(mpu_type: u32) -> u32 {
    (mpu_type >> 8) & 0xFF
}

/// The reset word for a region's base-address register: the region number
/// in the low four bits with the valid bit (bit 4) set, all else zero.
pub open spec fn spec_rbar_reset(region: u8) -> u32 {
    1u32 << 4 | (region as u32 & 0b1111)
}

/// For the eight reset regions the reset word is exactly `16 + region`.
pub proof fn lemma_rbar_reset_value(region: u8)
    by (bit_vector)
    requires
        region < 16,
    ensures
        spec_rbar_reset(region) == 16 + region,
{
}

/// The protection unit's state after the reset sequence: untouched when the
/// unit reports no regions; otherwise control cleared, every region's
/// base-address register holding its reset word and its attribute/size
/// register zeroed (disabled).
pub open spec fn mpu_reset_spec(s: MpuSnapshot) -> MpuSnapshot {
    if spec_dregion(s.mpu_type) == 0 {
        s
    } else {
        MpuSnapshot {
            mpu_type: s.mpu_type,
            mpu_ctrl: 0,
            mpu_rbar: Seq::new(MPU_REGION_COUNT as nat, |n: int| spec_rbar_reset(n as u8)),
            mpu_rasr: Seq::new(MPU_REGION_COUNT as nat, |n: int| 0u32),
        }
    }
}

/// Resetting an already-reset unit changes nothing: the sequence is
/// idempotent, in particular when the unit reports zero regions.
pub proof fn lemma_mpu_reset_idempotent(s: MpuSnapshot)
    ensures
        mpu_reset_spec(mpu_reset_spec(s)) =~~= mpu_reset_spec(s),
{
}

impl MpuRes {
    /// The register file holds one word per reset region.
    pub open spec fn wf(&self) -> bool {
        &&& self.mpu_rbar@.len() == MPU_REGION_COUNT
        &&& self.mpu_rasr@.len() == MPU_REGION_COUNT
    }

    /// The unit's region count, from the type register.
    pub fn dregion(&self) -> (r: u32)
        ensures
            r == spec_dregion(self.mpu_type),
    {
        (self.mpu_type >> 8u32) & 0xFF
    }

    /// Drives the protection unit back to its disabled baseline. A unit
    /// reporting zero regions is absent: the call is a no-op, not an error.
    /// Otherwise enforcement is switched off and the fixed reset table is
    /// transferred over the region registers, so that afterwards every
    /// region is disabled and holds only its number and the valid bit.
    pub fn reset(&mut self)
        requires
            old(self).wf(),
        ensures
            final(self).wf(),
            final(self)@ == mpu_reset_spec(old(self)@),
            final(self).mpu_type == old(self).mpu_type,
            spec_dregion(old(self).mpu_type) == 0 ==> *final(self) == *old(self),
            spec_dregion(old(self).mpu_type) != 0 ==> {
                &&& final(self).mpu_ctrl == 0
                &&& forall|n: int|
                    0 <= n < MPU_REGION_COUNT ==> final(self).mpu_rasr@[n] == 0
                &&& forall|n: int|
                    0 <= n < MPU_REGION_COUNT ==> final(self).mpu_rbar@[n] == 16 + n
            },
    {
        if self.dregion() == 0 {
            return;
        }
        self.mpu_ctrl = 0;
        let table = mpu_reset_table();
        let mut n: usize = 0;
        while n < MPU_REGION_COUNT
            invariant
                n <= MPU_REGION_COUNT,
                table@.len() == 2 * MPU_REGION_COUNT,
                forall|i: int|
                    0 <= i < 2 * MPU_REGION_COUNT ==> #[trigger] table@[i] == (if i % 2 == 0 {
                        spec_rbar_reset((i / 2) as u8)
                    } else {
                        0u32
                    }),
                self.wf(),
                self.mpu_type == old(self).mpu_type,
                self.mpu_ctrl == 0,
                forall|i: int| 0 <= i < n ==> self.mpu_rbar@[i] == spec_rbar_reset(i as u8),
                forall|i: int| 0 <= i < n ==> self.mpu_rasr@[i] == 0,
            decreases MPU_REGION_COUNT - n,
        {
            self.mpu_rbar[n] = table[2 * n];
            self.mpu_rasr[n] = table[2 * n + 1];
            n = n + 1;
        }
        proof {
            assert forall|i: int| 0 <= i < MPU_REGION_COUNT implies self.mpu_rbar@[i] == 16 + i by {
                lemma_rbar_reset_value(i as u8);
            }
            assert(self@ =~= mpu_reset_spec(old(self)@));
        }
    }
}

/// The fixed 16-word reset table: for each region, its base-address reset
/// word followed by a zero for the attribute/size register.
pub fn mpu_reset_table() -> (table: Vec<u32>)
    ensures
        table@.len() == 2 * MPU_REGION_COUNT,
        forall|i: int|
            0 <= i < 2 * MPU_REGION_COUNT ==> #[trigger] table@[i] == (if i % 2 == 0 {
                spec_rbar_reset((i / 2) as u8)
            } else {
                0u32
            }),
{
    let mut table: Vec<u32> = Vec::new();
    let mut region: usize = 0;
    while region < MPU_REGION_COUNT
        invariant
            region <= MPU_REGION_COUNT,
            table@.len() == 2 * region,
            forall|i: int|
                0 <= i < 2 * region ==> #[trigger] table@[i] == (if i % 2 == 0 {
                    spec_rbar_reset((i / 2) as u8)
                } else {
                    0u32
                }),
        decreases MPU_REGION_COUNT - region,
    {
        table.push(rbar_reset(region as u8));
        table.push(0);
        region = region + 1;
    }
    table
}

/// The reset word for one region's base-address register.
pub fn rbar_reset(region: u8) -> (r: u32)
    ensures
        r == spec_rbar_reset(region),
{
    1u32 << 4u32 | (region as u32 & 0b1111)
}

/// The core-control/threading register state: the SCB CCR word.
pub struct ThrRes {
    /// Core-control register.
    pub scb_ccr: u32,
}

/// Exclusive permission to act as the task bound to one vector index.
///
/// Tokens are only ever issued by [`Thr::init`], as one fleet per system;
/// nothing else in the crate constructs one.
pub struct ThreadToken {
    vector: usize,
}

impl ThreadToken {
    /// The vector index this token is bound to.
    pub closed spec fn spec_vector(&self) -> usize {
        self.vector
    }

    /// The vector index this token is bound to.
    pub fn vector(&self) -> (v: usize)
        ensures
            v == self.spec_vector(),
    {
        self.vector
    }
}

/// The complete, one-time-issued collection of thread-identity tokens:
/// exactly one per declared vector binding.
pub struct TokenFleet {
    tokens: Vec<ThreadToken>,
}

impl View for TokenFleet {
    type V = Seq<usize>;

    closed spec fn view(&self) -> Seq<usize> {
        Seq::new(self.tokens@.len(), |k: int| self.tokens@[k].spec_vector())
    }
}

impl TokenFleet {
    /// How many tokens the fleet holds.
    pub fn len(&self) -> (n: usize)
        ensures
            n == self@.len(),
    {
        self.tokens.len()
    }

    /// The token for the `k`-th declared binding.
    pub fn token(&self, k: usize) -> (t: &ThreadToken)
        requires
            k < self@.len(),
        ensures
            t.spec_vector() == self@[k as int],
    {
        &self.tokens[k]
    }
}

/// Issues one token per binding, in declaration order.
fn take_fleet(bindings: &Vec<Binding>) -> (fleet: TokenFleet)
    ensures
        fleet@.len() == bindings@.len(),
        forall|k: int| 0 <= k < bindings@.len() ==> fleet@[k] == spec_binding_index(bindings@[k]),
{
    let mut tokens: Vec<ThreadToken> = Vec::new();
    let mut k: usize = 0;
    while k < bindings.len()
        invariant
            k <= bindings@.len(),
            tokens@.len() == k,
            forall|i: int|
                0 <= i < k ==> tokens@[i].spec_vector() == spec_binding_index(bindings@[i]),
        decreases bindings@.len() - k,
    {
        let vector = crate::vtable::binding_index(&bindings[k]);
        tokens.push(ThreadToken { vector });
        k = k + 1;
    }
    TokenFleet { tokens }
}

/// `Thr` driver: owner of the boot-time hardware resources.
pub struct Thr {
    /// Protection-unit registers.
    pub mpu: MpuRes,
    /// Core-control register.
    pub thr: ThrRes,
}

impl Thr {
    /// Takes exclusive ownership of both register resources. Pure
    /// construction: no register is touched.
    pub fn new(mpu: MpuRes, thr: ThrRes) -> (r: Self)
        ensures
            r.mpu == mpu,
            r.thr == thr,
    {
        Self { mpu, thr }
    }

    /// Releases the underlying registers without initializing anything.
    pub fn free(self) -> (r: (MpuRes, ThrRes))
        ensures
            r.0 == self.mpu,
            r.1 == self.thr,
    {
        let Thr { mpu, thr } = self;
        (mpu, thr)
    }

    /// Initializes the threading system and issues the token fleet.
    ///
    /// The caller-supplied transform may set any further core-control bits;
    /// the stack-alignment and nested-vectored-interrupt bits are then OR-ed
    /// in unconditionally, so they are set afterwards whatever the transform
    /// did. The protection unit is driven to its disabled baseline, and the
    /// fleet holds exactly one token per declared binding. The bindings must
    /// be a declared vector configuration — no two targeting the same index —
    /// else two tokens would claim one task. Consuming `self` makes a second
    /// issue unreachable: the resources are gone.
    pub fn init<F: FnOnce(u32) -> u32>(self, scb_ccr_init: F, bindings: &Vec<Binding>) -> (r: (
        TokenFleet,
        MpuRes,
        ThrRes,
    ))
        requires
            self.mpu.wf(),
            call_requires(scb_ccr_init, (self.thr.scb_ccr,)),
            crate::vtable::bindings_distinct(bindings@),
        ensures
            exists|mid: u32|
                call_ensures(scb_ccr_init, (self.thr.scb_ccr,), mid) && r.2.scb_ccr == (mid
                    | SCB_CCR_STKALIGN | SCB_CCR_NONBASETHRDENA),
            r.2.scb_ccr & (SCB_CCR_STKALIGN | SCB_CCR_NONBASETHRDENA) == (SCB_CCR_STKALIGN
                | SCB_CCR_NONBASETHRDENA),
            crate::bits::bit_read(r.2.scb_ccr, 9) && crate::bits::bit_read(r.2.scb_ccr, 0),
            r.1.wf(),
            r.1@ == mpu_reset_spec(self.mpu@),
            r.0@.len() == bindings@.len(),
            forall|k: int|
                0 <= k < bindings@.len() ==> r.0@[k] == spec_binding_index(bindings@[k]),
            forall|i: int, j: int| 0 <= i < j < bindings@.len() ==> r.0@[i] != r.0@[j],
    {
        let Thr { mut mpu, mut thr } = self;
        let configured = scb_ccr_init(thr.scb_ccr);
        let ccr = configured | SCB_CCR_STKALIGN | SCB_CCR_NONBASETHRDENA;
        proof {
            assert(ccr & (SCB_CCR_STKALIGN | SCB_CCR_NONBASETHRDENA) == (SCB_CCR_STKALIGN
                | SCB_CCR_NONBASETHRDENA) && crate::bits::bit_read(ccr, 9)
                && crate::bits::bit_read(ccr, 0)) by (bit_vector)
                requires
                    ccr == configured | SCB_CCR_STKALIGN | SCB_CCR_NONBASETHRDENA,
            ;
        }
        thr.scb_ccr = ccr;
        mpu.reset();
        let fleet = take_fleet(bindings);
        (fleet, mpu, thr)
    }
}

} // verus!
