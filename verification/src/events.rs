//! The event identifiers: named selectors for the hardware and software
//! counters the native facility can measure.
//!
//! Each identifier has a fixed native preset code, a contiguous range
//! starting at `0x8000_0000`; [`Counter::code`] yields it and
//! [`encode_events`] translates a whole requested list, which is what the
//! native "start counting" call takes.

use vstd::prelude::*;

verus! {

/// A named selector for one hardware or software counter preset.
#[allow(non_camel_case_types)]
#[derive(Clone, Copy, PartialEq, Eq, Structural, Debug)]
pub enum Counter {
    /// Level 1 data cache misses
    PAPI_L1_DCM,
    /// Level 1 instruction cache misses
    PAPI_L1_ICM,
    /// Level 2 data cache misses
    PAPI_L2_DCM,
    /// Level 2 instruction cache misses
    PAPI_L2_ICM,
    /// Level 3 data cache misses
    PAPI_L3_DCM,
    /// Level 3 instruction cache misses
    PAPI_L3_ICM,
    /// Level 1 total cache misses
    PAPI_L1_TCM,
    /// Level 2 total cache misses
    PAPI_L2_TCM,
    /// Level 3 total cache misses
    PAPI_L3_TCM,
    /// Snoops
    PAPI_CA_SNP,
    /// Request for shared cache line (SMP)
    PAPI_CA_SHR,
    /// Request for clean cache line (SMP)
    PAPI_CA_CLN,
    /// Request for cache line Invalidation (SMP)
    PAPI_CA_INV,
    /// Request for cache line Intervention (SMP)
    PAPI_CA_ITV,
    /// Level 3 load misses
    PAPI_L3_LDM,
    /// Level 3 store misses
    PAPI_L3_STM,
    /// Cycles branch units are idle
    PAPI_BRU_IDL,
    /// Cycles integer units are idle
    PAPI_FXU_IDL,
    /// Cycles floating point units are idle
    PAPI_FPU_IDL,
    /// Cycles load/store units are idle
    PAPI_LSU_IDL,
    /// Data translation lookaside buffer misses
    PAPI_TLB_DM,
    /// Instr translation lookaside buffer misses
    PAPI_TLB_IM,
    /// Total translation lookaside buffer misses
    PAPI_TLB_TL,
    /// Level 1 load misses
    PAPI_L1_LDM,
    /// Level 1 store misses
    PAPI_L1_STM,
    /// Level 2 load misses
    PAPI_L2_LDM,
    /// Level 2 store misses
    PAPI_L2_STM,
    /// BTAC miss
    PAPI_BTAC_M,
    /// Prefetch data instruction caused a miss
    PAPI_PRF_DM,
    /// Level 3 Data Cache Hit
    PAPI_L3_DCH,
    /// Xlation lookaside buffer shootdowns (SMP)
    PAPI_TLB_SD,
    /// Failed store conditional instructions
    PAPI_CSR_FAL,
    /// Successful store conditional instructions
    PAPI_CSR_SUC,
    /// Total store conditional instructions
    PAPI_CSR_TOT,
    /// Cycles Stalled Waiting for Memory Access
    PAPI_MEM_SCY,
    /// Cycles Stalled Waiting for Memory Read
    PAPI_MEM_RCY,
    /// Cycles Stalled Waiting for Memory Write
    PAPI_MEM_WCY,
    /// Cycles with No Instruction Issue
    PAPI_STL_ICY,
    /// Cycles with Maximum Instruction Issue
    PAPI_FUL_ICY,
    /// Cycles with No Instruction Completion
    PAPI_STL_CCY,
    /// Cycles with Maximum Instruction Completion
    PAPI_FUL_CCY,
    /// Hardware interrupts
    PAPI_HW_INT,
    /// Unconditional branch instructions executed
    PAPI_BR_UCN,
    /// Conditional branch instructions executed
    PAPI_BR_CN,
    /// Conditional branch instructions taken
    PAPI_BR_TKN,
    /// Conditional branch instructions not taken
    PAPI_BR_NTK,
    /// Conditional branch instructions mispred
    PAPI_BR_MSP,
    /// Conditional branch instructions corr. pred
    PAPI_BR_PRC,
    /// FMA instructions completed
    PAPI_FMA_INS,
    /// Total instructions issued
    PAPI_TOT_IIS,
    /// Total instructions executed
    PAPI_TOT_INS,
    /// Integer instructions executed
    PAPI_INT_INS,
    /// Floating point instructions executed
    PAPI_FP_INS,
    /// Load instructions executed
    PAPI_LD_INS,
    /// Store instructions executed
    PAPI_SR_INS,
    /// Total branch instructions executed
    PAPI_BR_INS,
    /// Vector/SIMD instructions executed (could include integer)
    PAPI_VEC_INS,
    /// Cycles processor is stalled on resource
    PAPI_RES_STL,
    /// Cycles any FP units are stalled
    PAPI_FP_STAL,
    /// Total cycles executed
    PAPI_TOT_CYC,
    /// Total load/store inst. executed
    PAPI_LST_INS,
    /// Sync. inst. executed
    PAPI_SYC_INS,
    /// L1 D Cache Hit
    PAPI_L1_DCH,
    /// L2 D Cache Hit
    PAPI_L2_DCH,
    /// L1 D Cache Access
    PAPI_L1_DCA,
    /// L2 D Cache Access
    PAPI_L2_DCA,
    /// L3 D Cache Access
    PAPI_L3_DCA,
    /// L1 D Cache Read
    PAPI_L1_DCR,
    /// L2 D Cache Read
    PAPI_L2_DCR,
    /// L3 D Cache Read
    PAPI_L3_DCR,
    /// L1 D Cache Write
    PAPI_L1_DCW,
    /// L2 D Cache Write
    PAPI_L2_DCW,
    /// L3 D Cache Write
    PAPI_L3_DCW,
    /// L1 instruction cache hits
    PAPI_L1_ICH,
    /// L2 instruction cache hits
    PAPI_L2_ICH,
    /// L3 instruction cache hits
    PAPI_L3_ICH,
    /// L1 instruction cache accesses
    PAPI_L1_ICA,
    /// L2 instruction cache accesses
    PAPI_L2_ICA,
    /// L3 instruction cache accesses
    PAPI_L3_ICA,
    /// L1 instruction cache reads
    PAPI_L1_ICR,
    /// L2 instruction cache reads
    PAPI_L2_ICR,
    /// L3 instruction cache reads
    PAPI_L3_ICR,
    /// L1 instruction cache writes
    PAPI_L1_ICW,
    /// L2 instruction cache writes
    PAPI_L2_ICW,
    /// L3 instruction cache writes
    PAPI_L3_ICW,
    /// L1 total cache hits
    PAPI_L1_TCH,
    /// L2 total cache hits
    PAPI_L2_TCH,
    /// L3 total cache hits
    PAPI_L3_TCH,
    /// L1 total cache accesses
    PAPI_L1_TCA,
    /// L2 total cache accesses
    PAPI_L2_TCA,
    /// L3 total cache accesses
    PAPI_L3_TCA,
    /// L1 total cache reads
    PAPI_L1_TCR,
    /// L2 total cache reads
    PAPI_L2_TCR,
    /// L3 total cache reads
    PAPI_L3_TCR,
    /// L1 total cache writes
    PAPI_L1_TCW,
    /// L2 total cache writes
    PAPI_L2_TCW,
    /// L3 total cache writes
    PAPI_L3_TCW,
    /// FM ins
    PAPI_FML_INS,
    /// FA ins
    PAPI_FAD_INS,
    /// FD ins
    PAPI_FDV_INS,
    /// FSq ins
    PAPI_FSQ_INS,
    /// Finv ins
    PAPI_FNV_INS,
    /// Floating point operations executed
    PAPI_FP_OPS,
    /// Floating point operations executed; optimized to count scaled single precision vector operations
    PAPI_SP_OPS,
    /// Floating point operations executed; optimized to count scaled double precision vector operations
    PAPI_DP_OPS,
    /// Single precision vector/SIMD instructions
    PAPI_VEC_SP,
    /// Double precision vector/SIMD instructions
    PAPI_VEC_DP,
    /// Reference clock cycles
    PAPI_REF_CYC,
    /// This should always be last!
    PAPI_END,
}

/// The native preset code of an event identifier: the identifiers form a
/// contiguous code range starting at `0x8000_0000`, in declaration order.
pub open spec fn spec_code(c: Counter) -> u32 {
    match c {
        Counter::PAPI_L1_DCM => 0x80000000,
        Counter::PAPI_L1_ICM => 0x80000001,
        Counter::PAPI_L2_DCM => 0x80000002,
        Counter::PAPI_L2_ICM => 0x80000003,
        Counter::PAPI_L3_DCM => 0x80000004,
        Counter::PAPI_L3_ICM => 0x80000005,
        Counter::PAPI_L1_TCM => 0x80000006,
        Counter::PAPI_L2_TCM => 0x80000007,
        Counter::PAPI_L3_TCM => 0x80000008,
        Counter::PAPI_CA_SNP => 0x80000009,
        Counter::PAPI_CA_SHR => 0x8000000a,
        Counter::PAPI_CA_CLN => 0x8000000b,
        Counter::PAPI_CA_INV => 0x8000000c,
        Counter::PAPI_CA_ITV => 0x8000000d,
        Counter::PAPI_L3_LDM => 0x8000000e,
        Counter::PAPI_L3_STM => 0x8000000f,
        Counter::PAPI_BRU_IDL => 0x80000010,
        Counter::PAPI_FXU_IDL => 0x80000011,
        Counter::PAPI_FPU_IDL => 0x80000012,
        Counter::PAPI_LSU_IDL => 0x80000013,
        Counter::PAPI_TLB_DM => 0x80000014,
        Counter::PAPI_TLB_IM => 0x80000015,
        Counter::PAPI_TLB_TL => 0x80000016,
        Counter::PAPI_L1_LDM => 0x80000017,
        Counter::PAPI_L1_STM => 0x80000018,
        Counter::PAPI_L2_LDM => 0x80000019,
        Counter::PAPI_L2_STM => 0x8000001a,
        Counter::PAPI_BTAC_M => 0x8000001b,
        Counter::PAPI_PRF_DM => 0x8000001c,
        Counter::PAPI_L3_DCH => 0x8000001d,
        Counter::PAPI_TLB_SD => 0x8000001e,
        Counter::PAPI_CSR_FAL => 0x8000001f,
        Counter::PAPI_CSR_SUC => 0x80000020,
        Counter::PAPI_CSR_TOT => 0x80000021,
        Counter::PAPI_MEM_SCY => 0x80000022,
        Counter::PAPI_MEM_RCY => 0x80000023,
        Counter::PAPI_MEM_WCY => 0x80000024,
        Counter::PAPI_STL_ICY => 0x80000025,
        Counter::PAPI_FUL_ICY => 0x80000026,
        Counter::PAPI_STL_CCY => 0x80000027,
        Counter::PAPI_FUL_CCY => 0x80000028,
        Counter::PAPI_HW_INT => 0x80000029,
        Counter::PAPI_BR_UCN => 0x8000002a,
        Counter::PAPI_BR_CN => 0x8000002b,
        Counter::PAPI_BR_TKN => 0x8000002c,
        Counter::PAPI_BR_NTK => 0x8000002d,
        Counter::PAPI_BR_MSP => 0x8000002e,
        Counter::PAPI_BR_PRC => 0x8000002f,
        Counter::PAPI_FMA_INS => 0x80000030,
        Counter::PAPI_TOT_IIS => 0x80000031,
        Counter::PAPI_TOT_INS => 0x80000032,
        Counter::PAPI_INT_INS => 0x80000033,
        Counter::PAPI_FP_INS => 0x80000034,
        Counter::PAPI_LD_INS => 0x80000035,
        Counter::PAPI_SR_INS => 0x80000036,
        Counter::PAPI_BR_INS => 0x80000037,
        Counter::PAPI_VEC_INS => 0x80000038,
        Counter::PAPI_RES_STL => 0x80000039,
        Counter::PAPI_FP_STAL => 0x8000003a,
        Counter::PAPI_TOT_CYC => 0x8000003b,
        Counter::PAPI_LST_INS => 0x8000003c,
        Counter::PAPI_SYC_INS => 0x8000003d,
        Counter::PAPI_L1_DCH => 0x8000003e,
        Counter::PAPI_L2_DCH => 0x8000003f,
        Counter::PAPI_L1_DCA => 0x80000040,
        Counter::PAPI_L2_DCA => 0x80000041,
        Counter::PAPI_L3_DCA => 0x80000042,
        Counter::PAPI_L1_DCR => 0x80000043,
        Counter::PAPI_L2_DCR => 0x80000044,
        Counter::PAPI_L3_DCR => 0x80000045,
        Counter::PAPI_L1_DCW => 0x80000046,
        Counter::PAPI_L2_DCW => 0x80000047,
        Counter::PAPI_L3_DCW => 0x80000048,
        Counter::PAPI_L1_ICH => 0x80000049,
        Counter::PAPI_L2_ICH => 0x8000004a,
        Counter::PAPI_L3_ICH => 0x8000004b,
        Counter::PAPI_L1_ICA => 0x8000004c,
        Counter::PAPI_L2_ICA => 0x8000004d,
        Counter::PAPI_L3_ICA => 0x8000004e,
        Counter::PAPI_L1_ICR => 0x8000004f,
        Counter::PAPI_L2_ICR => 0x80000050,
        Counter::PAPI_L3_ICR => 0x80000051,
        Counter::PAPI_L1_ICW => 0x80000052,
        Counter::PAPI_L2_ICW => 0x80000053,
        Counter::PAPI_L3_ICW => 0x80000054,
        Counter::PAPI_L1_TCH => 0x80000055,
        Counter::PAPI_L2_TCH => 0x80000056,
        Counter::PAPI_L3_TCH => 0x80000057,
        Counter::PAPI_L1_TCA => 0x80000058,
        Counter::PAPI_L2_TCA => 0x80000059,
        Counter::PAPI_L3_TCA => 0x8000005a,
        Counter::PAPI_L1_TCR => 0x8000005b,
        Counter::PAPI_L2_TCR => 0x8000005c,
        Counter::PAPI_L3_TCR => 0x8000005d,
        Counter::PAPI_L1_TCW => 0x8000005e,
        Counter::PAPI_L2_TCW => 0x8000005f,
        Counter::PAPI_L3_TCW => 0x80000060,
        Counter::PAPI_FML_INS => 0x80000061,
        Counter::PAPI_FAD_INS => 0x80000062,
        Counter::PAPI_FDV_INS => 0x80000063,
        Counter::PAPI_FSQ_INS => 0x80000064,
        Counter::PAPI_FNV_INS => 0x80000065,
        Counter::PAPI_FP_OPS => 0x80000066,
        Counter::PAPI_SP_OPS => 0x80000067,
        Counter::PAPI_DP_OPS => 0x80000068,
        Counter::PAPI_VEC_SP => 0x80000069,
        Counter::PAPI_VEC_DP => 0x8000006a,
        Counter::PAPI_REF_CYC => 0x8000006b,
        Counter::PAPI_END => 0x8000006c,
    }
}

impl Counter {
    /// The native preset code that stands for this event identifier in the
    /// native calls.
    pub fn code(&self) -> (r: u32)
        ensures
            r == spec_code(*self),
    {
        match *self {
            Counter::PAPI_L1_DCM => 0x80000000,
            Counter::PAPI_L1_ICM => 0x80000001,
            Counter::PAPI_L2_DCM => 0x80000002,
            Counter::PAPI_L2_ICM => 0x80000003,
            Counter::PAPI_L3_DCM => 0x80000004,
            Counter::PAPI_L3_ICM => 0x80000005,
            Counter::PAPI_L1_TCM => 0x80000006,
            Counter::PAPI_L2_TCM => 0x80000007,
            Counter::PAPI_L3_TCM => 0x80000008,
            Counter::PAPI_CA_SNP => 0x80000009,
            Counter::PAPI_CA_SHR => 0x8000000a,
            Counter::PAPI_CA_CLN => 0x8000000b,
            Counter::PAPI_CA_INV => 0x8000000c,
            Counter::PAPI_CA_ITV => 0x8000000d,
            Counter::PAPI_L3_LDM => 0x8000000e,
            Counter::PAPI_L3_STM => 0x8000000f,
            Counter::PAPI_BRU_IDL => 0x80000010,
            Counter::PAPI_FXU_IDL => 0x80000011,
            Counter::PAPI_FPU_IDL => 0x80000012,
            Counter::PAPI_LSU_IDL => 0x80000013,
            Counter::PAPI_TLB_DM => 0x80000014,
            Counter::PAPI_TLB_IM => 0x80000015,
            Counter::PAPI_TLB_TL => 0x80000016,
            Counter::PAPI_L1_LDM => 0x80000017,
            Counter::PAPI_L1_STM => 0x80000018,
            Counter::PAPI_L2_LDM => 0x80000019,
            Counter::PAPI_L2_STM => 0x8000001a,
            Counter::PAPI_BTAC_M => 0x8000001b,
            Counter::PAPI_PRF_DM => 0x8000001c,
            Counter::PAPI_L3_DCH => 0x8000001d,
            Counter::PAPI_TLB_SD => 0x8000001e,
            Counter::PAPI_CSR_FAL => 0x8000001f,
            Counter::PAPI_CSR_SUC => 0x80000020,
            Counter::PAPI_CSR_TOT => 0x80000021,
            Counter::PAPI_MEM_SCY => 0x80000022,
            Counter::PAPI_MEM_RCY => 0x80000023,
            Counter::PAPI_MEM_WCY => 0x80000024,
            Counter::PAPI_STL_ICY => 0x80000025,
            Counter::PAPI_FUL_ICY => 0x80000026,
            Counter::PAPI_STL_CCY => 0x80000027,
            Counter::PAPI_FUL_CCY => 0x80000028,
            Counter::PAPI_HW_INT => 0x80000029,
            Counter::PAPI_BR_UCN => 0x8000002a,
            Counter::PAPI_BR_CN => 0x8000002b,
            Counter::PAPI_BR_TKN => 0x8000002c,
            Counter::PAPI_BR_NTK => 0x8000002d,
            Counter::PAPI_BR_MSP => 0x8000002e,
            Counter::PAPI_BR_PRC => 0x8000002f,
            Counter::PAPI_FMA_INS => 0x80000030,
            Counter::PAPI_TOT_IIS => 0x80000031,
            Counter::PAPI_TOT_INS => 0x80000032,
            Counter::PAPI_INT_INS => 0x80000033,
            Counter::PAPI_FP_INS => 0x80000034,
            Counter::PAPI_LD_INS => 0x80000035,
            Counter::PAPI_SR_INS => 0x80000036,
            Counter::PAPI_BR_INS => 0x80000037,
            Counter::PAPI_VEC_INS => 0x80000038,
            Counter::PAPI_RES_STL => 0x80000039,
            Counter::PAPI_FP_STAL => 0x8000003a,
            Counter::PAPI_TOT_CYC => 0x8000003b,
            Counter::PAPI_LST_INS => 0x8000003c,
            Counter::PAPI_SYC_INS => 0x8000003d,
            Counter::PAPI_L1_DCH => 0x8000003e,
            Counter::PAPI_L2_DCH => 0x8000003f,
            Counter::PAPI_L1_DCA => 0x80000040,
            Counter::PAPI_L2_DCA => 0x80000041,
            Counter::PAPI_L3_DCA => 0x80000042,
            Counter::PAPI_L1_DCR => 0x80000043,
            Counter::PAPI_L2_DCR => 0x80000044,
            Counter::PAPI_L3_DCR => 0x80000045,
            Counter::PAPI_L1_DCW => 0x80000046,
            Counter::PAPI_L2_DCW => 0x80000047,
            Counter::PAPI_L3_DCW => 0x80000048,
            Counter::PAPI_L1_ICH => 0x80000049,
            Counter::PAPI_L2_ICH => 0x8000004a,
            Counter::PAPI_L3_ICH => 0x8000004b,
            Counter::PAPI_L1_ICA => 0x8000004c,
            Counter::PAPI_L2_ICA => 0x8000004d,
            Counter::PAPI_L3_ICA => 0x8000004e,
            Counter::PAPI_L1_ICR => 0x8000004f,
            Counter::PAPI_L2_ICR => 0x80000050,
            Counter::PAPI_L3_ICR => 0x80000051,
            Counter::PAPI_L1_ICW => 0x80000052,
            Counter::PAPI_L2_ICW => 0x80000053,
            Counter::PAPI_L3_ICW => 0x80000054,
            Counter::PAPI_L1_TCH => 0x80000055,
            Counter::PAPI_L2_TCH => 0x80000056,
            Counter::PAPI_L3_TCH => 0x80000057,
            Counter::PAPI_L1_TCA => 0x80000058,
            Counter::PAPI_L2_TCA => 0x80000059,
            Counter::PAPI_L3_TCA => 0x8000005a,
            Counter::PAPI_L1_TCR => 0x8000005b,
            Counter::PAPI_L2_TCR => 0x8000005c,
            Counter::PAPI_L3_TCR => 0x8000005d,
            Counter::PAPI_L1_TCW => 0x8000005e,
            Counter::PAPI_L2_TCW => 0x8000005f,
            Counter::PAPI_L3_TCW => 0x80000060,
            Counter::PAPI_FML_INS => 0x80000061,
            Counter::PAPI_FAD_INS => 0x80000062,
            Counter::PAPI_FDV_INS => 0x80000063,
            Counter::PAPI_FSQ_INS => 0x80000064,
            Counter::PAPI_FNV_INS => 0x80000065,
            Counter::PAPI_FP_OPS => 0x80000066,
            Counter::PAPI_SP_OPS => 0x80000067,
            Counter::PAPI_DP_OPS => 0x80000068,
            Counter::PAPI_VEC_SP => 0x80000069,
            Counter::PAPI_VEC_DP => 0x8000006a,
            Counter::PAPI_REF_CYC => 0x8000006b,
            Counter::PAPI_END => 0x8000006c,
        }
    }
}

/// Translates a requested list of event identifiers to the parallel list of
/// native preset codes, in the same order.
pub fn encode_events(counters: &Vec<Counter>) -> (r: Vec<u32>)
    ensures
        r@.len() == counters@.len(),
        forall|i: int| 0 <= i < counters@.len() ==> r@[i] == spec_code(counters@[i]),
{
    let mut raw: Vec<u32> = Vec::new();
    let mut k: usize = 0;
    while k < counters.len()
        invariant
            k <= counters@.len(),
            raw@.len() == k,
            forall|i: int| 0 <= i < k ==> raw@[i] == spec_code(counters@[i]),
        decreases counters@.len() - k,
    {
        raw.push(counters[k].code());
        k = k + 1;
    }
    raw
}

} // verus!
