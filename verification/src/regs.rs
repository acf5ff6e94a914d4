//! The register map of the GPU: offsets of the control and status registers
//! from the start of the register window, the values and bit fields that go
//! with them, and the helpers that compute the per-instance ones.

use vstd::prelude::*;

verus! {

/// A register of the GPU, named by its byte offset from the start of the
/// register window, or a value or bit mask that belongs to one.
pub type GpuRegister = u64;

/// The value with only bit `index` set.
pub fn bit(index: u64) -> (r: u64)
    requires
        index < 64,
    ensures
        r == 1u64 << index,
{
    1u64 << index
}

/// The mask that [`genmask`] computes: `high - low + 1` one bits, moved up
/// by `low` places. Bits moved past bit 63 are lost.
pub open spec fn spec_genmask(high: u64, low: u64) -> u64 {
    ((((1u64 << ((high - low + 1) as u64)) - 1) as u64) << low)
}

/// A contiguous mask with bits `low` to `high` set, both ends included.
pub fn genmask(high: u64, low: u64) -> (r: u64)
    requires
        low <= high,
        high - low < 63,
        low < 64,
    ensures
        r == spec_genmask(high, low),
{
    let width: u64 = high - low + 1;
    let top: u64 = 1u64 << width;
    assert(top >= 1) by (bit_vector)
        requires
            top == 1u64 << width,
            width < 64,
    ;
    (top - 1) << low
}

/// Inside its domain, [`spec_genmask`] sets bit `i` exactly when `i` lies
/// between `low` and `high`.
pub proof fn lemma_genmask_bits(high: u64, low: u64, i: u64)
    requires
        low <= high,
        high < 64,
        high - low < 63,
        i < 64,
    ensures
        ((spec_genmask(high, low) >> i) & 1 == 1) <==> (low <= i <= high),
{
    assert(((spec_genmask(high, low) >> i) & 1 == 1) <==> (low <= i <= high)) by (bit_vector)
        requires
            low <= high,
            high < 64,
            high - low < 63,
            i < 64,
    ;
}

pub const GPU_ID: GpuRegister = 0x0;

/// The architecture major revision of a GPU ID: `x` without its low 28
/// bits.
pub fn gpu_arch_major(x: u64) -> (r: GpuRegister)
    ensures
        r == x / 0x1000_0000,
{
    assert(x >> 28 == x / 0x1000_0000) by (bit_vector);
    x >> 28
}

/// The architecture minor revision, taken from a GPU ID that was moved down
/// by 24 bits, so that the field starts at bit 0: the low four bits of `x`.
pub fn gpu_arch_minor(x: u64) -> (r: GpuRegister)
    ensures
        r == x % 16,
{
    let mask: u64 = genmask(27, 24) >> 24;
    assert(x & mask == x % 16) by (bit_vector)
        requires
            mask == spec_genmask(27, 24) >> 24u64,
    ;
    x & mask
}

/// The architecture revision, taken from a GPU ID that was moved down by 20
/// bits, so that the field starts at bit 0: the low four bits of `x`.
pub fn gpu_arch_rev(x: u64) -> (r: GpuRegister)
    ensures
        r == x % 16,
{
    let mask: u64 = genmask(23, 20) >> 20;
    assert(x & mask == x % 16) by (bit_vector)
        requires
            mask == spec_genmask(23, 20) >> 20u64,
    ;
    x & mask
}

/// The product major number, taken from a GPU ID that was moved down by 16
/// bits, so that the field starts at bit 0: the low four bits of `x`.
pub fn gpu_prod_major(x: u64) -> (r: GpuRegister)
    ensures
        r == x % 16,
{
    let mask: u64 = genmask(19, 16) >> 16;
    assert(x & mask == x % 16) by (bit_vector)
        requires
            mask == spec_genmask(19, 16) >> 16u64,
    ;
    x & mask
}

/// The version major number, taken from a GPU ID that was moved down by 12
/// bits, so that the field starts at bit 0: the low four bits of `x`.
pub fn gpu_ver_major(x: u64) -> (r: GpuRegister)
    ensures
        r == x % 16,
{
    let mask: u64 = genmask(15, 12) >> 12;
    assert(x & mask == x % 16) by (bit_vector)
        requires
            mask == spec_genmask(15, 12) >> 12u64,
    ;
    x & mask
}

/// The version minor number, taken from a GPU ID that was moved down by 4
/// bits, so that the field starts at bit 0: the low eight bits of `x`.
pub fn gpu_ver_minor(x: u64) -> (r: GpuRegister)
    ensures
        r == x % 256,
{
    let mask: u64 = genmask(11, 4) >> 4;
    assert(x & mask == x % 256) by (bit_vector)
        requires
            mask == spec_genmask(11, 4) >> 4u64,
    ;
    x & mask
}

/// The version status of a GPU ID: the low four bits of `x`.
pub fn gpu_ver_status(x: u64) -> (r: GpuRegister)
    ensures
        r == x % 16,
{
    let mask: u64 = genmask(3, 0);
    assert(x & mask == x % 16) by (bit_vector)
        requires
            mask == spec_genmask(3, 0),
    ;
    x & mask
}

pub const GPU_L2_FEATURES: GpuRegister = 0x4;

/// The L2 cache line size in bytes: two to the power of the low eight bits
/// of `x`, which must stay below 64.
pub fn gpu_l2_features_line_size(x: u64) -> (r: GpuRegister)
    requires
        x % 256 < 64,
    ensures
        r == 1u64 << (x % 256) as u64,
{
    let mask: u64 = genmask(7, 0);
    assert(x & mask == x % 256) by (bit_vector)
        requires
            mask == spec_genmask(7, 0),
    ;
    1u64 << (x & mask)
}

pub const GPU_CORE_FEATURES: GpuRegister = 0x8;
pub const GPU_TILER_FEATURES: GpuRegister = 0xc;
pub const GPU_MEM_FEATURES: GpuRegister = 0x10;
pub const GROUPS_L2_COHERENT: GpuRegister = 0x1;
pub const GPU_MMU_FEATURES: GpuRegister = 0x14;

/// The number of virtual address bits: the low eight bits of `x`.
pub fn gpu_mmu_features_va_bits(x: u64) -> (r: GpuRegister)
    ensures
        r == x % 256,
{
    let mask: u64 = genmask(7, 0);
    assert(x & mask == x % 256) by (bit_vector)
        requires
            mask == spec_genmask(7, 0),
    ;
    x & mask
}

/// The number of physical address bits: bits 15 to 8 of `x`.
pub fn gpu_mmu_features_pa_bits(x: u64) -> (r: GpuRegister)
    ensures
        r == x / 256 % 256,
{
    let mask: u64 = genmask(7, 0);
    assert((x >> 8) & mask == x / 256 % 256) by (bit_vector)
        requires
            mask == spec_genmask(7, 0),
    ;
    (x >> 8) & mask
}

pub const GPU_AS_PRESENT: GpuRegister = 0x18;
pub const GPU_CSF_ID: GpuRegister = 0x1c;
pub const GPU_INT_RAWSTAT: GpuRegister = 0x20;
pub const GPU_INT_CLEAR: GpuRegister = 0x24;
pub const GPU_INT_MASK: GpuRegister = 0x28;
pub const GPU_INT_STAT: GpuRegister = 0x2c;
pub const GPU_IRQ_FAULT: GpuRegister = 0x1;
pub const GPU_IRQ_PROTM_FAULT: GpuRegister = 0x2;
pub const GPU_IRQ_RESET_COMPLETED: GpuRegister = 0x100;
pub const GPU_IRQ_POWER_CHANGED: GpuRegister = 0x200;
pub const GPU_IRQ_POWER_CHANGED_ALL: GpuRegister = 0x400;
pub const GPU_IRQ_CLEAN_CACHES_COMPLETED: GpuRegister = 0x20000;
pub const GPU_IRQ_DOORBELL_MIRROR: GpuRegister = 0x40000;
pub const GPU_IRQ_MCU_STATUS_CHANGED: GpuRegister = 0x80000;
pub const GPU_CMD: GpuRegister = 0x30;

/// A command word: the command type in the low byte, the payload above it.
pub fn gpu_cmd_def(ty: u64, payload: u64) -> (r: u64)
    ensures
        r == ty | (payload << 8),
        ty < 256 && payload < 0x0100_0000_0000_0000 ==> r == ty + 256 * payload,
{
    assert(ty < 256 && payload < 0x0100_0000_0000_0000 ==> ty | (payload << 8) == ty + 256
        * payload) by (bit_vector);
    ty | (payload << 8)
}

/// The command word of a soft reset.
pub fn gpu_soft_reset() -> (r: GpuRegister)
    ensures
        r == 0x101,
{
    gpu_cmd_def(1, 1)
}

/// The command word of a hard reset.
pub fn gpu_hard_reset() -> (r: GpuRegister)
    ensures
        r == 0x201,
{
    gpu_cmd_def(1, 2)
}

pub const CACHE_CLEAN: GpuRegister = 0x1;
pub const CACHE_INV: GpuRegister = 0x2;
pub const GPU_STATUS: GpuRegister = 0x34;
pub const GPU_STATUS_ACTIVE: GpuRegister = 0x1;
pub const GPU_STATUS_PWR_ACTIVE: GpuRegister = 0x2;
pub const GPU_STATUS_PAGE_FAULT: GpuRegister = 0x10;
pub const GPU_STATUS_PROTM_ACTIVE: GpuRegister = 0x80;
pub const GPU_STATUS_DBG_ENABLED: GpuRegister = 0x100;
pub const GPU_FAULT_STATUS: GpuRegister = 0x3c;
pub const GPU_FAULT_ADDR_LO: GpuRegister = 0x40;
pub const GPU_FAULT_ADDR_HI: GpuRegister = 0x44;
pub const GPU_PWR_KEY: GpuRegister = 0x50;
pub const GPU_PWR_KEY_UNLOCK: GpuRegister = 0x2968a819;
pub const GPU_PWR_OVERRIDE0: GpuRegister = 0x54;
pub const GPU_PWR_OVERRIDE1: GpuRegister = 0x58;
pub const GPU_TIMESTAMP_OFFSET_LO: GpuRegister = 0x88;
pub const GPU_TIMESTAMP_OFFSET_HI: GpuRegister = 0x8c;
pub const GPU_CYCLE_COUNT_LO: GpuRegister = 0x90;
pub const GPU_CYCLE_COUNT_HI: GpuRegister = 0x94;
pub const GPU_TIMESTAMP_LO: GpuRegister = 0x98;
pub const GPU_TIMESTAMP_HI: GpuRegister = 0x9c;
pub const GPU_THREAD_MAX_THREADS: GpuRegister = 0xa0;
pub const GPU_THREAD_MAX_WORKGROUP_SIZE: GpuRegister = 0xa4;
pub const GPU_THREAD_MAX_BARRIER_SIZE: GpuRegister = 0xa8;
pub const GPU_THREAD_FEATURES: GpuRegister = 0xac;

/// The offset of texture features register `n`.
pub fn gpu_texture_features(n: u64) -> (r: GpuRegister)
    requires
        0xb0 + n * 4 <= u64::MAX,
    ensures
        r == 0xb0 + n * 4,
{
    0xb0 + n * 4
}

pub const GPU_SHADER_PRESENT_LO: GpuRegister = 0x100;
pub const GPU_SHADER_PRESENT_HI: GpuRegister = 0x104;
pub const GPU_TILER_PRESENT_LO: GpuRegister = 0x110;
pub const GPU_TILER_PRESENT_HI: GpuRegister = 0x114;
pub const GPU_L2_PRESENT_LO: GpuRegister = 0x120;
pub const GPU_L2_PRESENT_HI: GpuRegister = 0x124;
pub const SHADER_READY_LO: GpuRegister = 0x140;
pub const SHADER_READY_HI: GpuRegister = 0x144;
pub const TILER_READY_LO: GpuRegister = 0x150;
pub const TILER_READY_HI: GpuRegister = 0x154;
pub const L2_READY_LO: GpuRegister = 0x160;
pub const L2_READY_HI: GpuRegister = 0x164;
pub const SHADER_PWRON_LO: GpuRegister = 0x180;
pub const SHADER_PWRON_HI: GpuRegister = 0x184;
pub const TILER_PWRON_LO: GpuRegister = 0x190;
pub const TILER_PWRON_HI: GpuRegister = 0x194;
pub const L2_PWRON_LO: GpuRegister = 0x1a0;
pub const L2_PWRON_HI: GpuRegister = 0x1a4;
pub const SHADER_PWROFF_LO: GpuRegister = 0x1c0;
pub const SHADER_PWROFF_HI: GpuRegister = 0x1c4;
pub const TILER_PWROFF_LO: GpuRegister = 0x1d0;
pub const TILER_PWROFF_HI: GpuRegister = 0x1d4;
pub const L2_PWROFF_LO: GpuRegister = 0x1e0;
pub const L2_PWROFF_HI: GpuRegister = 0x1e4;
pub const SHADER_PWRTRANS_LO: GpuRegister = 0x200;
pub const SHADER_PWRTRANS_HI: GpuRegister = 0x204;
pub const TILER_PWRTRANS_LO: GpuRegister = 0x210;
pub const TILER_PWRTRANS_HI: GpuRegister = 0x214;
pub const L2_PWRTRANS_LO: GpuRegister = 0x220;
pub const L2_PWRTRANS_HI: GpuRegister = 0x224;
pub const SHADER_PWRACTIVE_LO: GpuRegister = 0x240;
pub const SHADER_PWRACTIVE_HI: GpuRegister = 0x244;
pub const TILER_PWRACTIVE_LO: GpuRegister = 0x250;
pub const TILER_PWRACTIVE_HI: GpuRegister = 0x254;
pub const L2_PWRACTIVE_LO: GpuRegister = 0x260;
pub const L2_PWRACTIVE_HI: GpuRegister = 0x264;
pub const GPU_REVID: GpuRegister = 0x280;
pub const GPU_COHERENCY_FEATURES: GpuRegister = 0x300;
pub const GPU_COHERENCY_PROTOCOL: GpuRegister = 0x304;
pub const GPU_COHERENCY_ACE: GpuRegister = 0;
pub const GPU_COHERENCY_ACE_LITE: GpuRegister = 1;
pub const GPU_COHERENCY_NONE: GpuRegister = 31;
pub const MCU_CONTROL: GpuRegister = 0x700;
pub const MCU_CONTROL_ENABLE: GpuRegister = 1;
pub const MCU_CONTROL_AUTO: GpuRegister = 2;
pub const MCU_CONTROL_DISABLE: GpuRegister = 0;
pub const MCU_STATUS: GpuRegister = 0x704;
pub const MCU_STATUS_DISABLED: GpuRegister = 0;
pub const MCU_STATUS_ENABLED: GpuRegister = 1;
pub const MCU_STATUS_HALT: GpuRegister = 2;
pub const MCU_STATUS_FATAL: GpuRegister = 3;
pub const JOB_INT_RAWSTAT: GpuRegister = 0x1000;
pub const JOB_INT_CLEAR: GpuRegister = 0x1004;
pub const JOB_INT_MASK: GpuRegister = 0x1008;
pub const JOB_INT_STAT: GpuRegister = 0x100c;
pub const JOB_INT_GLOBAL_IF: GpuRegister = 0x80000000;

/// The job interrupt bit of command stream group `x`.
pub fn job_int_csg_if(x: u64) -> (r: GpuRegister)
    requires
        x < 64,
    ensures
        r == 1u64 << x,
{
    bit(x)
}

pub const MMU_INT_RAWSTAT: GpuRegister = 0x2000;
pub const MMU_INT_CLEAR: GpuRegister = 0x2004;
pub const MMU_INT_MASK: GpuRegister = 0x2008;
pub const MMU_INT_STAT: GpuRegister = 0x200c;
pub const MMU_BASE: GpuRegister = 0x2400;
pub const MMU_AS_SHIFT: GpuRegister = 6;

/// The offset at which the registers of address space `as_` start: the
/// address spaces lie 64 bytes apart from `MMU_BASE` on. The index is
/// shifted within 64 bits, so bits of it that are moved past bit 63 are
/// lost.
pub open spec fn spec_mmu_as(as_: u64) -> int {
    MMU_BASE + (as_ * 64) % 0x1_0000_0000_0000_0000
}

/// The offset at which the registers of address space `as_` start.
pub fn mmu_as(as_: u64) -> (r: u64)
    requires
        spec_mmu_as(as_) <= u64::MAX,
    ensures
        r == spec_mmu_as(as_),
{
    assert(as_ << 6 == (as_ * 64) % 0x1_0000_0000_0000_0000) by (bit_vector);
    MMU_BASE + (as_ << MMU_AS_SHIFT)
}

/// Translation table base of address space `as_`, low word.
pub fn as_transtab_lo(as_: u64) -> (r: GpuRegister)
    requires
        spec_mmu_as(as_) + 0x0 <= u64::MAX,
    ensures
        r == spec_mmu_as(as_) + 0x0,
{
    mmu_as(as_) + 0x0
}

/// Translation table base of address space `as_`, high word.
pub fn as_transtab_hi(as_: u64) -> (r: GpuRegister)
    requires
        spec_mmu_as(as_) + 0x4 <= u64::MAX,
    ensures
        r == spec_mmu_as(as_) + 0x4,
{
    mmu_as(as_) + 0x4
}

/// Memory attributes of address space `as_`, low word.
pub fn as_memattr_lo(as_: u64) -> (r: GpuRegister)
    requires
        spec_mmu_as(as_) + 0x8 <= u64::MAX,
    ensures
        r == spec_mmu_as(as_) + 0x8,
{
    mmu_as(as_) + 0x8
}

/// Memory attributes of address space `as_`, high word.
pub fn as_memattr_hi(as_: u64) -> (r: GpuRegister)
    requires
        spec_mmu_as(as_) + 0xc <= u64::MAX,
    ensures
        r == spec_mmu_as(as_) + 0xc,
{
    mmu_as(as_) + 0xc
}

/// The AArch64 inner allocation policy field with explicit hints: the two
/// top bits of the nibble are set, bit 0 stands for write allocation and
/// bit 1 for read allocation.
pub fn as_memattr_aarch64_inner_alloc_expl(w: u64, r: u64) -> (v: GpuRegister)
    ensures
        v == 12 + (if w > 0 { 1int } else { 0int }) + (if r > 0 { 2int } else { 0int }),
{
    let wbit: u64 = if w > 0 { bit(0) } else { 0 };
    let rbit: u64 = if r > 0 { bit(1) } else { 0 };
    let v: u64 = (3u64 << 2) | (wbit | rbit);
    assert(v == 12 + wbit + rbit && (w > 0 ==> wbit == 1) && (r > 0 ==> rbit == 2)) by (bit_vector)
        requires
            v == (3u64 << 2) | (wbit | rbit),
            wbit == 0 || wbit == 1u64 << 0,
            rbit == 0 || rbit == 1u64 << 1,
            w > 0 ==> wbit == 1u64 << 0,
            r > 0 ==> rbit == 1u64 << 1,
    ;
    v
}

/// Lock region address of address space `as_`, low word.
pub fn as_lockaddr_lo(as_: u64) -> (r: GpuRegister)
    requires
        spec_mmu_as(as_) + 0x10 <= u64::MAX,
    ensures
        r == spec_mmu_as(as_) + 0x10,
{
    mmu_as(as_) + 0x10
}

/// Lock region address of address space `as_`, high word.
pub fn as_lockaddr_hi(as_: u64) -> (r: GpuRegister)
    requires
        spec_mmu_as(as_) + 0x14 <= u64::MAX,
    ensures
        r == spec_mmu_as(as_) + 0x14,
{
    mmu_as(as_) + 0x14
}

/// Command register of address space `as_`.
pub fn as_command(as_: u64) -> (r: GpuRegister)
    requires
        spec_mmu_as(as_) + 0x18 <= u64::MAX,
    ensures
        r == spec_mmu_as(as_) + 0x18,
{
    mmu_as(as_) + 0x18
}

pub const AS_COMMAND_NOP: GpuRegister = 0;
pub const AS_COMMAND_UPDATE: GpuRegister = 1;
pub const AS_COMMAND_LOCK: GpuRegister = 2;
pub const AS_COMMAND_UNLOCK: GpuRegister = 3;
pub const AS_COMMAND_FLUSH_PT: GpuRegister = 4;
pub const AS_COMMAND_FLUSH_MEM: GpuRegister = 5;

/// Fault status of address space `as_`.
pub fn as_faultstatus(as_: u64) -> (r: GpuRegister)
    requires
        spec_mmu_as(as_) + 0x1c <= u64::MAX,
    ensures
        r == spec_mmu_as(as_) + 0x1c,
{
    mmu_as(as_) + 0x1c
}

/// Fault address of address space `as_`, low word.
pub fn as_faultaddress_lo(as_: u64) -> (r: GpuRegister)
    requires
        spec_mmu_as(as_) + 0x20 <= u64::MAX,
    ensures
        r == spec_mmu_as(as_) + 0x20,
{
    mmu_as(as_) + 0x20
}

/// Fault address of address space `as_`, high word.
pub fn as_faultaddress_hi(as_: u64) -> (r: GpuRegister)
    requires
        spec_mmu_as(as_) + 0x24 <= u64::MAX,
    ensures
        r == spec_mmu_as(as_) + 0x24,
{
    mmu_as(as_) + 0x24
}

/// Status register of address space `as_`.
pub fn as_status(as_: u64) -> (r: GpuRegister)
    requires
        spec_mmu_as(as_) + 0x28 <= u64::MAX,
    ensures
        r == spec_mmu_as(as_) + 0x28,
{
    mmu_as(as_) + 0x28
}

pub const AS_STATUS_AS_ACTIVE: GpuRegister = 0x1;

/// Translation configuration of address space `as_`, low word.
pub fn as_transcfg_lo(as_: u64) -> (r: GpuRegister)
    requires
        spec_mmu_as(as_) + 0x30 <= u64::MAX,
    ensures
        r == spec_mmu_as(as_) + 0x30,
{
    mmu_as(as_) + 0x30
}

/// Translation configuration of address space `as_`, high word.
pub fn as_transcfg_hi(as_: u64) -> (r: GpuRegister)
    requires
        spec_mmu_as(as_) + 0x34 <= u64::MAX,
    ensures
        r == spec_mmu_as(as_) + 0x34,
{
    mmu_as(as_) + 0x34
}

/// The input address range field of the translation configuration: `x`
/// moved up by 6 bits within 64 bits.
pub fn as_transcfg_ina_bits(x: u64) -> (r: GpuRegister)
    ensures
        r == (x * 64) % 0x1_0000_0000_0000_0000,
{
    assert(x << 6 == (x * 64) % 0x1_0000_0000_0000_0000) by (bit_vector);
    x << 6
}

/// The output address range field of the translation configuration: `x`
/// moved up by 14 bits within 64 bits.
pub fn as_transcfg_outa_bits(x: u64) -> (r: GpuRegister)
    ensures
        r == (x * 0x4000) % 0x1_0000_0000_0000_0000,
{
    assert(x << 14 == (x * 0x4000) % 0x1_0000_0000_0000_0000) by (bit_vector);
    x << 14
}

pub const AS_TRANSCFG_SL_CONCAT: GpuRegister = 0x400000;
pub const AS_TRANSCFG_PTW_RA: GpuRegister = 0x40000000;
pub const AS_TRANSCFG_DISABLE_HIER_AP: GpuRegister = 0x200000000;
pub const AS_TRANSCFG_DISABLE_AF_FAULT: GpuRegister = 0x400000000;
pub const AS_TRANSCFG_WXN: GpuRegister = 0x800000000;
pub const AS_TRANSCFG_XREADABLE: GpuRegister = 0x1000000000;

/// Extra fault information of address space `as_`, low word.
pub fn as_faultextra_lo(as_: u64) -> (r: GpuRegister)
    requires
        spec_mmu_as(as_) + 0x38 <= u64::MAX,
    ensures
        r == spec_mmu_as(as_) + 0x38,
{
    mmu_as(as_) + 0x38
}

/// Extra fault information of address space `as_`, high word.
pub fn as_faultextra_hi(as_: u64) -> (r: GpuRegister)
    requires
        spec_mmu_as(as_) + 0x3c <= u64::MAX,
    ensures
        r == spec_mmu_as(as_) + 0x3c,
{
    mmu_as(as_) + 0x3c
}

pub const CSF_GPU_LATEST_FLUSH_ID: GpuRegister = 0x10000;

/// The offset of doorbell page `i`.
pub fn csf_doorbell(i: u64) -> (r: GpuRegister)
    requires
        0x80000 + i * 0x10000 <= u64::MAX,
    ensures
        r == 0x80000 + i * 0x10000,
{
    0x80000 + i * 0x10000
}

pub const CSF_GLB_DOORBELL_ID: GpuRegister = 0;

} // verus!
