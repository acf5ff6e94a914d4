use panthor::regs;

#[test]
fn bit_sets_one_bit() {
    assert_eq!(regs::bit(0), 1);
    assert_eq!(regs::bit(1), 2);
    assert_eq!(regs::bit(31), 0x8000_0000);
    assert_eq!(regs::bit(63), 0x8000_0000_0000_0000);
}

#[test]
fn genmask_sets_a_run_of_bits() {
    assert_eq!(regs::genmask(0, 0), 1);
    assert_eq!(regs::genmask(3, 0), 0xf);
    assert_eq!(regs::genmask(7, 0), 0xff);
    assert_eq!(regs::genmask(27, 24), 0x0f00_0000);
    assert_eq!(regs::genmask(11, 4), 0xff0);
    assert_eq!(regs::genmask(63, 1), 0xffff_ffff_ffff_fffe);
    assert_eq!(regs::genmask(62, 0), 0x7fff_ffff_ffff_ffff);
    assert_eq!(regs::genmask(63, 63), 0x8000_0000_0000_0000);
}

#[test]
fn gpu_id_fields() {
    let id: u64 = 0xa867_1234;
    assert_eq!(regs::gpu_arch_major(id), 0xa);
    assert_eq!(regs::gpu_arch_major(0xffff_ffff_0000_0000), 0xf_ffff_fff0);
    assert_eq!(regs::gpu_arch_minor(id), 0x4);
    assert_eq!(regs::gpu_arch_rev(id), 0x4);
    assert_eq!(regs::gpu_prod_major(id), 0x4);
    assert_eq!(regs::gpu_ver_major(id), 0x4);
    assert_eq!(regs::gpu_ver_minor(id), 0x34);
    assert_eq!(regs::gpu_ver_status(id), 0x4);
    assert_eq!(regs::gpu_arch_minor(u64::MAX), 0xf);
    assert_eq!(regs::gpu_ver_minor(u64::MAX), 0xff);
}

#[test]
fn feature_fields() {
    assert_eq!(regs::gpu_l2_features_line_size(6), 64);
    assert_eq!(regs::gpu_l2_features_line_size(0x1200), 1);
    assert_eq!(regs::gpu_l2_features_line_size(0x3f), 0x8000_0000_0000_0000);
    assert_eq!(regs::gpu_mmu_features_va_bits(0x2830), 0x30);
    assert_eq!(regs::gpu_mmu_features_pa_bits(0x2830), 0x28);
    assert_eq!(regs::gpu_texture_features(0), 0xb0);
    assert_eq!(regs::gpu_texture_features(3), 0xbc);
}

#[test]
fn command_words() {
    assert_eq!(regs::gpu_cmd_def(1, 1), 0x101);
    assert_eq!(regs::gpu_cmd_def(0x4, 0x33), 0x3304);
    assert_eq!(regs::gpu_soft_reset(), 0x101);
    assert_eq!(regs::gpu_hard_reset(), 0x201);
}

#[test]
fn interrupt_bits() {
    assert_eq!(regs::job_int_csg_if(0), 1);
    assert_eq!(regs::job_int_csg_if(5), 32);
    assert_eq!(regs::JOB_INT_GLOBAL_IF, regs::bit(31));
    assert_eq!(regs::GPU_IRQ_CLEAN_CACHES_COMPLETED, regs::bit(17));
    assert_eq!(regs::AS_TRANSCFG_XREADABLE, regs::bit(36));
}

#[test]
fn address_space_registers() {
    assert_eq!(regs::mmu_as(0), 0x2400);
    assert_eq!(regs::mmu_as(1), 0x2440);
    assert_eq!(regs::mmu_as(15), 0x27c0);
    assert_eq!(regs::as_transtab_lo(0), 0x2400);
    assert_eq!(regs::as_transtab_hi(0), 0x2404);
    assert_eq!(regs::as_memattr_lo(0), 0x2408);
    assert_eq!(regs::as_memattr_hi(0), 0x240c);
    assert_eq!(regs::as_lockaddr_lo(2), 0x2490);
    assert_eq!(regs::as_lockaddr_hi(2), 0x2494);
    assert_eq!(regs::as_command(2), 0x2498);
    assert_eq!(regs::as_faultstatus(0), 0x241c);
    assert_eq!(regs::as_faultaddress_lo(0), 0x2420);
    assert_eq!(regs::as_faultaddress_hi(0), 0x2424);
    assert_eq!(regs::as_status(0), 0x2428);
    assert_eq!(regs::as_transcfg_lo(1), 0x2470);
    assert_eq!(regs::as_transcfg_hi(1), 0x2474);
    assert_eq!(regs::as_faultextra_lo(3), 0x24f8);
    assert_eq!(regs::as_faultextra_hi(3), 0x24fc);
}

#[test]
fn translation_configuration_fields() {
    assert_eq!(regs::as_memattr_aarch64_inner_alloc_expl(0, 0), 0xc);
    assert_eq!(regs::as_memattr_aarch64_inner_alloc_expl(1, 0), 0xd);
    assert_eq!(regs::as_memattr_aarch64_inner_alloc_expl(0, 9), 0xe);
    assert_eq!(regs::as_memattr_aarch64_inner_alloc_expl(7, 7), 0xf);
    assert_eq!(regs::as_transcfg_ina_bits(0x19), 0x640);
    assert_eq!(regs::as_transcfg_outa_bits(0x5), 0x14000);
    assert_eq!(regs::as_transcfg_ina_bits(u64::MAX), 0xffff_ffff_ffff_ffc0);
}

#[test]
fn doorbell_pages() {
    assert_eq!(regs::csf_doorbell(0), 0x80000);
    assert_eq!(regs::csf_doorbell(1), 0x90000);
    assert_eq!(regs::csf_doorbell(regs::CSF_GLB_DOORBELL_ID), 0x80000);
}

#[test]
fn register_offsets() {
    assert_eq!(regs::GPU_ID, 0x0);
    assert_eq!(regs::GPU_STATUS, 0x34);
    assert_eq!(regs::GPU_PWR_KEY_UNLOCK, 0x2968a819);
    assert_eq!(regs::SHADER_READY_LO, 0x140);
    assert_eq!(regs::L2_READY_HI, 0x164);
    assert_eq!(regs::MCU_STATUS, 0x704);
    assert_eq!(regs::JOB_INT_MASK, 0x1008);
    assert_eq!(regs::MMU_INT_STAT, 0x200c);
    assert_eq!(regs::MMU_BASE, 0x2400);
    assert_eq!(regs::MMU_AS_SHIFT, 6);
    assert_eq!(regs::CSF_GPU_LATEST_FLUSH_ID, 0x10000);
}
