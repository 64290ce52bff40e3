use backtrace_dbghelp::{
    capture_x86_context, init_frame, resolution_strategy, AddrMode, Architecture, Frame,
    FrameKind, RegisterContext, ResolutionStrategy, X86CallSite, X86Context, CONTEXT_FULL_X86,
    IMAGE_FILE_MACHINE_AMD64, IMAGE_FILE_MACHINE_ARM64, IMAGE_FILE_MACHINE_ARMNT,
    IMAGE_FILE_MACHINE_I386,
};

fn x86_context(eip: u32, esp: u32, ebp: u32) -> X86Context {
    X86Context {
        context_flags: CONTEXT_FULL_X86,
        seg_gs: 0,
        seg_fs: 0,
        seg_es: 0,
        seg_ds: 0,
        edi: 1,
        esi: 2,
        ebx: 3,
        edx: 4,
        ecx: 5,
        eax: 6,
        ebp,
        eip,
        seg_cs: 0,
        eflags: 0,
        esp,
        seg_ss: 0,
    }
}

fn assert_initialized(f: &Frame, ip: u64, sp: u64, fp: u64) {
    assert_eq!(f.ip(), ip);
    assert_eq!(f.sp(), sp);
    assert_eq!(f.addr_frame().offset, fp);
    assert_eq!(f.addr_pc().mode, AddrMode::Flat);
    assert_eq!(f.addr_stack().mode, AddrMode::Flat);
    assert_eq!(f.addr_frame().mode, AddrMode::Flat);
}

#[test]
fn x86_64_context_fills_both_shapes() {
    let ctx = RegisterContext::X86_64 { rip: 0x7ff6_1234_5678, rsp: 0x00e8_ff10, rbp: 0x00e8_ff80 };
    for kind in [FrameKind::Extended, FrameKind::Legacy] {
        let mut f = Frame::zeroed(kind);
        let tag = init_frame(&mut f, &ctx);
        assert_eq!(tag, IMAGE_FILE_MACHINE_AMD64);
        assert_eq!(tag, 0x8664);
        assert_eq!(f.kind(), kind);
        assert_initialized(&f, 0x7ff6_1234_5678, 0x00e8_ff10, 0x00e8_ff80);
    }
}

#[test]
fn x86_context_is_widened() {
    let ctx = RegisterContext::X86(x86_context(0x0040_1000, 0x0012_ff00, 0xffff_fff0));
    let mut f = Frame::zeroed(FrameKind::Legacy);
    assert_eq!(init_frame(&mut f, &ctx), IMAGE_FILE_MACHINE_I386);
    assert_eq!(IMAGE_FILE_MACHINE_I386, 0x014c);
    assert_initialized(&f, 0x0040_1000, 0x0012_ff00, 0xffff_fff0);
}

#[test]
fn arm_contexts_use_their_frame_registers() {
    let mut f = Frame::zeroed(FrameKind::Extended);
    let tag = init_frame(&mut f, &RegisterContext::Arm64 { pc: 0x10, sp: 0x20, fp: 0x30 });
    assert_eq!(tag, IMAGE_FILE_MACHINE_ARM64);
    assert_eq!(tag, 0xaa64);
    assert_initialized(&f, 0x10, 0x20, 0x30);

    let mut g = Frame::zeroed(FrameKind::Legacy);
    let tag = init_frame(&mut g, &RegisterContext::Arm { pc: 0x11, sp: 0x22, r11: 0x33 });
    assert_eq!(tag, IMAGE_FILE_MACHINE_ARMNT);
    assert_eq!(tag, 0x01c4);
    assert_initialized(&g, 0x11, 0x22, 0x33);
}

#[test]
fn init_keeps_segments_and_other_fields() {
    let mut f = Frame::zeroed(FrameKind::Extended);
    f.addr_pc_mut().segment = 9;
    if let Frame::New(r) = &mut f {
        r.stack_frame_size = 48;
    }
    init_frame(&mut f, &RegisterContext::X86_64 { rip: 1, rsp: 2, rbp: 3 });
    assert_eq!(f.addr_pc().segment, 9);
    match f {
        Frame::New(r) => assert_eq!(r.stack_frame_size, 48),
        Frame::Old(_) => panic!("shape changed"),
    }
}

#[test]
fn architecture_tags_and_context_architecture() {
    assert_eq!(Architecture::X86.machine_type(), 0x014c);
    assert_eq!(Architecture::X86_64.machine_type(), 0x8664);
    assert_eq!(Architecture::Arm.machine_type(), 0x01c4);
    assert_eq!(Architecture::Arm64.machine_type(), 0xaa64);
    let ctx = RegisterContext::Arm { pc: 0, sp: 0, r11: 0 };
    assert_eq!(ctx.architecture(), Architecture::Arm);
}

#[test]
fn resolution_follows_pointer_width() {
    assert_eq!(resolution_strategy(&Architecture::X86_64), ResolutionStrategy::RuntimeFunctionTable);
    assert_eq!(resolution_strategy(&Architecture::Arm64), ResolutionStrategy::RuntimeFunctionTable);
    assert_eq!(resolution_strategy(&Architecture::X86), ResolutionStrategy::SymbolEngine);
    assert_eq!(resolution_strategy(&Architecture::Arm), ResolutionStrategy::SymbolEngine);
    assert_eq!(Architecture::X86.pointer_width(), 32);
    assert_eq!(Architecture::Arm64.pointer_width(), 64);
}

fn call_site(ebp: u32) -> X86CallSite {
    X86CallSite {
        eax: 0xa,
        ebx: 0xb,
        ecx: 0xc,
        edx: 0xd,
        esi: 0x51,
        edi: 0xd1,
        seg_cs: 0x23,
        seg_ds: 0x2b,
        seg_es: 0x2b,
        seg_fs: 0x53,
        seg_gs: 0x2b,
        seg_ss: 0x2b,
        eflags: 0x246,
        ebp,
        saved_ebp: 0x0012_ffc0,
        return_address: 0x0040_1234,
    }
}

#[test]
fn fallback_capture_reads_the_frame_linkage() {
    let c = capture_x86_context(&call_site(0x0012_ff80));
    assert_eq!(c.eip, 0x0040_1234);
    assert_eq!(c.ebp, 0x0012_ffc0);
    assert_eq!(c.esp, 0x0012_ff88);
    assert_eq!(c.context_flags, 0x10007);
    assert_eq!(c.eax, 0xa);
    assert_eq!(c.ebx, 0xb);
    assert_eq!(c.ecx, 0xc);
    assert_eq!(c.edx, 0xd);
    assert_eq!(c.esi, 0x51);
    assert_eq!(c.edi, 0xd1);
    assert_eq!(c.seg_cs, 0x23);
    assert_eq!(c.seg_fs, 0x53);
    assert_eq!(c.seg_ss, 0x2b);
    assert_eq!(c.eflags, 0x246);
}

#[test]
fn fallback_capture_stack_pointer_wraps() {
    let c = capture_x86_context(&call_site(0xffff_fffc));
    assert_eq!(c.esp, 4);
}

#[test]
fn fallback_capture_feeds_the_initializer() {
    let c = capture_x86_context(&call_site(0x0012_ff80));
    let mut f = Frame::zeroed(FrameKind::Legacy);
    init_frame(&mut f, &RegisterContext::X86(c));
    assert_initialized(&f, 0x0040_1234, 0x0012_ff88, 0x0012_ffc0);
}
