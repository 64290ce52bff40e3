use vstd::prelude::*;
use crate::frame::{AddrMode, Frame};

verus! {

/// Machine type code of 32-bit x86.
pub const IMAGE_FILE_MACHINE_I386: u16 = 0x014c;
/// Machine type code of 64-bit x86.
pub const IMAGE_FILE_MACHINE_AMD64: u16 = 0x8664;
/// Machine type code of 32-bit ARM (Thumb-2).
pub const IMAGE_FILE_MACHINE_ARMNT: u16 = 0x01c4;
/// Machine type code of 64-bit ARM.
pub const IMAGE_FILE_MACHINE_ARM64: u16 = 0xaa64;

/// The context-flags value that marks a full register snapshot on 32-bit x86.
pub const CONTEXT_FULL_X86: u32 = 0x10007;

/// The processor family a register context was taken on.
#[derive(Clone, Copy, Debug, PartialEq, Eq, Structural)]
pub enum Architecture {
    X86,
    X86_64,
    Arm,
    Arm64,
}

impl Architecture {
    pub open spec fn machine_type_spec(self) -> u16 {
        match self {
            Architecture::X86 => IMAGE_FILE_MACHINE_I386,
            Architecture::X86_64 => IMAGE_FILE_MACHINE_AMD64,
            Architecture::Arm => IMAGE_FILE_MACHINE_ARMNT,
            Architecture::Arm64 => IMAGE_FILE_MACHINE_ARM64,
        }
    }

    /// The machine type code that tells the walking primitive how to read
    /// addresses.
    pub fn machine_type(&self) -> (r: u16)
        ensures
            r == self.machine_type_spec(),
    {
        match self {
            Architecture::X86 => IMAGE_FILE_MACHINE_I386,
            Architecture::X86_64 => IMAGE_FILE_MACHINE_AMD64,
            Architecture::Arm => IMAGE_FILE_MACHINE_ARMNT,
            Architecture::Arm64 => IMAGE_FILE_MACHINE_ARM64,
        }
    }

    pub open spec fn pointer_width_spec(self) -> u32 {
        match self {
            Architecture::X86 | Architecture::Arm => 32,
            Architecture::X86_64 | Architecture::Arm64 => 64,
        }
    }

    /// The width of a pointer in bits.
    pub fn pointer_width(&self) -> (r: u32)
        ensures
            r == self.pointer_width_spec(),
    {
        match self {
            Architecture::X86 | Architecture::Arm => 32,
            Architecture::X86_64 | Architecture::Arm64 => 64,
        }
    }
}

/// The register snapshot of 32-bit x86, in the order the native record
/// lays it out.
#[derive(Clone, Copy, Debug, PartialEq, Eq, Structural)]
pub struct X86Context {
    pub context_flags: u32,
    pub seg_gs: u32,
    pub seg_fs: u32,
    pub seg_es: u32,
    pub seg_ds: u32,
    pub edi: u32,
    pub esi: u32,
    pub ebx: u32,
    pub edx: u32,
    pub ecx: u32,
    pub eax: u32,
    pub ebp: u32,
    pub eip: u32,
    pub seg_cs: u32,
    pub eflags: u32,
    pub esp: u32,
    pub seg_ss: u32,
}

/// A captured register context: what the walk reads of the calling thread's
/// registers, per architecture.
#[derive(Clone, Copy, Debug, PartialEq, Eq, Structural)]
pub enum RegisterContext {
    X86(X86Context),
    X86_64 { rip: u64, rsp: u64, rbp: u64 },
    Arm { pc: u32, sp: u32, r11: u32 },
    Arm64 { pc: u64, sp: u64, fp: u64 },
}

impl RegisterContext {
    pub open spec fn arch(self) -> Architecture {
        match self {
            RegisterContext::X86(_) => Architecture::X86,
            RegisterContext::X86_64 { .. } => Architecture::X86_64,
            RegisterContext::Arm { .. } => Architecture::Arm,
            RegisterContext::Arm64 { .. } => Architecture::Arm64,
        }
    }

    /// The program counter, widened to 64 bits.
    pub open spec fn pc(self) -> u64 {
        match self {
            RegisterContext::X86(c) => c.eip as u64,
            RegisterContext::X86_64 { rip, .. } => rip,
            RegisterContext::Arm { pc, .. } => pc as u64,
            RegisterContext::Arm64 { pc, .. } => pc,
        }
    }

    /// The stack pointer, widened to 64 bits.
    pub open spec fn sp(self) -> u64 {
        match self {
            RegisterContext::X86(c) => c.esp as u64,
            RegisterContext::X86_64 { rsp, .. } => rsp,
            RegisterContext::Arm { sp, .. } => sp as u64,
            RegisterContext::Arm64 { sp, .. } => sp,
        }
    }

    /// The frame-chain register (EBP, RBP, R11 or FP), widened to 64 bits.
    pub open spec fn fp(self) -> u64 {
        match self {
            RegisterContext::X86(c) => c.ebp as u64,
            RegisterContext::X86_64 { rbp, .. } => rbp,
            RegisterContext::Arm { r11, .. } => r11 as u64,
            RegisterContext::Arm64 { fp, .. } => fp,
        }
    }

    /// The architecture this context belongs to.
    pub fn architecture(&self) -> (r: Architecture)
        ensures
            r == self.arch(),
    {
        match self {
            RegisterContext::X86(_) => Architecture::X86,
            RegisterContext::X86_64 { .. } => Architecture::X86_64,
            RegisterContext::Arm { .. } => Architecture::Arm,
            RegisterContext::Arm64 { .. } => Architecture::Arm64,
        }
    }
}

/// The record `frame` becomes once `ctx` is written into it: its three
/// addresses hold the context's program counter, stack pointer and frame
/// pointer, read as linear addresses; nothing else changes.
pub open spec fn initialized(frame: Frame, ctx: RegisterContext) -> Frame {
    frame.with_pc(frame.pc().flat_at(ctx.pc()))
        .with_stack(frame.stack().flat_at(ctx.sp()))
        .with_frame_ptr(frame.frame_ptr().flat_at(ctx.fp()))
}

/// Writes the program counter, stack pointer and frame pointer of `ctx` into
/// `frame` as linear addresses and returns the machine type code of the
/// context's architecture. The record keeps its shape.
pub fn init_frame(frame: &mut Frame, ctx: &RegisterContext) -> (r: u16)
    ensures
        *final(frame) == initialized(*old(frame), *ctx),
        final(frame).kind_spec() == old(frame).kind_spec(),
        final(frame).is_flat(),
        r == ctx.arch().machine_type_spec(),
{
    let (pc, sp, fp): (u64, u64, u64) = match ctx {
        RegisterContext::X86(c) => (c.eip as u64, c.esp as u64, c.ebp as u64),
        RegisterContext::X86_64 { rip, rsp, rbp } => (*rip, *rsp, *rbp),
        RegisterContext::Arm { pc, sp, r11 } => (*pc as u64, *sp as u64, *r11 as u64),
        RegisterContext::Arm64 { pc, sp, fp } => (*pc, *sp, *fp),
    };
    let a = frame.addr_pc_mut();
    a.offset = pc;
    a.mode = AddrMode::Flat;
    let a = frame.addr_stack_mut();
    a.offset = sp;
    a.mode = AddrMode::Flat;
    let a = frame.addr_frame_mut();
    a.offset = fp;
    a.mode = AddrMode::Flat;
    ctx.architecture().machine_type()
}

/// Right after initialization, before any walk step, a record reports the
/// context's program counter as its instruction pointer, the context's stack
/// pointer as its stack pointer, and holds the context's frame pointer, in
/// either shape.
pub proof fn lemma_initialized_exposes_registers(frame: Frame, ctx: RegisterContext)
    ensures
        initialized(frame, ctx).pc().offset == ctx.pc(),
        initialized(frame, ctx).stack().offset == ctx.sp(),
        initialized(frame, ctx).frame_ptr().offset == ctx.fp(),
        initialized(frame, ctx).is_flat(),
        initialized(frame, ctx).kind_spec() == frame.kind_spec(),
{
}

/// What the fallback capture routine of 32-bit x86 finds where it is called:
/// the general registers, segment selectors and flags as they stand, the
/// frame pointer of the routine that called it, and the two words that
/// frame begins with.
#[derive(Clone, Copy, Debug, PartialEq, Eq, Structural)]
pub struct X86CallSite {
    pub eax: u32,
    pub ebx: u32,
    pub ecx: u32,
    pub edx: u32,
    pub esi: u32,
    pub edi: u32,
    pub seg_cs: u16,
    pub seg_ds: u16,
    pub seg_es: u16,
    pub seg_fs: u16,
    pub seg_gs: u16,
    pub seg_ss: u16,
    pub eflags: u32,
    /// The calling routine's frame pointer.
    pub ebp: u32,
    /// The word at `ebp`: the frame pointer of the calling routine's caller.
    pub saved_ebp: u32,
    /// The word at `ebp + 4`: where the calling routine returns to.
    pub return_address: u32,
}

/// The snapshot the fallback routine writes: the registers as they stand,
/// each selector zero-extended into its 32-bit slot, and for the frame
/// pointer, program counter and stack pointer the values the calling
/// routine's caller will see once the call returns, read off the frame
/// linkage.
pub open spec fn captured_x86(site: X86CallSite) -> X86Context {
    X86Context {
        context_flags: CONTEXT_FULL_X86,
        seg_gs: site.seg_gs as u32,
        seg_fs: site.seg_fs as u32,
        seg_es: site.seg_es as u32,
        seg_ds: site.seg_ds as u32,
        edi: site.edi,
        esi: site.esi,
        ebx: site.ebx,
        edx: site.edx,
        ecx: site.ecx,
        eax: site.eax,
        ebp: site.saved_ebp,
        eip: site.return_address,
        seg_cs: site.seg_cs as u32,
        eflags: site.eflags,
        esp: ((site.ebp as int + 8) % 0x1_0000_0000) as u32,
        seg_ss: site.seg_ss as u32,
    }
}

/// Lays out the register snapshot of 32-bit x86 from what is found at a call
/// site, where the engine offers no capture primitive of its own.
pub fn capture_x86_context(site: &X86CallSite) -> (r: X86Context)
    ensures
        r == captured_x86(*site),
        r.eip == site.return_address,
        r.ebp == site.saved_ebp,
        r.esp as int == (site.ebp as int + 8) % 0x1_0000_0000,
        r.context_flags == CONTEXT_FULL_X86,
{
    X86Context {
        context_flags: CONTEXT_FULL_X86,
        seg_gs: site.seg_gs as u32,
        seg_fs: site.seg_fs as u32,
        seg_es: site.seg_es as u32,
        seg_ds: site.seg_ds as u32,
        edi: site.edi,
        esi: site.esi,
        ebx: site.ebx,
        edx: site.edx,
        ecx: site.ecx,
        eax: site.eax,
        ebp: site.saved_ebp,
        eip: site.return_address,
        seg_cs: site.seg_cs as u32,
        eflags: site.eflags,
        esp: site.ebp.wrapping_add(8),
        seg_ss: site.seg_ss as u32,
    }
}

} // verus!
