use vstd::prelude::*;

verus! {

/// How the offset of an address is to be read.
#[derive(Clone, Copy, Debug, PartialEq, Eq, Structural)]
pub enum AddrMode {
    /// 16-bit segment, 16-bit offset.
    Mode1616,
    /// 16-bit segment, 32-bit offset.
    Mode1632,
    /// Real-mode segment and offset.
    Real,
    /// Linear address space, no segment translation.
    Flat,
}

/// One address of a frame record: an offset, a segment and the mode that
/// says how the two combine.
#[derive(Clone, Copy, Debug, PartialEq, Eq, Structural)]
pub struct Address64 {
    pub offset: u64,
    pub segment: u16,
    pub mode: AddrMode,
}

impl Address64 {
    /// The all-zero address that a zero-initialized record holds.
    pub open spec fn zero_spec() -> Address64 {
        Address64 { offset: 0, segment: 0, mode: AddrMode::Mode1616 }
    }

    pub fn zero() -> (r: Address64)
        ensures
            r == Address64::zero_spec(),
    {
        Address64 { offset: 0, segment: 0, mode: AddrMode::Mode1616 }
    }

    /// The same address read as a linear one at `offset`.
    pub open spec fn flat_at(self, offset: u64) -> Address64 {
        Address64 { offset, segment: self.segment, mode: AddrMode::Flat }
    }
}

/// Which of the two record shapes a walk uses.
#[derive(Clone, Copy, Debug, PartialEq, Eq, Structural)]
pub enum FrameKind {
    /// The richer shape, which also tracks inline frames.
    Extended,
    /// The older shape, understood by every version of the engine.
    Legacy,
}

/// The extended walk-state record.
#[derive(Clone, Copy, Debug, PartialEq, Eq, Structural)]
pub struct StackFrameEx {
    pub addr_pc: Address64,
    pub addr_return: Address64,
    pub addr_frame: Address64,
    pub addr_stack: Address64,
    pub addr_bstore: Address64,
    pub func_table_entry: u64,
    pub far: bool,
    pub virtual_frame: bool,
    pub stack_frame_size: u32,
    pub inline_frame_context: u32,
}

/// The legacy walk-state record.
#[derive(Clone, Copy, Debug, PartialEq, Eq, Structural)]
pub struct StackFrame64 {
    pub addr_pc: Address64,
    pub addr_return: Address64,
    pub addr_frame: Address64,
    pub addr_stack: Address64,
    pub addr_bstore: Address64,
    pub func_table_entry: u64,
    pub far: bool,
    pub virtual_frame: bool,
}

/// A frame record in one of the two shapes. Its program-counter,
/// stack-pointer and frame-pointer addresses are read and written the same
/// way whatever the shape.
#[derive(Clone, Copy, Debug, PartialEq, Eq, Structural)]
pub enum Frame {
    New(StackFrameEx),
    Old(StackFrame64),
}

impl Frame {
    pub open spec fn kind_spec(self) -> FrameKind {
        match self {
            Frame::New(_) => FrameKind::Extended,
            Frame::Old(_) => FrameKind::Legacy,
        }
    }

    pub open spec fn pc(self) -> Address64 {
        match self {
            Frame::New(f) => f.addr_pc,
            Frame::Old(f) => f.addr_pc,
        }
    }

    pub open spec fn stack(self) -> Address64 {
        match self {
            Frame::New(f) => f.addr_stack,
            Frame::Old(f) => f.addr_stack,
        }
    }

    pub open spec fn frame_ptr(self) -> Address64 {
        match self {
            Frame::New(f) => f.addr_frame,
            Frame::Old(f) => f.addr_frame,
        }
    }

    /// This record with its program-counter address replaced.
    pub open spec fn with_pc(self, a: Address64) -> Frame {
        match self {
            Frame::New(f) => Frame::New(StackFrameEx { addr_pc: a, ..f }),
            Frame::Old(f) => Frame::Old(StackFrame64 { addr_pc: a, ..f }),
        }
    }

    /// This record with its stack-pointer address replaced.
    pub open spec fn with_stack(self, a: Address64) -> Frame {
        match self {
            Frame::New(f) => Frame::New(StackFrameEx { addr_stack: a, ..f }),
            Frame::Old(f) => Frame::Old(StackFrame64 { addr_stack: a, ..f }),
        }
    }

    /// This record with its frame-pointer address replaced.
    pub open spec fn with_frame_ptr(self, a: Address64) -> Frame {
        match self {
            Frame::New(f) => Frame::New(StackFrameEx { addr_frame: a, ..f }),
            Frame::Old(f) => Frame::Old(StackFrame64 { addr_frame: a, ..f }),
        }
    }

    /// All three addresses are linear ones.
    pub open spec fn is_flat(self) -> bool {
        &&& self.pc().mode == AddrMode::Flat
        &&& self.stack().mode == AddrMode::Flat
        &&& self.frame_ptr().mode == AddrMode::Flat
    }

    /// The zero-initialized record of the given shape.
    pub open spec fn zeroed_spec(kind: FrameKind) -> Frame {
        let z = Address64::zero_spec();
        match kind {
            FrameKind::Extended => Frame::New(StackFrameEx {
                addr_pc: z,
                addr_return: z,
                addr_frame: z,
                addr_stack: z,
                addr_bstore: z,
                func_table_entry: 0,
                far: false,
                virtual_frame: false,
                stack_frame_size: 0,
                inline_frame_context: 0,
            }),
            FrameKind::Legacy => Frame::Old(StackFrame64 {
                addr_pc: z,
                addr_return: z,
                addr_frame: z,
                addr_stack: z,
                addr_bstore: z,
                func_table_entry: 0,
                far: false,
                virtual_frame: false,
            }),
        }
    }

    /// A zero-initialized record of the given shape, as a walk starts from.
    pub fn zeroed(kind: FrameKind) -> (r: Frame)
        ensures
            r == Frame::zeroed_spec(kind),
    {
        match kind {
            FrameKind::Extended => Frame::New(StackFrameEx {
                addr_pc: Address64::zero(),
                addr_return: Address64::zero(),
                addr_frame: Address64::zero(),
                addr_stack: Address64::zero(),
                addr_bstore: Address64::zero(),
                func_table_entry: 0,
                far: false,
                virtual_frame: false,
                stack_frame_size: 0,
                inline_frame_context: 0,
            }),
            FrameKind::Legacy => Frame::Old(StackFrame64 {
                addr_pc: Address64::zero(),
                addr_return: Address64::zero(),
                addr_frame: Address64::zero(),
                addr_stack: Address64::zero(),
                addr_bstore: Address64::zero(),
                func_table_entry: 0,
                far: false,
                virtual_frame: false,
            }),
        }
    }

    /// The shape of this record.
    pub fn kind(&self) -> (r: FrameKind)
        ensures
            r == self.kind_spec(),
    {
        match self {
            Frame::New(_) => FrameKind::Extended,
            Frame::Old(_) => FrameKind::Legacy,
        }
    }

    /// The instruction pointer of this frame.
    pub fn ip(&self) -> (r: u64)
        ensures
            r == self.pc().offset,
    {
        self.addr_pc().offset
    }

    /// The stack pointer of this frame.
    pub fn sp(&self) -> (r: u64)
        ensures
            r == self.stack().offset,
    {
        self.addr_stack().offset
    }

    /// The address taken as this frame's symbol address: its instruction
    /// pointer.
    pub fn symbol_address(&self) -> (r: u64)
        ensures
            r == self.pc().offset,
    {
        self.ip()
    }

    pub fn addr_pc(&self) -> (r: &Address64)
        ensures
            *r == self.pc(),
    {
        match self {
            Frame::New(new) => &new.addr_pc,
            Frame::Old(old) => &old.addr_pc,
        }
    }

    pub fn addr_pc_mut(&mut self) -> (r: &mut Address64)
        ensures
            *r == old(self).pc(),
            *final(self) == old(self).with_pc(*final(r)),
    {
        match self {
            Frame::New(new) => &mut new.addr_pc,
            Frame::Old(old) => &mut old.addr_pc,
        }
    }

    pub fn addr_frame(&self) -> (r: &Address64)
        ensures
            *r == self.frame_ptr(),
    {
        match self {
            Frame::New(new) => &new.addr_frame,
            Frame::Old(old) => &old.addr_frame,
        }
    }

    pub fn addr_frame_mut(&mut self) -> (r: &mut Address64)
        ensures
            *r == old(self).frame_ptr(),
            *final(self) == old(self).with_frame_ptr(*final(r)),
    {
        match self {
            Frame::New(new) => &mut new.addr_frame,
            Frame::Old(old) => &mut old.addr_frame,
        }
    }

    pub fn addr_stack(&self) -> (r: &Address64)
        ensures
            *r == self.stack(),
    {
        match self {
            Frame::New(new) => &new.addr_stack,
            Frame::Old(old) => &old.addr_stack,
        }
    }

    pub fn addr_stack_mut(&mut self) -> (r: &mut Address64)
        ensures
            *r == old(self).stack(),
            *final(self) == old(self).with_stack(*final(r)),
    {
        match self {
            Frame::New(new) => &mut new.addr_stack,
            Frame::Old(old) => &mut old.addr_stack,
        }
    }
}

} // verus!
