//! Walking the calling thread's stack through the register-based walking
//! primitives of a symbol engine: the frame records those primitives fill,
//! the mapping from a captured register context to the first record, and the
//! decisions of the walk driver, stated as a state machine.

pub mod context;
pub mod frame;
pub mod walk;

pub use context::{
    capture_x86_context, init_frame, Architecture, RegisterContext, X86CallSite, X86Context,
    CONTEXT_FULL_X86, IMAGE_FILE_MACHINE_AMD64, IMAGE_FILE_MACHINE_ARM64,
    IMAGE_FILE_MACHINE_ARMNT, IMAGE_FILE_MACHINE_I386,
};
pub use frame::{AddrMode, Address64, Frame, FrameKind, StackFrame64, StackFrameEx};
pub use walk::{resolution_strategy, ResolutionStrategy, WalkAction, WalkEvent, WalkState};
