//! The verified core of a host layer over a stack-based scripting machine.
//!
//! The machine itself is driven by the caller. This crate holds what the host
//! side decides and computes: the meaning of the machine's codes, the
//! instruction sequences that build libraries and host object types, the
//! checks on arguments of native calls, and the bookkeeping of tags,
//! references and execution contexts.

use vstd::prelude::*;

pub mod allocator;
pub mod compiler;
pub mod context;
pub mod extra;
pub mod frame;
pub mod laws;
pub mod library;
pub mod ops;
pub mod sys;
pub mod stack;
pub mod state;
pub mod stdlibs;
pub mod thread;
pub mod userdata;

pub use allocator::{alloc_fn, AllocRequest, LuauAllocator};
pub use compiler::{Bytecode, CompileOptions, CompileRequest, CompileResult, Compiler, DebugInfoLevel, OptimizationLevel};
pub use context::{ArgError, Context, FnReturn};
pub use extra::{Entry, Function, Ref, Release, Status, Type};
pub use library::{Library, LibraryConstant, LibraryItem};
pub use ops::{Instr, StackOp};
pub use stack::{Stack, TableIter};
pub use state::{State, Teardown};
pub use stdlibs::{Base, StdLib, StdLibrary};
pub use thread::{userthread, HookCall, Resume, Thread, ThreadEvent, ThreadMain, ThreadRef};
pub use userdata::{unique_tag, Methods, TagCounter, TagRegistry, Userdata};

verus! {

/// The policy of one machine instance: its allocator, the data shared by the
/// whole instance, the data attached to each secondary context and how that
/// data is made, and the types of the entry points of native functions.
///
/// Every handle is generic over one `Config`, so handles of differently
/// configured instances are different types.
pub trait Config: Sized {
    /// Provides the machine's memory.
    type Allocator: LuauAllocator;

    /// The data of the instance, attached to its root context.
    type MainData;

    /// The data attached to each secondary context.
    type ThreadData;

    /// The entry point of a native function.
    type Function: Copy;

    /// The entry point that runs when a suspended native function is resumed.
    type Continuation: Copy;

    /// Makes the data of the new context `thread`, created from `parent`.
    fn thread_data(parent: &Thread<Self>, thread: &Thread<Self>) -> Self::ThreadData;
}

} // verus!
