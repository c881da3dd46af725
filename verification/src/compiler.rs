//! The options of the script compiler, and the framing of what it returns.

use vstd::prelude::*;
use vstd::slice::slice_subrange;

verus! {

/// How hard the compiler optimizes.
#[derive(Clone, Copy, Debug, PartialEq, Eq, Structural)]
pub enum OptimizationLevel {
    /// No optimization.
    Off,
    /// Only what leaves debugging untouched.
    Basic,
    /// Everything, also what may get in the way of debugging.
    Full,
}

impl Default for OptimizationLevel {
    fn default() -> (level: Self)
        ensures
            level == OptimizationLevel::Full,
    {
        OptimizationLevel::Full
    }
}

impl OptimizationLevel {
    /// The number the compiler takes for this level.
    pub open spec fn spec_level(self) -> i32 {
        match self {
            OptimizationLevel::Off => 0,
            OptimizationLevel::Basic => 1,
            OptimizationLevel::Full => 2,
        }
    }
}

impl From<OptimizationLevel> for i32 {
    fn from(level: OptimizationLevel) -> (number: i32) {
        match level {
            OptimizationLevel::Off => 0,
            OptimizationLevel::Basic => 1,
            OptimizationLevel::Full => 2,
        }
    }
}

impl vstd::std_specs::convert::FromSpecImpl<OptimizationLevel> for i32 {
    open spec fn obeys_from_spec() -> bool {
        true
    }

    open spec fn from_spec(level: OptimizationLevel) -> i32 {
        level.spec_level()
    }
}

/// How much debug information the compiler writes.
#[derive(Clone, Copy, Debug, PartialEq, Eq, Structural)]
pub enum DebugInfoLevel {
    /// None.
    Off,
    /// Lines and function names: enough for a traceback.
    Basic,
    /// Everything, the names of variables included.
    Full,
}

impl Default for DebugInfoLevel {
    fn default() -> (level: Self)
        ensures
            level == DebugInfoLevel::Basic,
    {
        DebugInfoLevel::Basic
    }
}

impl DebugInfoLevel {
    /// The number the compiler takes for this level.
    pub open spec fn spec_level(self) -> i32 {
        match self {
            DebugInfoLevel::Off => 0,
            DebugInfoLevel::Basic => 1,
            DebugInfoLevel::Full => 2,
        }
    }
}

impl From<DebugInfoLevel> for i32 {
    fn from(level: DebugInfoLevel) -> (number: i32) {
        match level {
            DebugInfoLevel::Off => 0,
            DebugInfoLevel::Basic => 1,
            DebugInfoLevel::Full => 2,
        }
    }
}

impl vstd::std_specs::convert::FromSpecImpl<DebugInfoLevel> for i32 {
    open spec fn obeys_from_spec() -> bool {
        true
    }

    open spec fn from_spec(level: DebugInfoLevel) -> i32 {
        level.spec_level()
    }
}

/// The numbers that one compilation is run with. Whatever else the compiler
/// can be told is left unset.
#[derive(Clone, Copy, Debug, PartialEq, Eq, Structural)]
pub struct CompileOptions {
    pub optimization_level: i32,
    pub debug_level: i32,
    pub type_info_level: i32,
    pub coverage_level: i32,
}

/// What is handed to the compiler: the source text and the options.
pub struct CompileRequest<'a> {
    pub source: &'a [u8],
    pub options: CompileOptions,
}

/// A compiler of script source. By default it optimizes fully and writes
/// enough debug information for tracebacks.
pub struct Compiler {
    pub optimization_level: OptimizationLevel,
    pub debug_level: DebugInfoLevel,
}

impl Default for Compiler {
    fn default() -> (compiler: Self)
        ensures
            compiler.optimization_level == OptimizationLevel::Full,
            compiler.debug_level == DebugInfoLevel::Basic,
    {
        Compiler { optimization_level: OptimizationLevel::Full, debug_level: DebugInfoLevel::Basic }
    }
}

impl Compiler {
    /// The options that this compiler runs a compilation with.
    pub open spec fn spec_options(self) -> CompileOptions {
        CompileOptions {
            optimization_level: self.optimization_level.spec_level(),
            debug_level: self.debug_level.spec_level(),
            type_info_level: 0,
            coverage_level: 0,
        }
    }

    /// The same compiler with another optimization level.
    pub fn with_optimization_level(self, level: OptimizationLevel) -> (compiler: Self)
        ensures
            compiler.optimization_level == level,
            compiler.debug_level == self.debug_level,
    {
        let mut compiler = self;
        compiler.optimization_level = level;
        compiler
    }

    /// The same compiler with another debug level.
    pub fn with_debug_level(self, level: DebugInfoLevel) -> (compiler: Self)
        ensures
            compiler.debug_level == level,
            compiler.optimization_level == self.optimization_level,
    {
        let mut compiler = self;
        compiler.debug_level = level;
        compiler
    }

    /// The options that this compiler runs a compilation with.
    pub fn options(&self) -> (options: CompileOptions)
        ensures
            options == self.spec_options(),
    {
        CompileOptions {
            optimization_level: i32::from(self.optimization_level),
            debug_level: i32::from(self.debug_level),
            type_info_level: 0,
            coverage_level: 0,
        }
    }

    /// What the compiler is to be run on to compile `source`: the source as
    /// it is, and this compiler's options.
    pub fn compile<'a>(&self, source: &'a [u8]) -> (request: CompileRequest<'a>)
        ensures
            request.source@ == source@,
            request.options == self.spec_options(),
    {
        CompileRequest { source, options: self.options() }
    }
}

/// What a compilation returned: compiled code, or a message in its place.
pub struct CompileResult {
    pub bytes: Vec<u8>,
}

impl CompileResult {
    /// Frames the bytes that the compiler returned.
    pub fn new(bytes: Vec<u8>) -> (result: Self)
        ensures
            result.bytes@ == bytes@,
    {
        CompileResult { bytes }
    }

    /// The returned bytes as a chunk.
    pub fn bytecode(&self) -> (bytecode: Bytecode<'_>)
        ensures
            bytecode@ == self.bytes@,
    {
        Bytecode(self.bytes.as_slice())
    }
}

/// A compiled chunk. Its first byte tells what it is: zero marks a failed
/// compilation, and the bytes after it are then the message; any other first
/// byte marks loadable code.
pub struct Bytecode<'a>(pub &'a [u8]);

impl<'a> View for Bytecode<'a> {
    type V = Seq<u8>;

    open spec fn view(&self) -> Seq<u8> {
        self.0@
    }
}

impl<'a> Bytecode<'a> {
    /// The bytes of the chunk.
    pub fn bytes(&self) -> (bytes: &'a [u8])
        ensures
            bytes@ == self@,
    {
        self.0
    }

    /// The number of bytes of the chunk.
    pub fn len(&self) -> (len: usize)
        ensures
            len == self@.len(),
    {
        self.0.len()
    }

    /// Whether the chunk holds no byte at all. The compiler returns no such
    /// chunk.
    pub fn is_empty(&self) -> (empty: bool)
        ensures
            empty == (self@.len() == 0),
    {
        self.0.len() == 0
    }

    /// Whether the compilation succeeded; if it failed, the message.
    pub fn result(&self) -> (result: Result<(), &'a [u8]>)
        requires
            self@.len() > 0,
        ensures
            self@[0] != 0 <==> result is Ok,
            result matches Err(message) ==> message@ == self@.skip(1),
    {
        if self.0[0] == 0 {
            let message = slice_subrange(self.0, 1, self.0.len());
            assert(message@ =~= self@.skip(1));
            Err(message)
        } else {
            Ok(())
        }
    }
}

} // verus!
