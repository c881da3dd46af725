//! The machine's built-in libraries: their names, and the order in which the
//! standard set is opened.

use vstd::prelude::*;

use crate::sys::{
    LUA_BITLIBNAME, LUA_BUFFERLIBNAME, LUA_COLIBNAME, LUA_DBLIBNAME, LUA_MATHLIBNAME,
    LUA_OSLIBNAME, LUA_STRLIBNAME, LUA_TABLIBNAME, LUA_UTF8LIBNAME, LUA_VECLIBNAME,
};

verus! {

/// One of the machine's built-in libraries. A built-in library is opened by
/// the machine itself; the host cannot build it as a table.
#[derive(Clone, Copy, Debug, PartialEq, Eq, Structural)]
pub enum StdLib {
    Base,
    Coroutine,
    Table,
    Os,
    String,
    Bit,
    Buffer,
    Utf8,
    Math,
    Debug,
    Vector,
}

impl StdLib {
    /// The global name under which the library is opened. The base library
    /// has none: its functions are globals themselves.
    pub open spec fn spec_name(self) -> Option<&'static str> {
        match self {
            StdLib::Base => None,
            StdLib::Coroutine => Some(LUA_COLIBNAME),
            StdLib::Table => Some(LUA_TABLIBNAME),
            StdLib::Os => Some(LUA_OSLIBNAME),
            StdLib::String => Some(LUA_STRLIBNAME),
            StdLib::Bit => Some(LUA_BITLIBNAME),
            StdLib::Buffer => Some(LUA_BUFFERLIBNAME),
            StdLib::Utf8 => Some(LUA_UTF8LIBNAME),
            StdLib::Math => Some(LUA_MATHLIBNAME),
            StdLib::Debug => Some(LUA_DBLIBNAME),
            StdLib::Vector => Some(LUA_VECLIBNAME),
        }
    }

    /// The global name under which the library is opened, if it has one.
    pub fn name(self) -> (name: Option<&'static str>)
        ensures
            name == self.spec_name(),
    {
        match self {
            StdLib::Base => None,
            StdLib::Coroutine => Some(LUA_COLIBNAME),
            StdLib::Table => Some(LUA_TABLIBNAME),
            StdLib::Os => Some(LUA_OSLIBNAME),
            StdLib::String => Some(LUA_STRLIBNAME),
            StdLib::Bit => Some(LUA_BITLIBNAME),
            StdLib::Buffer => Some(LUA_BUFFERLIBNAME),
            StdLib::Utf8 => Some(LUA_UTF8LIBNAME),
            StdLib::Math => Some(LUA_MATHLIBNAME),
            StdLib::Debug => Some(LUA_DBLIBNAME),
            StdLib::Vector => Some(LUA_VECLIBNAME),
        }
    }
}

/// The base library.
pub struct Base;

impl Base {
    /// The library that opening the base library opens.
    pub fn open() -> (lib: StdLib)
        ensures
            lib == StdLib::Base,
    {
        StdLib::Base
    }
}

/// The standard set of built-in libraries.
pub struct StdLibrary;

impl StdLibrary {
    /// The libraries of the standard set, in the order in which they are
    /// opened. The debug library is not among them. The buffer library is
    /// opened once more at the end, which changes nothing.
    pub open spec fn spec_open() -> Seq<StdLib> {
        seq![
            StdLib::Base,
            StdLib::Coroutine,
            StdLib::Table,
            StdLib::Os,
            StdLib::String,
            StdLib::Bit,
            StdLib::Buffer,
            StdLib::Utf8,
            StdLib::Math,
            StdLib::Vector,
            StdLib::Buffer,
        ]
    }

    /// The libraries to open for the standard set, in order.
    pub fn open() -> (libs: Vec<StdLib>)
        ensures
            libs@ == Self::spec_open(),
    {
        let mut libs: Vec<StdLib> = Vec::new();
        libs.push(StdLib::Base);
        libs.push(StdLib::Coroutine);
        libs.push(StdLib::Table);
        libs.push(StdLib::Os);
        libs.push(StdLib::String);
        libs.push(StdLib::Bit);
        libs.push(StdLib::Buffer);
        libs.push(StdLib::Utf8);
        libs.push(StdLib::Math);
        libs.push(StdLib::Vector);
        libs.push(StdLib::Buffer);
        assert(libs@ =~= Self::spec_open());
        libs
    }
}

} // verus!
