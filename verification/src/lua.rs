//! Which Lua VM runs the filter and event callback scripts.

use vstd::prelude::*;

verus! {

/// The libraries a Lua VM offers its scripts.
#[derive(Clone, Copy, Debug, PartialEq, Eq, Structural)]
pub enum LuaVmMode {
    /// Every library, C modules included, with no sandbox.
    Unsafe,
    /// Every safe standard library, the OS and I/O libraries included.
    AllLibraries,
    /// The safe standard libraries without the OS and I/O libraries.
    Sandboxed,
}

/// The VM of the callback scripts: unsafe when allowed, else with the OS
/// and I/O libraries when allowed, else sandboxed.
pub fn lua_vm_mode(allow_lua_os_library: bool, allow_lua_unsafe_vm: bool) -> (r: LuaVmMode)
    ensures
        r == if allow_lua_unsafe_vm {
            LuaVmMode::Unsafe
        } else if allow_lua_os_library {
            LuaVmMode::AllLibraries
        } else {
            LuaVmMode::Sandboxed
        },
{
    if allow_lua_unsafe_vm {
        LuaVmMode::Unsafe
    } else if allow_lua_os_library {
        LuaVmMode::AllLibraries
    } else {
        LuaVmMode::Sandboxed
    }
}

} // verus!
