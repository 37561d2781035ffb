//! Names and numeric codes of the foreign Lua runtime's low-level interface.
//!
//! The runtime reports the outcome of loading and of protected calls as a
//! plain integer status; these constants give those statuses their names.

use vstd::prelude::*;

verus! {

/// The integer type the foreign runtime uses for statuses and stack indices.
pub type LuaInt = i32;

/// Pseudo-index through which the runtime's table of global variables is
/// addressed when fetching the `string` library at construction time.
pub const LUA_GLOBALSINDEX: LuaInt = -10002;

/// Status: a runtime error was raised inside a protected call.
pub const LUA_ERRRUN: LuaInt = 2;

/// Status: the source text failed to parse.
pub const LUA_ERRSYNTAX: LuaInt = 3;

/// Status: the runtime could not allocate memory.
pub const LUA_ERRMEM: LuaInt = 4;

/// Status: the error handler of a protected call itself failed.
pub const LUA_ERRERR: LuaInt = 5;

/// Status: a file could not be opened or read.
pub const LUA_ERRFILE: LuaInt = 6;

} // verus!
