//! The Lua interpreter that evaluates a configuration script.
//!
//! Everything in this file is trusted rather than proved: it is the border
//! with the `mlua` crate. A script may compute its values in any way it
//! likes, so nothing is claimed about what the interpreter hands back. A
//! script that never ends keeps the interpreter, and its caller, busy for
//! ever.

use vstd::prelude::*;

verus! {

/// `mlua::Lua`, an interpreter state. Opaque here.
#[verifier::external_type_specification]
#[verifier::external_body]
pub struct ExLua(mlua::Lua);

/// `mlua::Error`, what the interpreter reports when something fails. Opaque
/// here.
#[verifier::external_type_specification]
#[verifier::external_body]
pub struct ExLuaError(mlua::Error);

/// `mlua::Lua::new`: a fresh interpreter with the safe part of the standard
/// libraries. Nothing is claimed about it.
pub assume_specification[ mlua::Lua::new ]() -> (lua: mlua::Lua);

/// `mlua::Lua::load` followed by `mlua::Chunk::exec`: the script is compiled
/// and run in the interpreter. Nothing is claimed about the result; the
/// interpreter reports a script that does not compile, or that raises an
/// error, as `Err`.
#[verifier::external_body]
pub(crate) fn run_script(lua: &mlua::Lua, script: &str) -> Result<(), mlua::Error> {
    lua.load(script).exec()
}

/// `mlua::Table::get` on `mlua::Lua::globals`, read as a `bool`: the global
/// variable of that name by Lua's notion of truth. Nothing is claimed about
/// the result.
#[verifier::external_body]
pub(crate) fn global_flag(lua: &mlua::Lua, name: &str) -> Result<bool, mlua::Error> {
    lua.globals().get::<bool>(name)
}

/// `mlua::Table::get` on `mlua::Lua::globals`, read as a `String`: the
/// global variable of that name if it converts to text. Nothing is claimed
/// about the result.
#[verifier::external_body]
pub(crate) fn global_text(lua: &mlua::Lua, name: &str) -> Result<String, mlua::Error> {
    lua.globals().get::<String>(name)
}

/// `ToString::to_string` on a `mlua::Error`: the error in words. Nothing is
/// claimed about the text.
#[verifier::external_body]
pub(crate) fn error_text(error: &mlua::Error) -> String {
    error.to_string()
}

} // verus!
