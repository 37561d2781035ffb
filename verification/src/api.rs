//! The error taxonomy and the byte-level handling of foreign strings.
//!
//! Every failure the foreign runtime can report arrives as a plain integer
//! status, optionally with a message string left on top of the interpreter's
//! stack. [`LuaError::classify`] turns that pair into one structured error,
//! exactly as the taxonomy prescribes. [`nul_terminated`] prepares source
//! text for the foreign boundary, rejecting embedded NUL bytes before any
//! foreign call could see them.

use vstd::prelude::*;

use crate::compiler::BytecodeCompiler;
use crate::lua::{LuaInt, LUA_ERRERR, LUA_ERRFILE, LUA_ERRMEM, LUA_ERRRUN, LUA_ERRSYNTAX};

verus! {

/// Serialized bytecode produced by a successful compile. Its contents are
/// whatever the linked runtime's dump format emits; this crate never looks
/// inside it.
pub type Bytecode = Vec<u8>;

/// One classified failure of the compiler or of the foreign runtime.
#[derive(Clone, Debug)]
pub enum LuaError {
    /// The runtime could not allocate memory (`LUA_ERRMEM`), or creating the
    /// interpreter state yielded no state at all.
    MemoryAllocationError,
    /// The source text failed to parse (`LUA_ERRSYNTAX`); carries the
    /// parser's own message when it left one.
    SyntaxError(Option<String>),
    /// A file could not be loaded (`LUA_ERRFILE`); carries the loader's
    /// message when it left one.
    FileError(Option<String>),
    /// A runtime error was raised while compiling (`LUA_ERRRUN`); carries
    /// the runtime's message when it left one.
    RuntimeError(Option<String>),
    /// The error handler of a protected call itself failed (`LUA_ERRERR`).
    ErrorHandlerError,
    /// A status code outside the taxonomy; carries the raw code.
    Unknown(LuaInt),
    /// The lock guarding the interpreter was poisoned: a previous holder
    /// failed before restoring the stack, so the interpreter is unusable.
    PoisonError,
}

/// What `String::from_utf8_lossy` makes of a byte sequence. Named rather
/// than spelled out: the decoding is a fixed function of the bytes alone,
/// but stating it would reproduce the whole UTF-8 decoding procedure.
pub uninterp spec fn lossy_utf8(bytes: Seq<u8>) -> Seq<char>;

/// Relies on `String::from_utf8_lossy`: decodes a byte sequence as UTF-8,
/// substituting the replacement character for invalid sequences. The result
/// depends on the bytes alone.
#[verifier::external_body]
fn decode_lossy(bytes: &Vec<u8>) -> (r: String)
    ensures
        r@ == lossy_utf8(bytes@),
{
    String::from_utf8_lossy(bytes.as_slice()).into_owned()
}

/// An optional message text is the decoding of an optional raw byte string:
/// both are absent, or the text reads the bytes as lossy UTF-8.
pub open spec fn msg_decodes(message: Option<String>, raw: Option<Seq<u8>>) -> bool {
    match (message, raw) {
        (Option::None, Option::None) => true,
        (Option::Some(m), Option::Some(b)) => m@ == lossy_utf8(b),
        _ => false,
    }
}

/// The byte sequences of an optional raw message.
pub open spec fn raw_view(raw: Option<Vec<u8>>) -> Option<Seq<u8>> {
    match raw {
        Option::None => Option::None,
        Option::Some(b) => Option::Some(b@),
    }
}

/// Exactly when `error` classifies the nonzero status `code` whose raw
/// top-of-stack message bytes (where the failing call left a readable
/// string) were `raw`: one variant per documented status, with the message
/// attached to the syntax, runtime and file variants, no message on the
/// memory and error-handler variants, and every remaining code carried raw
/// in `Unknown`.
pub open spec fn classified(error: LuaError, code: LuaInt, raw: Option<Seq<u8>>) -> bool {
    match error {
        LuaError::MemoryAllocationError => code == LUA_ERRMEM,
        LuaError::ErrorHandlerError => code == LUA_ERRERR,
        LuaError::SyntaxError(m) => code == LUA_ERRSYNTAX && msg_decodes(m, raw),
        LuaError::RuntimeError(m) => code == LUA_ERRRUN && msg_decodes(m, raw),
        LuaError::FileError(m) => code == LUA_ERRFILE && msg_decodes(m, raw),
        LuaError::Unknown(c) => c == code && code != LUA_ERRRUN && code != LUA_ERRSYNTAX
            && code != LUA_ERRMEM && code != LUA_ERRERR && code != LUA_ERRFILE,
        LuaError::PoisonError => false,
    }
}

fn decode_opt(raw: Option<Vec<u8>>) -> (r: Option<String>)
    ensures
        msg_decodes(r, raw_view(raw)),
{
    match raw {
        Option::None => Option::None,
        Option::Some(b) => Option::Some(decode_lossy(&b)),
    }
}

impl LuaError {
    /// Classify a nonzero foreign status code together with the raw bytes of
    /// the error value the failing call left on top of the stack (`None`
    /// when that value was not a readable string — treated as an absent
    /// message, never as a failure of its own).
    pub fn classify(code: LuaInt, raw: Option<Vec<u8>>) -> (r: LuaError)
        requires
            code != 0,
        ensures
            classified(r, code, raw_view(raw)),
    {
        if code == LUA_ERRMEM {
            LuaError::MemoryAllocationError
        } else if code == LUA_ERRERR {
            LuaError::ErrorHandlerError
        } else if code == LUA_ERRSYNTAX {
            LuaError::SyntaxError(decode_opt(raw))
        } else if code == LUA_ERRRUN {
            LuaError::RuntimeError(decode_opt(raw))
        } else if code == LUA_ERRFILE {
            LuaError::FileError(decode_opt(raw))
        } else {
            LuaError::Unknown(code)
        }
    }
}

/// A foreign-compatible copy of `text`: the same bytes followed by one
/// terminating NUL — or `None` when the text already contains a NUL byte,
/// which must be rejected before any foreign call is made, since the foreign
/// runtime would silently truncate it there.
pub fn nul_terminated(text: &Vec<u8>) -> (r: Option<Vec<u8>>)
    ensures
        match r {
            Option::Some(t) => !text@.contains(0u8) && t@ == text@.push(0u8),
            Option::None => text@.contains(0u8),
        },
{
    let mut out: Vec<u8> = Vec::new();
    let mut i: usize = 0;
    while i < text.len()
        invariant
            i <= text@.len(),
            out@ == text@.subrange(0, i as int),
            forall|k: int| 0 <= k < i ==> text@[k] != 0u8,
        decreases text@.len() - i,
    {
        let b = text[i];
        if b == 0u8 {
            assert(text@.contains(0u8)) by {
                assert(text@[i as int] == 0u8);
            }
            return Option::None;
        }
        out.push(b);
        assert(out@ =~= text@.subrange(0, i as int + 1));
        i += 1;
    }
    assert(out@ =~= text@);
    assert(!text@.contains(0u8));
    out.push(0u8);
    Option::Some(out)
}

/// Creates a new bytecode compiler protocol engine; `state_created` reports
/// whether the foreign create-state call produced an interpreter. Without
/// one, construction fails with the out-of-memory error; with one, the
/// driver establishes the three-entry stack baseline mirrored here.
pub fn compiler(state_created: bool) -> (r: Result<BytecodeCompiler, LuaError>)
    ensures
        match r {
            Result::Ok(c) => state_created && c.ready(),
            Result::Err(e) => !state_created && e == LuaError::MemoryAllocationError,
        },
{
    BytecodeCompiler::new(state_created)
}

} // verus!
