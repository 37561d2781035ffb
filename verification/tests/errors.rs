use gluac_rs::api::{nul_terminated, LuaError};
use gluac_rs::compiler::strip_dump_terminator;
use gluac_rs::lua::{LUA_ERRERR, LUA_ERRFILE, LUA_ERRMEM, LUA_ERRRUN, LUA_ERRSYNTAX};

#[test]
fn classify_memory_status() {
    let e = LuaError::classify(LUA_ERRMEM, Some(b"not enough memory".to_vec()));
    assert!(matches!(e, LuaError::MemoryAllocationError));
}

#[test]
fn classify_error_handler_status() {
    let e = LuaError::classify(LUA_ERRERR, None);
    assert!(matches!(e, LuaError::ErrorHandlerError));
}

#[test]
fn classify_syntax_status_keeps_message() {
    let e = LuaError::classify(LUA_ERRSYNTAX, Some(b"'=' expected".to_vec()));
    assert!(matches!(e, LuaError::SyntaxError(Some(m)) if m == "'=' expected"));
}

#[test]
fn classify_runtime_status_keeps_message() {
    let e = LuaError::classify(LUA_ERRRUN, Some(b"attempt to index a nil value".to_vec()));
    assert!(matches!(e, LuaError::RuntimeError(Some(m)) if m == "attempt to index a nil value"));
}

#[test]
fn classify_file_status_keeps_message() {
    let e = LuaError::classify(LUA_ERRFILE, Some(b"cannot open x.lua".to_vec()));
    assert!(matches!(e, LuaError::FileError(Some(m)) if m == "cannot open x.lua"));
}

#[test]
fn classify_missing_message_is_absent() {
    let e = LuaError::classify(LUA_ERRSYNTAX, None);
    assert!(matches!(e, LuaError::SyntaxError(None)));
}

#[test]
fn classify_unknown_status_carries_code() {
    let e = LuaError::classify(42, None);
    assert!(matches!(e, LuaError::Unknown(42)));
    let e = LuaError::classify(1, Some(b"yield".to_vec()));
    assert!(matches!(e, LuaError::Unknown(1)));
    let e = LuaError::classify(-7, None);
    assert!(matches!(e, LuaError::Unknown(-7)));
}

#[test]
fn classify_decodes_invalid_utf8_lossily() {
    let e = LuaError::classify(LUA_ERRSYNTAX, Some(vec![b'b', b'a', b'd', 0xFF]));
    assert!(matches!(e, LuaError::SyntaxError(Some(m)) if m == "bad\u{FFFD}"));
}

#[test]
fn nul_terminated_appends_terminator() {
    let text = b"print(1)".to_vec();
    let t = nul_terminated(&text);
    assert_eq!(t, Some(b"print(1)\0".to_vec()));
}

#[test]
fn nul_terminated_empty_text() {
    let t = nul_terminated(&Vec::new());
    assert_eq!(t, Some(vec![0u8]));
}

#[test]
fn nul_terminated_rejects_embedded_nul() {
    let text = b"print(1)\0print(2)".to_vec();
    assert_eq!(nul_terminated(&text), None);
    assert_eq!(nul_terminated(&vec![0u8]), None);
}

#[test]
fn strip_removes_one_trailing_terminator() {
    assert_eq!(strip_dump_terminator(vec![27, 76, 74, 0]), vec![27, 76, 74]);
    assert_eq!(strip_dump_terminator(vec![27, 0, 0]), vec![27, 0]);
    assert_eq!(strip_dump_terminator(vec![0]), Vec::<u8>::new());
}

#[test]
fn strip_leaves_unterminated_bytes_alone() {
    assert_eq!(strip_dump_terminator(vec![27, 76, 74]), vec![27, 76, 74]);
    assert_eq!(strip_dump_terminator(Vec::new()), Vec::<u8>::new());
}
