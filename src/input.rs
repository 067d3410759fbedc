use vstd::prelude::*;

use crate::error::{ErrorKind, UdpipeError};
use crate::text::contains_char;

verus! {

/// Checks that `text` can be handed to the engine: it fails with
/// [`ErrorKind::MalformedInput`] exactly when the text holds a null byte.
pub fn check_text(text: &str) -> (r: Result<(), UdpipeError>)
    ensures
        r is Err <==> text@.contains('\0'),
        r matches Err(e) ==> e.kind == ErrorKind::MalformedInput && e.message@
            == "Invalid text (contains null byte)"@,
{
    if contains_char(text, '\0') {
        Err(UdpipeError::with_kind(ErrorKind::MalformedInput, "Invalid text (contains null byte)"))
    } else {
        Ok(())
    }
}

/// Checks that a model path can be handed to the engine: it fails with
/// [`ErrorKind::MalformedInput`] exactly when the path holds a null byte.
pub fn check_path(path: &str) -> (r: Result<(), UdpipeError>)
    ensures
        r is Err <==> path@.contains('\0'),
        r matches Err(e) ==> e.kind == ErrorKind::MalformedInput && e.message@
            == "Invalid path (contains null byte)"@,
{
    if contains_char(path, '\0') {
        Err(UdpipeError::with_kind(ErrorKind::MalformedInput, "Invalid path (contains null byte)"))
    } else {
        Ok(())
    }
}

} // verus!
