//! Renderings that std and serde_json compute: nothing of them is proved here.

use std::fmt::Debug;
use std::fmt::Write;
use vstd::prelude::*;

verus! {

/// serde_json's error type, carried as an opaque value.
#[verifier::external_type_specification]
#[verifier::external_body]
pub struct ExJsonError(serde_json::Error);

/// The `Debug` rendering of a serde_json error: its message, quoted, with the
/// line and column it points at.
pub uninterp spec fn json_error_text(error: serde_json::Error) -> Seq<char>;

/// Renders `error` with serde_json's `Debug` impl for `serde_json::Error`.
/// Trusted: that the text depends on the error alone. The impl prints the
/// message, line and column that the error holds and reports no failure of
/// its own, so `format!` does not panic.
#[verifier::external_body]
pub(crate) fn render_json_error(error: &serde_json::Error) -> (text: String)
    ensures
        text@ == json_error_text(*error),
{
    format!("{error:?}")
}

/// Renders `value` with its `Debug` impl, through std's `write!` into a
/// `String`. Nothing is claimed of the text: it is whatever the impl of `T`
/// prints. An impl that reports a failure of its own leaves what it had
/// printed so far.
#[verifier::external_body]
pub(crate) fn debug_text<T: Debug>(value: &T) -> (text: String) {
    let mut text = String::new();
    let _ = write!(text, "{value:?}");
    text
}

} // verus!
