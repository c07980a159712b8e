use vstd::prelude::*;
use vstd::string::*;

use crate::error::{ErrorModel, LauncherError};
use crate::log::{LogBuffer, LogLevel};
use crate::text::{decimal, decimal_string};
use vstd::utf8::encode_utf8;

verus! {

/// The greeting for `name`: the name is put in as it stands, whatever
/// characters it holds.
pub open spec fn greeting(name: Seq<char>) -> Seq<char> {
    "Hello, "@ + name + "! You've been greeted from Rust!"@
}

/// The informational line that a clipboard request logs for a text of
/// `len` bytes in UTF-8.
pub open spec fn clipboard_request_note(len: nat) -> Seq<char> {
    "Copy to clipboard requested for text of length: "@ + decimal(len)
}

/// The warning that a clipboard request logs.
pub open spec fn clipboard_missing_note() -> Seq<char> {
    "Clipboard functionality not implemented - frontend should handle this"@
}

/// Greets `name`. Never fails.
pub fn greet(name: &str) -> (r: String)
    ensures
        r@ == greeting(name@),
{
    let mut r = String::from_str("Hello, ");
    r.append(name);
    r.append("! You've been greeted from Rust!");
    r
}

/// Asks for `text` to be put on the clipboard. The host provides no
/// clipboard, so the request always fails with the rendering of
/// `ClipboardFailed`, after logging the length of `text` and a warning. The
/// length is counted in bytes.
pub fn copy_to_clipboard(text: String, log: &mut LogBuffer) -> (r: Result<(), String>)
    ensures
        r matches Err(e) && e@ == ErrorModel::ClipboardFailed.rendered(),
        final(log)@ == old(log)@.push(
            (LogLevel::Info, clipboard_request_note(encode_utf8(text@).len())),
        ).push((LogLevel::Warn, clipboard_missing_note())),
{
    let mut note = String::from_str("Copy to clipboard requested for text of length: ");
    note.append(decimal_string(text.as_str().as_bytes().len()).as_str());
    log.record(LogLevel::Info, note);
    log.record(
        LogLevel::Warn,
        String::from_str("Clipboard functionality not implemented - frontend should handle this"),
    );
    Err(LauncherError::ClipboardFailed.render())
}

} // verus!
