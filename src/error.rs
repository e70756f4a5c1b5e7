//! The errors that reach the caller.
use vstd::prelude::*;

use crate::snap::Key;

verus! {

/// What went wrong.
#[derive(Clone, Copy, Debug, PartialEq, Eq, Structural)]
pub enum ErrorKind {
    /// The window's native decorations could not be turned off.
    DecorationToggleFailed,
    /// The system's synthetic input could not be opened.
    InputBackendUnavailable,
    /// Pressing, clicking or releasing this key failed.
    KeystrokeFailed(Key),
}

/// An error with the words that describe it.
#[derive(Clone, Debug)]
pub struct Error {
    pub kind: ErrorKind,
    pub message: String,
}

/// The key's name in messages.
pub open spec fn key_name(k: Key) -> Seq<char> {
    match k {
        Key::Meta => "Meta"@,
        Key::Alt => "Alt"@,
        Key::Z => "Z"@,
    }
}

impl Key {
    /// The key's name in messages.
    pub fn name(&self) -> (r: &'static str)
        ensures
            r@ == key_name(*self),
    {
        match self {
            Key::Meta => "Meta",
            Key::Alt => "Alt",
            Key::Z => "Z",
        }
    }
}

impl Error {
    /// Turning off the native decorations failed, as `detail` says.
    pub fn decoration_toggle_failed(detail: &str) -> (r: Error)
        ensures
            r.kind == ErrorKind::DecorationToggleFailed,
            r.message@ == detail@,
    {
        Error { kind: ErrorKind::DecorationToggleFailed, message: String::from_str(detail) }
    }

    /// Opening the synthetic input failed, as `detail` says.
    pub fn input_backend_unavailable(detail: &str) -> (r: Error)
        ensures
            r.kind == ErrorKind::InputBackendUnavailable,
            r.message@ == detail@,
    {
        Error { kind: ErrorKind::InputBackendUnavailable, message: String::from_str(detail) }
    }

    /// A keystroke on `key` failed, as `detail` says; the message names the key.
    pub fn keystroke_failed(key: Key, detail: &str) -> (r: Error)
        ensures
            r.kind == ErrorKind::KeystrokeFailed(key),
            r.message@ == key_name(key) + ": "@ + detail@,
    {
        let mut message = String::from_str(key.name());
        message.append(": ");
        message.append(detail);
        Error { kind: ErrorKind::KeystrokeFailed(key), message }
    }

    /// The words that describe the error, as the front end receives them.
    pub fn to_message(&self) -> (r: String)
        ensures
            r@ == self.message@,
    {
        self.message.clone()
    }
}

} // verus!
