//! The engine's error kinds and their user-facing descriptions.
//!
//! A failed GPU call is fatal to the operation that made it; the render loop
//! logs it and goes on. A failed video finalize deletes the partial output
//! file. A failed fence wait is fatal and propagated.

use vstd::prelude::*;

verus! {

/// What went wrong inside the engine.
#[derive(Clone, Copy, PartialEq, Eq, Structural, Debug)]
pub enum Error {
    /// A GPU API call failed; the value is the status code the driver handed
    /// back.
    Api(u32),
    /// A fence or event wait failed.
    SyncWaitFailed,
    /// Finalizing the video encoder failed; the partial file was deleted.
    EncodeFailed,
    /// The partial video file could not be deleted after a failed finalize.
    RemoveFile,
    /// A failure that could not be identified.
    UnknownError,
}

impl Error {
    /// A short description of this error, in the given locale.
    pub fn message(&self, messages: &ErrorMessages) -> (r: &'static str)
        ensures
            r == self.spec_message(*messages),
    {
        match self {
            Error::Api(_) => messages.api_call,
            Error::SyncWaitFailed => messages.sync_wait,
            Error::EncodeFailed => messages.encode,
            Error::RemoveFile => messages.remove_file,
            Error::UnknownError => messages.unknown_error,
        }
    }

    /// Which description `message` picks for each kind.
    pub open spec fn spec_message(self, messages: ErrorMessages) -> &'static str {
        match self {
            Error::Api(_) => messages.api_call,
            Error::SyncWaitFailed => messages.sync_wait,
            Error::EncodeFailed => messages.encode,
            Error::RemoveFile => messages.remove_file,
            Error::UnknownError => messages.unknown_error,
        }
    }
}

/// Localized descriptions for each error kind.
pub struct ErrorMessages {
    pub api_call: &'static str,
    pub sync_wait: &'static str,
    pub encode: &'static str,
    pub remove_file: &'static str,
    pub unknown_error: &'static str,
}

impl ErrorMessages {
    /// Picks the description set for a locale name: Japanese for `ja-JP`,
    /// English otherwise.
    pub fn new(loc: Option<&str>) -> (r: ErrorMessages)
        ensures
            ErrorMessages::japanese_wanted(loc) ==> r.japanese(),
            !ErrorMessages::japanese_wanted(loc) ==> r.english(),
    {
        let japanese = match loc {
            Some(l) => crate::messages::str_eq(l, "ja-JP"),
            None => false,
        };
        if japanese {
            ErrorMessages {
                api_call: "GPUの呼び出しに失敗しました",
                sync_wait: "同期オブジェクトを待機できません",
                encode: "動画ファイルを書き出せません",
                remove_file: "ファイルを削除できません",
                unknown_error: "特定できないエラーです",
            }
        } else {
            ErrorMessages {
                api_call: "a GPU call failed",
                sync_wait: "cannot wait for the sync object",
                encode: "cannot finalize the video file",
                remove_file: "cannot remove the file",
                unknown_error: "unknown error",
            }
        }
    }

    /// The Japanese set is wanted exactly for the locale name `ja-JP`.
    pub open spec fn japanese_wanted(loc: Option<&str>) -> bool {
        match loc {
            Some(l) => l@ == "ja-JP"@,
            None => false,
        }
    }

    /// This is the Japanese description set.
    pub open spec fn japanese(self) -> bool {
        &&& self.api_call@ == "GPUの呼び出しに失敗しました"@
        &&& self.sync_wait@ == "同期オブジェクトを待機できません"@
        &&& self.encode@ == "動画ファイルを書き出せません"@
        &&& self.remove_file@ == "ファイルを削除できません"@
        &&& self.unknown_error@ == "特定できないエラーです"@
    }

    /// This is the English description set.
    pub open spec fn english(self) -> bool {
        &&& self.api_call@ == "a GPU call failed"@
        &&& self.sync_wait@ == "cannot wait for the sync object"@
        &&& self.encode@ == "cannot finalize the video file"@
        &&& self.remove_file@ == "cannot remove the file"@
        &&& self.unknown_error@ == "unknown error"@
    }
}

} // verus!
