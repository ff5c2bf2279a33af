//! Short notification texts shown when the user takes a screenshot or starts
//! and stops a recording, localized by the system locale name.

use vstd::prelude::*;

verus! {

/// Relies on `str`'s `PartialEq`: two string slices are equal exactly when
/// their character sequences are.
#[verifier::external_body]
pub(crate) fn str_eq(a: &str, b: &str) -> (r: bool)
    ensures
        r <==> a@ == b@,
{
    a == b
}

/// The notification texts for one locale.
pub struct Messages {
    pub screen_shot: &'static str,
    pub record_video_start: &'static str,
    pub record_video_end: &'static str,
}

impl Messages {
    /// Picks the text set for a locale name: Japanese for `ja-JP`, English
    /// otherwise.
    pub fn new(loc: Option<&str>) -> (r: Messages)
        ensures
            Messages::japanese_wanted(loc) ==> r.japanese(),
            !Messages::japanese_wanted(loc) ==> r.english(),
    {
        let japanese = match loc {
            Some(l) => str_eq(l, "ja-JP"),
            None => false,
        };
        if japanese {
            Messages {
                screen_shot: "スクリーンショットを撮影",
                record_video_start: "録画を開始",
                record_video_end: "録画を終了",
            }
        } else {
            Messages {
                screen_shot: "take the screenshot",
                record_video_start: "start recording",
                record_video_end: "end recording",
            }
        }
    }

    /// The Japanese set is wanted exactly for the locale name `ja-JP`.
    pub open spec fn japanese_wanted(loc: Option<&str>) -> bool {
        match loc {
            Some(l) => l@ == "ja-JP"@,
            None => false,
        }
    }

    /// This is the Japanese text set.
    pub open spec fn japanese(self) -> bool {
        &&& self.screen_shot@ == "スクリーンショットを撮影"@
        &&& self.record_video_start@ == "録画を開始"@
        &&& self.record_video_end@ == "録画を終了"@
    }

    /// This is the English text set.
    pub open spec fn english(self) -> bool {
        &&& self.screen_shot@ == "take the screenshot"@
        &&& self.record_video_start@ == "start recording"@
        &&& self.record_video_end@ == "end recording"@
    }
}

} // verus!
