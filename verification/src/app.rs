//! Application state: the download mode, the download status, the input
//! line, the popup timer and the history of completed downloads.

use vstd::prelude::*;

verus! {

/// Which flag set is handed to the external tool: a plain video download or
/// an audio extraction.
#[derive(Clone, Copy, PartialEq, Eq, Structural, Debug)]
pub enum DownloadMode {
    Video,
    Audio,
}

/// Lifecycle of the most recently initiated download. A new download
/// overwrites the previous terminal status; there is no per-download record
/// beyond the history list.
#[derive(Clone, Copy, PartialEq, Eq, Structural, Debug)]
pub enum DownloadStatus {
    Idle,
    Downloading,
    Success,
    Failed,
}

/// One completed download: its resolved title.
#[derive(Debug)]
pub struct HistoryItem {
    pub title: String,
}

/// The whole application state owned by the render loop. The worker never
/// touches it; it communicates through the shared status cell and the
/// completion channel, whose observations are fed into the per-tick
/// functions as plain values.
#[derive(Debug)]
pub struct App {
    /// The URL being typed.
    pub url_input: String,
    /// The currently selected download mode.
    pub mode: DownloadMode,
    /// The status as last observed from the shared cell.
    pub status: DownloadStatus,
    /// Whether the success popup is currently shown.
    pub show_popup: bool,
    /// When the popup was armed, in milliseconds of the caller's clock.
    pub popup_start: Option<u64>,
    /// Completed downloads, oldest first.
    pub history: Vec<HistoryItem>,
}

/// Mathematical model of [`App`]: the input line and the history titles as
/// character sequences, everything else as itself.
#[verifier::ext_equal]
pub ghost struct AppModel {
    pub input: Seq<char>,
    pub mode: DownloadMode,
    pub status: DownloadStatus,
    pub show_popup: bool,
    pub popup_start: Option<u64>,
    pub history: Seq<Seq<char>>,
}

impl View for HistoryItem {
    type V = Seq<char>;

    open spec fn view(&self) -> Seq<char> {
        self.title@
    }
}

impl View for App {
    type V = AppModel;

    open spec fn view(&self) -> AppModel {
        AppModel {
            input: self.url_input@,
            mode: self.mode,
            status: self.status,
            show_popup: self.show_popup,
            popup_start: self.popup_start,
            history: Seq::new(self.history@.len(), |i: int| self.history@[i]@),
        }
    }
}

/// The state the application starts in: empty input, audio mode, idle
/// status, no popup, empty history.
pub open spec fn spec_init() -> AppModel {
    AppModel {
        input: Seq::empty(),
        mode: DownloadMode::Audio,
        status: DownloadStatus::Idle,
        show_popup: false,
        popup_start: None,
        history: Seq::empty(),
    }
}

/// The opposite mode: video becomes audio and audio becomes video.
pub open spec fn spec_toggle(m: DownloadMode) -> DownloadMode {
    match m {
        DownloadMode::Video => DownloadMode::Audio,
        DownloadMode::Audio => DownloadMode::Video,
    }
}

/// Relies on `String::push`: appends the character to the end of the string.
pub assume_specification[ String::push ](s: &mut String, ch: char)
    ensures
        final(s)@ == old(s)@.push(ch),
;

/// Relies on `String::pop`: removes and returns the last character, or
/// returns `None` and leaves the string unchanged when it is empty.
pub assume_specification[ String::pop ](s: &mut String) -> (r: Option<char>)
    ensures
        old(s)@.len() == 0 ==> r is None && final(s)@ == old(s)@,
        old(s)@.len() > 0 ==> r == Some(old(s)@.last()) && final(s)@ == old(s)@.drop_last(),
;

impl App {
    /// A fresh application state, as [`spec_init`] describes it.
    pub fn new() -> (r: App)
        ensures
            r@ == spec_init(),
    {
        let r = App {
            url_input: String::new(),
            mode: DownloadMode::Audio,
            status: DownloadStatus::Idle,
            show_popup: false,
            popup_start: None,
            history: Vec::new(),
        };
        proof {
            assert(r@ =~~= spec_init());
        }
        r
    }

    /// Flips the download mode between video and audio; nothing else moves.
    pub fn toggle_mode(&mut self)
        ensures
            final(self)@ == (AppModel { mode: spec_toggle(old(self)@.mode), ..old(self)@ }),
    {
        self.mode = match self.mode {
            DownloadMode::Video => DownloadMode::Audio,
            DownloadMode::Audio => DownloadMode::Video,
        };
        proof {
            assert(self@ =~~= (AppModel { mode: spec_toggle(old(self)@.mode), ..old(self)@ }));
        }
    }

    /// Appends one typed character to the input line.
    pub fn push_char(&mut self, c: char)
        ensures
            final(self)@ == (AppModel { input: old(self)@.input.push(c), ..old(self)@ }),
    {
        self.url_input.push(c);
        proof {
            assert(self@ =~~= (AppModel { input: old(self)@.input.push(c), ..old(self)@ }));
        }
    }

    /// Removes the last character of the input line; on an empty line it
    /// leaves the line empty.
    pub fn pop_char(&mut self)
        ensures
            final(self)@ == (AppModel { input: spec_pop(old(self)@.input), ..old(self)@ }),
    {
        let _ = self.url_input.pop();
        proof {
            assert(self@ =~~= (AppModel { input: spec_pop(old(self)@.input), ..old(self)@ }));
        }
    }

    /// Whether the current input may be submitted: it must be non-empty.
    pub fn can_submit(&self) -> (r: bool)
        ensures
            r == (self@.input.len() > 0),
    {
        !self.url_input.as_str().is_empty()
    }

}

impl DownloadMode {
    /// Whether this mode asks the external tool for audio extraction.
    pub fn audio_only(&self) -> (r: bool)
        ensures
            r == (*self is Audio),
    {
        match self {
            DownloadMode::Audio => true,
            DownloadMode::Video => false,
        }
    }
}

/// The input line after a backspace: one character shorter, or still empty.
pub open spec fn spec_pop(s: Seq<char>) -> Seq<char> {
    if s.len() == 0 {
        s
    } else {
        s.drop_last()
    }
}

/// The mode reached from audio after `n` toggles.
pub open spec fn mode_after(n: nat) -> DownloadMode
    decreases n,
{
    if n == 0 {
        DownloadMode::Audio
    } else {
        spec_toggle(mode_after((n - 1) as nat))
    }
}

/// Law: starting from audio, repeated toggling alternates strictly —
/// audio after an even number of toggles, video after an odd one, and two
/// consecutive counts never give the same mode.
pub proof fn lemma_toggle_alternates(n: nat)
    ensures
        mode_after(n) == (if n % 2 == 0 {
            DownloadMode::Audio
        } else {
            DownloadMode::Video
        }),
        mode_after(n + 1) != mode_after(n),
    decreases n,
{
    if n > 0 {
        lemma_toggle_alternates((n - 1) as nat);
    }
}

} // verus!
