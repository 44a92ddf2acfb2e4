//! One tick of the render loop: observing the shared status cell, draining
//! the completion channel, timing the popup out, and interpreting one key
//! event. The loop around these functions renders and polls; every decision
//! it takes goes through here.

use vstd::prelude::*;

use crate::app::{App, AppModel, DownloadMode, DownloadStatus, HistoryItem, spec_pop, spec_toggle};

verus! {

/// How long the success popup stays visible, in milliseconds.
pub const POPUP_DURATION_MS: u64 = 2500;

/// A key event, reduced to what the loop distinguishes.
#[derive(Clone, Copy, PartialEq, Eq, Structural, Debug)]
pub enum Key {
    Escape,
    Tab,
    Enter,
    Backspace,
    Char(char),
    Other,
}

/// Whether the key event is a press (repeats count as presses) or a
/// release; releases are ignored.
#[derive(Clone, Copy, PartialEq, Eq, Structural, Debug)]
pub enum KeyKind {
    Press,
    Release,
}

/// A submission the loop must act on: the URL and mode snapshotted at the
/// moment the user pressed enter.
#[derive(Debug)]
pub struct DownloadRequest {
    pub url: String,
    pub mode: DownloadMode,
}

/// What the loop must do after one key event: keep looping, quit, or
/// publish `Downloading` and start a worker for the request.
#[derive(Debug)]
pub enum KeyOutcome {
    Continue,
    Quit,
    Start(DownloadRequest),
}

/// Model of [`KeyOutcome`]: the request as its URL characters and mode.
pub ghost enum KeyOutcomeModel {
    Continue,
    Quit,
    Start(Seq<char>, DownloadMode),
}

impl View for KeyOutcome {
    type V = KeyOutcomeModel;

    open spec fn view(&self) -> KeyOutcomeModel {
        match self {
            KeyOutcome::Continue => KeyOutcomeModel::Continue,
            KeyOutcome::Quit => KeyOutcomeModel::Quit,
            KeyOutcome::Start(req) => KeyOutcomeModel::Start(req.url@, req.mode),
        }
    }
}

/// The state after reading the shared cell: the status is copied in, and
/// when it just turned to `Success` — the cell says so while the state
/// still holds something else — the popup is armed at the current time.
pub open spec fn spec_observe(s: AppModel, cell: DownloadStatus, now_ms: u64) -> AppModel {
    if !(s.status is Success) && cell is Success {
        AppModel { status: cell, show_popup: true, popup_start: Some(now_ms), ..s }
    } else {
        AppModel { status: cell, ..s }
    }
}

/// The state after a completed title arrives: it is appended to the
/// history; nothing else moves.
pub open spec fn spec_record(s: AppModel, title: Seq<char>) -> AppModel {
    AppModel { history: s.history.push(title), ..s }
}

/// The state after draining the completion channel: one title recorded if
/// one was pending, unchanged otherwise.
pub open spec fn spec_drain(s: AppModel, title: Option<Seq<char>>) -> AppModel {
    match title {
        Some(t) => spec_record(s, t),
        None => s,
    }
}

/// Whether a popup armed at `start` has been visible for the full display
/// duration at time `now_ms`.
pub open spec fn popup_expired(start: Option<u64>, now_ms: u64) -> bool {
    match start {
        Some(t) => now_ms >= t + POPUP_DURATION_MS,
        None => false,
    }
}

/// The state after the popup timer is checked: hidden and disarmed once
/// the display duration has elapsed, untouched before that.
pub open spec fn spec_expire(s: AppModel, now_ms: u64) -> AppModel {
    if popup_expired(s.popup_start, now_ms) {
        AppModel { show_popup: false, popup_start: None, ..s }
    } else {
        s
    }
}

/// The state and outcome after one key event. Releases and unknown keys do
/// nothing; escape quits; tab toggles the mode; enter submits the input
/// when it is non-empty and no download is in progress, and does nothing
/// otherwise — the guard keeps at most one worker outstanding; backspace
/// and printable characters edit the input line.
pub open spec fn spec_key_step(s: AppModel, key: Key, kind: KeyKind) -> (AppModel, KeyOutcomeModel) {
    match kind {
        KeyKind::Release => (s, KeyOutcomeModel::Continue),
        KeyKind::Press => match key {
            Key::Escape => (s, KeyOutcomeModel::Quit),
            Key::Tab => (AppModel { mode: spec_toggle(s.mode), ..s }, KeyOutcomeModel::Continue),
            Key::Enter => if s.input.len() == 0 || s.status is Downloading {
                (s, KeyOutcomeModel::Continue)
            } else {
                (s, KeyOutcomeModel::Start(s.input, s.mode))
            },
            Key::Backspace => (AppModel { input: spec_pop(s.input), ..s }, KeyOutcomeModel::Continue),
            Key::Char(c) => (AppModel { input: s.input.push(c), ..s }, KeyOutcomeModel::Continue),
            Key::Other => (s, KeyOutcomeModel::Continue),
        },
    }
}

/// What the shared cell holds once the loop has acted on a key outcome: a
/// submission publishes `Downloading`; every other outcome leaves the cell
/// as it was.
pub open spec fn spec_cell_after_key(cell: DownloadStatus, out: KeyOutcomeModel) -> DownloadStatus {
    match out {
        KeyOutcomeModel::Start(_, _) => DownloadStatus::Downloading,
        _ => cell,
    }
}

impl App {
    /// Copies the status read from the shared cell into the state, arming
    /// the popup at `now_ms` when the status just turned to `Success`.
    pub fn observe_status(&mut self, cell: DownloadStatus, now_ms: u64)
        ensures
            final(self)@ == spec_observe(old(self)@, cell, now_ms),
    {
        if self.status != DownloadStatus::Success && cell == DownloadStatus::Success {
            self.show_popup = true;
            self.popup_start = Some(now_ms);
        }
        self.status = cell;
        proof {
            assert(self@ =~~= spec_observe(old(self)@, cell, now_ms));
        }
    }

    /// Appends a title received from the completion channel to the history.
    pub fn record_completion(&mut self, title: String)
        ensures
            final(self)@ == spec_record(old(self)@, title@),
    {
        let ghost t = title@;
        self.history.push(HistoryItem { title });
        proof {
            assert(self@.history =~= old(self)@.history.push(t));
            assert(self@ =~~= spec_record(old(self)@, t));
        }
    }

    /// Drains at most one pending title from the completion channel into
    /// the history.
    pub fn drain_completion(&mut self, title: Option<String>)
        ensures
            final(self)@ == spec_drain(
                old(self)@,
                match title {
                    Some(t) => Some(t@),
                    None => None,
                },
            ),
    {
        match title {
            Some(t) => self.record_completion(t),
            None => (),
        }
    }

    /// Hides and disarms the popup once it has been visible for the full
    /// display duration.
    pub fn expire_popup(&mut self, now_ms: u64)
        ensures
            final(self)@ == spec_expire(old(self)@, now_ms),
    {
        match self.popup_start {
            Some(t) => {
                if now_ms >= t && now_ms - t >= POPUP_DURATION_MS {
                    self.show_popup = false;
                    self.popup_start = None;
                }
            },
            None => (),
        }
        proof {
            assert(self@ =~~= spec_expire(old(self)@, now_ms));
        }
    }

    /// Interprets one key event, as [`spec_key_step`] says: the state is
    /// updated and the loop learns whether to continue, quit, or start a
    /// download for the returned request.
    pub fn handle_key(&mut self, key: Key, kind: KeyKind) -> (r: KeyOutcome)
        ensures
            final(self)@ == spec_key_step(old(self)@, key, kind).0,
            r@ == spec_key_step(old(self)@, key, kind).1,
    {
        match kind {
            KeyKind::Release => {
                return KeyOutcome::Continue;
            },
            KeyKind::Press => (),
        }
        let r = match key {
            Key::Escape => KeyOutcome::Quit,
            Key::Tab => {
                self.toggle_mode();
                KeyOutcome::Continue
            },
            Key::Enter => {
                if !self.can_submit() || self.status == DownloadStatus::Downloading {
                    KeyOutcome::Continue
                } else {
                    let url = self.url_input.clone();
                    KeyOutcome::Start(DownloadRequest { url, mode: self.mode })
                }
            },
            Key::Backspace => {
                self.pop_char();
                KeyOutcome::Continue
            },
            Key::Char(c) => {
                self.push_char(c);
                KeyOutcome::Continue
            },
            Key::Other => KeyOutcome::Continue,
        };
        proof {
            assert(self@ =~~= spec_key_step(old(self)@, key, kind).0);
        }
        r
    }
}

/// Law: submitting with empty input changes nothing — the state keeps
/// every field, no download starts, and the loop just continues.
pub proof fn lemma_empty_submit(s: AppModel)
    requires
        s.input.len() == 0,
    ensures
        spec_key_step(s, Key::Enter, KeyKind::Press).0 == s,
        spec_key_step(s, Key::Enter, KeyKind::Press).1 is Continue,
{
}

/// Law: a submission starts exactly when the input is non-empty and no
/// download is in progress — the guard that keeps at most one worker
/// outstanding.
pub proof fn lemma_submit_guard(s: AppModel)
    ensures
        spec_key_step(s, Key::Enter, KeyKind::Press).1 is Start <==> (s.input.len() > 0 && !(
        s.status is Downloading)),
{
}

/// Law: after a failed download, submitting a new non-empty URL starts a
/// download at once — the cell turns to `Downloading`, the next
/// observation shows `Downloading`, and the failure leaves no trace in the
/// history.
pub proof fn lemma_resubmit_after_failure(s: AppModel, cell: DownloadStatus, now_ms: u64)
    requires
        s.status is Failed,
        s.input.len() > 0,
    ensures
        ({
            let (s2, out) = spec_key_step(s, Key::Enter, KeyKind::Press);
            &&& out is Start
            &&& spec_cell_after_key(cell, out) is Downloading
            &&& spec_observe(s2, spec_cell_after_key(cell, out), now_ms).status is Downloading
            &&& spec_observe(s2, spec_cell_after_key(cell, out), now_ms).history == s.history
        }),
{
}

/// Law: backspace on an empty input line leaves the state exactly as it
/// was — the line stays empty and nothing underflows.
pub proof fn lemma_backspace_empty(s: AppModel)
    requires
        s.input.len() == 0,
    ensures
        spec_key_step(s, Key::Backspace, KeyKind::Press).0 == s,
        spec_key_step(s, Key::Backspace, KeyKind::Press).1 is Continue,
{
    assert(spec_key_step(s, Key::Backspace, KeyKind::Press).0 =~~= s);
}

/// Law: escape quits from every state — idle, downloading, success or
/// failed — and changes nothing.
pub proof fn lemma_escape_quits(s: AppModel)
    ensures
        spec_key_step(s, Key::Escape, KeyKind::Press).0 == s,
        spec_key_step(s, Key::Escape, KeyKind::Press).1 is Quit,
{
}

} // verus!
