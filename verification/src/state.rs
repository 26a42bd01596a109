//! The shared game state and the transitions that write it.
//!
//! One record holds the pause flag and the dialog session. The pause
//! handlers write the flag, the dialog transitions write the session, and
//! every other component only reads.

use vstd::prelude::*;
use crate::dialog::{payloads, DialogAsset, DialogEvent};

verus! {

/// A dialog in progress: the text being presented and the line shown now.
pub struct Conversation {
    pub lines: Seq<Seq<char>>,
    pub line: nat,
}

/// What a [`GameState`] stands for: the pause flag and, while a dialog
/// session is active, its conversation.
pub struct GameModel {
    pub paused: bool,
    pub dialog: Option<Conversation>,
}

impl GameModel {
    /// An active conversation always points at one of its lines.
    pub open spec fn well_formed(self) -> bool {
        self.dialog matches Some(c) ==> c.line < c.lines.len()
    }

    /// Running, with no dialog.
    pub open spec fn initial() -> GameModel {
        GameModel { paused: false, dialog: None }
    }

    /// The pause flag flipped once; the session untouched.
    pub open spec fn toggle_pause(self) -> GameModel {
        GameModel { paused: !self.paused, dialog: self.dialog }
    }

    /// The pause flag after `n` toggles: flipped when `n` is odd.
    pub open spec fn toggle_pause_n(self, n: nat) -> GameModel {
        GameModel { paused: if n % 2 == 0 { self.paused } else { !self.paused }, dialog: self.dialog }
    }

    /// A session on `lines` begins at the first line, whatever session was
    /// active before.
    pub open spec fn start(self, lines: Seq<Seq<char>>) -> GameModel {
        GameModel { paused: self.paused, dialog: Some(Conversation { lines, line: 0 }) }
    }

    /// One advance edge: the next line while one is left, the end of the
    /// session from the last line, nothing while no session is active.
    pub open spec fn advance(self) -> GameModel {
        match self.dialog {
            None => self,
            Some(c) => if c.line + 1 < c.lines.len() {
                GameModel {
                    paused: self.paused,
                    dialog: Some(Conversation { lines: c.lines, line: c.line + 1 }),
                }
            } else {
                GameModel { paused: self.paused, dialog: None }
            },
        }
    }

    /// `n` advance edges in a row.
    pub open spec fn advance_n(self, n: nat) -> GameModel
        decreases n,
    {
        if n == 0 {
            self
        } else {
            self.advance_n((n - 1) as nat).advance()
        }
    }

    /// The session after the payloads of one tick have arrived: each one
    /// restarts the session, so the last one stands.
    pub open spec fn receive(self, payloads: Seq<Seq<Seq<char>>>) -> GameModel {
        if payloads.len() == 0 {
            self
        } else {
            self.start(payloads.last())
        }
    }

    /// The line on screen, if a session is active.
    pub open spec fn presented(self) -> Option<Seq<char>> {
        match self.dialog {
            None => None,
            Some(c) => Some(c.lines[c.line as int]),
        }
    }
}

/// A discrete change of the shared state that is not part of a dialog.
#[derive(Clone, Copy, Debug, PartialEq, Eq, Structural)]
pub enum GameEvent {
    TogglePause,
}

/// The shared game state: the pause flag and the dialog session.
///
/// While a session is active the payload is present and the current line is
/// one of its lines; while none is active the line is 0 and no payload is
/// held.
#[derive(Debug)]
pub struct GameState {
    paused: bool,
    in_dialog: bool,
    current_dialog_line: usize,
    current_dialog: Option<DialogAsset>,
}

impl View for GameState {
    type V = GameModel;

    closed spec fn view(&self) -> GameModel {
        GameModel {
            paused: self.paused,
            dialog: match self.current_dialog {
                Some(asset) if self.in_dialog && self.current_dialog_line < asset@.len() => Some(
                    Conversation { lines: asset@, line: self.current_dialog_line as nat },
                ),
                _ => None,
            },
        }
    }
}

impl GameState {
    #[verifier::type_invariant]
    spec fn consistent(self) -> bool {
        if self.in_dialog {
            self.current_dialog matches Some(asset) && self.current_dialog_line < asset@.len()
        } else {
            self.current_dialog is None && self.current_dialog_line == 0
        }
    }

    /// The state at start-up: running, no dialog.
    pub fn new() -> (state: Self)
        ensures
            state@ == GameModel::initial(),
    {
        GameState { paused: false, in_dialog: false, current_dialog_line: 0, current_dialog: None }
    }

    /// Whether the game is paused.
    pub fn paused(&self) -> (paused: bool)
        ensures
            paused == self@.paused,
    {
        self.paused
    }

    /// Whether a dialog session is active.
    pub fn in_dialog(&self) -> (active: bool)
        ensures
            active == self@.dialog.is_some(),
    {
        proof {
            use_type_invariant(self);
        }
        self.in_dialog
    }

    /// The index of the line shown now; 0 while no session is active.
    pub fn current_dialog_line(&self) -> (line: usize)
        ensures
            line == match self@.dialog {
                Some(c) => c.line,
                None => 0,
            },
    {
        proof {
            use_type_invariant(self);
        }
        self.current_dialog_line
    }

    /// The payload of the active session.
    pub fn current_dialog(&self) -> (payload: Option<&DialogAsset>)
        ensures
            match payload {
                Some(asset) => self@.dialog matches Some(c) && asset@ == c.lines,
                None => self@.dialog is None,
            },
    {
        proof {
            use_type_invariant(self);
        }
        self.current_dialog.as_ref()
    }

    /// The text of the line shown now, if a session is active.
    pub fn current_line(&self) -> (text: Option<&String>)
        ensures
            match text {
                Some(t) => self@.presented() == Some(t@),
                None => self@.presented() is None,
            },
    {
        proof {
            use_type_invariant(self);
        }
        match &self.current_dialog {
            Some(asset) => {
                let text = &asset.lines[self.current_dialog_line];
                Some(text)
            },
            None => None,
        }
    }

    /// Flips the pause flag. The dialog session is not touched.
    pub fn toggle_pause(&mut self)
        ensures
            final(self)@ == old(self)@.toggle_pause(),
    {
        proof {
            use_type_invariant(&*self);
        }
        self.paused = !self.paused;
    }

    /// Applies the queued events in order.
    pub fn handle_game_events(&mut self, events: &Vec<GameEvent>)
        ensures
            final(self)@ == old(self)@.toggle_pause_n(events@.len()),
    {
        let mut i: usize = 0;
        while i < events.len()
            invariant
                i <= events@.len(),
                self@ == old(self)@.toggle_pause_n(i as nat),
            decreases events@.len() - i,
        {
            match events[i] {
                GameEvent::TogglePause => {
                    self.toggle_pause();
                },
            }
            i += 1;
        }
    }

    /// Begins a session on a copy of `asset`, at its first line. A session
    /// that is already active is replaced.
    pub fn start_dialog(&mut self, asset: &DialogAsset)
        requires
            asset@.len() > 0,
        ensures
            final(self)@ == old(self)@.start(asset@),
    {
        *self = GameState {
            paused: self.paused,
            in_dialog: true,
            current_dialog_line: 0,
            current_dialog: Some(asset.clone()),
        };
    }

    /// Takes one advance edge: moves to the next line, or ends the session
    /// from the last line. Without a session nothing changes.
    pub fn advance_dialog(&mut self)
        ensures
            final(self)@ == old(self)@.advance(),
    {
        proof {
            use_type_invariant(&*self);
        }
        let count: usize = match &self.current_dialog {
            Some(asset) => asset.lines.len(),
            None => 0,
        };
        if self.in_dialog {
            if self.current_dialog_line < count - 1 {
                self.current_dialog_line = self.current_dialog_line + 1;
            } else {
                *self = GameState {
                    paused: self.paused,
                    in_dialog: false,
                    current_dialog_line: 0,
                    current_dialog: None,
                };
            }
        }
    }

    /// The dialog step of one tick. The payloads that arrived are taken in
    /// first, each restarting the session; the line then on screen is handed
    /// back for presentation; after that an advance edge, if there is one,
    /// is applied.
    pub fn update_dialog(&mut self, events: &Vec<DialogEvent>, advance: bool) -> (shown: Option<
        String,
    >)
        requires
            forall|i: int| 0 <= i < events@.len() ==> (#[trigger] events@[i]).lines().len() > 0,
        ensures
            ({
                let started = old(self)@.receive(payloads(events@));
                &&& match shown {
                    Some(text) => started.presented() == Some(text@),
                    None => started.presented() is None,
                }
                &&& final(self)@ == if advance {
                    started.advance()
                } else {
                    started
                }
            }),
    {
        let mut i: usize = 0;
        while i < events.len()
            invariant
                i <= events@.len(),
                forall|j: int| 0 <= j < events@.len() ==> (#[trigger] events@[j]).lines().len() > 0,
                self@ == old(self)@.receive(payloads(events@.take(i as int))),
            decreases events@.len() - i,
        {
            match &events[i] {
                DialogEvent::DialogData(asset) => {
                    self.start_dialog(asset);
                },
            }
            assert(payloads(events@.take(i + 1)).last() == events@[i as int].lines());
            i += 1;
        }
        assert(events@.take(i as int) == events@);
        let shown = match self.current_line() {
            Some(text) => Some(text.clone()),
            None => None,
        };
        if advance {
            self.advance_dialog();
        }
        shown
    }
}

/// The event, if any, that the pause key raises this tick.
pub fn handle_pause(pause_just_pressed: bool) -> (event: Option<GameEvent>)
    ensures
        event == if pause_just_pressed {
            Some(GameEvent::TogglePause)
        } else {
            None
        },
{
    if pause_just_pressed {
        Some(GameEvent::TogglePause)
    } else {
        None
    }
}

/// Every state that can exist stands for a well-formed model: an active
/// session always points at one of its lines.
pub proof fn lemma_view_well_formed(state: GameState)
    ensures
        state@.well_formed(),
{
}

/// Every transition keeps the model well-formed, given that a session is
/// only ever started on a payload with at least one line.
pub proof fn lemma_transitions_keep_well_formed(m: GameModel, lines: Seq<Seq<char>>, n: nat)
    requires
        m.well_formed(),
    ensures
        m.toggle_pause().well_formed(),
        m.toggle_pause_n(n).well_formed(),
        lines.len() > 0 ==> m.start(lines).well_formed(),
        m.advance().well_formed(),
        m.advance_n(n).well_formed(),
    decreases n,
{
    if n > 0 {
        lemma_transitions_keep_well_formed(m, lines, (n - 1) as nat);
        lemma_transitions_keep_well_formed(m.advance_n((n - 1) as nat), lines, 0);
    }
}

/// Each field has one writer: pausing never touches the session, and the
/// dialog transitions never touch the pause flag. In particular a paused
/// game still advances its dialog.
pub proof fn lemma_single_writer(m: GameModel, lines: Seq<Seq<char>>)
    ensures
        m.toggle_pause().dialog == m.dialog,
        m.start(lines).paused == m.paused,
        m.advance().paused == m.paused,
        m.toggle_pause().advance() == m.advance().toggle_pause(),
{
}

/// Without an active session an advance edge changes nothing.
pub proof fn lemma_advance_needs_session(m: GameModel, n: nat)
    requires
        m.dialog is None,
    ensures
        m.advance_n(n) == m,
    decreases n,
{
    if n > 0 {
        lemma_advance_needs_session(m, (n - 1) as nat);
    }
}

/// A session walks its lines one at a time. After `k` advance edges a
/// session started on `lines` shows line `k`, for every `k` below the number
/// of lines; the edge taken on the last line ends it. No line is skipped
/// and no edge counts twice.
pub proof fn lemma_session_walks_every_line(m: GameModel, lines: Seq<Seq<char>>, k: nat)
    requires
        lines.len() > 0,
        k <= lines.len(),
    ensures
        k < lines.len() ==> m.start(lines).advance_n(k) == (GameModel {
            paused: m.paused,
            dialog: Some(Conversation { lines, line: k }),
        }),
        k == lines.len() ==> m.start(lines).advance_n(k) == (GameModel {
            paused: m.paused,
            dialog: None,
        }),
    decreases k,
{
    if k > 0 {
        lemma_session_walks_every_line(m, lines, (k - 1) as nat);
    }
}

/// One advance edge moves the line by exactly one, or ends the session, and
/// it ends the session exactly when the last line was on screen.
pub proof fn lemma_advance_is_one_step(m: GameModel)
    requires
        m.well_formed(),
        m.dialog is Some,
    ensures
        ({
            let c = m.dialog->Some_0;
            &&& c.line + 1 < c.lines.len() ==> m.advance().dialog == Some(
                Conversation { lines: c.lines, line: c.line + 1 },
            )
            &&& c.line + 1 == c.lines.len() <==> m.advance().dialog is None
        }),
{
}

/// Progress never alters the text: for as long as a session stays active,
/// its lines are the ones it was started on.
pub proof fn lemma_progress_keeps_payload(m: GameModel, n: nat)
    requires
        m.dialog is Some,
    ensures
        m.advance_n(n).dialog matches Some(c) ==> c.lines == m.dialog->Some_0.lines,
    decreases n,
{
    if n > 0 {
        lemma_progress_keeps_payload(m, (n - 1) as nat);
        if m.advance_n((n - 1) as nat).dialog is None {
            lemma_advance_needs_session(m.advance_n((n - 1) as nat), 1);
        }
    }
}

/// Triggering a dialog again restarts cleanly: whatever session was active
/// and however far it had got, the new session is the one that the same
/// trigger starts from idle, at line 0 on the new payload.
pub proof fn lemma_retrigger_restarts(m: GameModel, lines: Seq<Seq<char>>)
    ensures
        m.start(lines) == (GameModel { paused: m.paused, dialog: None }).start(lines),
        m.start(lines).dialog == Some(Conversation { lines, line: 0 }),
        lines.len() > 0 ==> m.start(lines).well_formed(),
{
}

} // verus!
