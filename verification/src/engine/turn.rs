use crate::text::decimal;
use crate::text::decimal_string;
use vstd::prelude::*;
use vstd::string::StringExecFns;

verus! {

/// Where a turn stands.
#[derive(Debug, Clone, Copy, PartialEq, Eq, Structural)]
pub enum TurnPhase {
    /// The player has not started the turn yet.
    WaitingForPlayer,
    /// The player is taking the turn.
    Active,
    /// The turn is over.
    Complete,
}

/// One action taken during a turn.
#[derive(Debug, Clone)]
pub struct ActionRecord {
    pub action_type: String,
    pub details: String,
    pub ap_cost: u8,
    pub timestamp: u64,
}

pub struct ActionRecordView {
    pub action_type: Seq<char>,
    pub details: Seq<char>,
    pub ap_cost: u8,
    pub timestamp: u64,
}

impl View for ActionRecord {
    type V = ActionRecordView;

    open spec fn view(&self) -> ActionRecordView {
        ActionRecordView {
            action_type: self.action_type@,
            details: self.details@,
            ap_cost: self.ap_cost,
            timestamp: self.timestamp,
        }
    }
}

/// One player's bounded opportunity to act.
#[derive(Debug, Clone)]
pub struct Turn {
    pub number: u32,
    pub active_player: u8,
    pub phase: TurnPhase,
    pub started_at: u64,
    pub actions_taken: Vec<ActionRecord>,
}

pub struct TurnView {
    pub number: int,
    pub active_player: u8,
    pub phase: TurnPhase,
    pub started_at: u64,
    pub actions_taken: Seq<ActionRecordView>,
}

/// The views of a list of action records.
pub open spec fn record_views(records: Seq<ActionRecord>) -> Seq<ActionRecordView> {
    Seq::new(records.len(), |i: int| records[i]@)
}

/// The views of a list of turns.
pub open spec fn turn_views(turns: Seq<Turn>) -> Seq<TurnView> {
    Seq::new(turns.len(), |i: int| turns[i]@)
}

impl View for Turn {
    type V = TurnView;

    open spec fn view(&self) -> TurnView {
        TurnView {
            number: self.number as int,
            active_player: self.active_player,
            phase: self.phase,
            started_at: self.started_at,
            actions_taken: record_views(self.actions_taken@),
        }
    }
}

/// The other of the two players.
pub open spec fn opponent(player_id: u8) -> u8 {
    if player_id == 0 {
        1
    } else {
        0
    }
}

/// What the summary line calls a phase.
pub open spec fn phase_text(phase: TurnPhase) -> Seq<char> {
    match phase {
        TurnPhase::WaitingForPlayer => "Waiting for player"@,
        TurnPhase::Active => "In progress"@,
        TurnPhase::Complete => "Complete"@,
    }
}

impl TurnView {
    /// A turn that waits for its player, with nothing done yet.
    pub open spec fn opening(number: int, active_player: u8, now: u64) -> TurnView {
        TurnView {
            number,
            active_player,
            phase: TurnPhase::WaitingForPlayer,
            started_at: now,
            actions_taken: Seq::empty(),
        }
    }

    pub open spec fn started(self, now: u64) -> TurnView {
        TurnView { phase: TurnPhase::Active, started_at: now, ..self }
    }

    pub open spec fn completed(self) -> TurnView {
        TurnView { phase: TurnPhase::Complete, ..self }
    }

    pub open spec fn is_active(self) -> bool {
        self.phase == TurnPhase::Active
    }

    pub open spec fn with_action(self, record: ActionRecordView) -> TurnView {
        TurnView { actions_taken: self.actions_taken.push(record), ..self }
    }
}

/// Seconds on the system clock since the Unix epoch: `SystemTime::elapsed` on
/// `UNIX_EPOCH`, then `Duration::as_secs`. `None` where the clock stands
/// before the epoch. Nothing is claimed of the number.
#[verifier::external_body]
fn seconds_since_epoch() -> (seconds: Option<u64>) {
    match std::time::UNIX_EPOCH.elapsed() {
        Ok(elapsed) => Some(elapsed.as_secs()),
        Err(_) => None,
    }
}

impl Turn {
    pub fn new(number: u32, active_player: u8) -> (turn: Turn)
        ensures
            turn@ == TurnView::opening(number as int, active_player, turn.started_at),
    {
        let turn = Turn {
            number,
            active_player,
            phase: TurnPhase::WaitingForPlayer,
            started_at: Self::current_timestamp(),
            actions_taken: Vec::new(),
        };
        assert(turn@.actions_taken =~= Seq::empty());
        turn
    }

    /// The turn becomes active and its start is stamped anew.
    pub fn start(&mut self)
        ensures
            final(self)@ == old(self)@.started(final(self).started_at),
    {
        self.phase = TurnPhase::Active;
        self.started_at = Self::current_timestamp();
    }

    pub fn complete(&mut self)
        ensures
            final(self)@ == old(self)@.completed(),
    {
        self.phase = TurnPhase::Complete;
    }

    pub fn is_active(&self) -> (active: bool)
        ensures
            active == self@.is_active(),
    {
        self.phase == TurnPhase::Active
    }

    /// Appends one record to the turn's log, stamped with the current time.
    pub fn record_action(&mut self, action_type: &str, details: &str, ap_cost: u8)
        ensures
            final(self)@.actions_taken.len() == old(self)@.actions_taken.len() + 1,
            final(self)@ == old(self)@.with_action(
                ActionRecordView {
                    action_type: action_type@,
                    details: details@,
                    ap_cost,
                    timestamp: final(self)@.actions_taken.last().timestamp,
                },
            ),
    {
        let record = ActionRecord {
            action_type: String::from_str(action_type),
            details: String::from_str(details),
            ap_cost,
            timestamp: Self::current_timestamp(),
        };
        self.actions_taken.push(record);
        assert(self@.actions_taken =~= old(self)@.actions_taken.push(record@));
    }

    /// The current time in seconds since the Unix epoch; zero where the
    /// system clock stands before it.
    fn current_timestamp() -> u64 {
        clock_seconds()
    }
}

/// The current time in seconds since the Unix epoch; zero where the system
/// clock stands before it.
pub(crate) fn clock_seconds() -> u64 {
    seconds_or_zero(seconds_since_epoch())
}

/// The time stamp that a reading of the clock gives: the seconds that were
/// read, and zero for a clock that could not be read.
pub fn seconds_or_zero(reading: Option<u64>) -> (seconds: u64)
    ensures
        seconds == match reading {
            Some(read) => read,
            None => 0,
        },
{
    match reading {
        Some(read) => read,
        None => 0,
    }
}

/// Sequences the turns of a game: the current one and those that came before.
#[derive(Debug, Clone)]
pub struct TurnManager {
    pub current_turn: Turn,
    pub turn_history: Vec<Turn>,
    pub last_completed_turn: Option<u32>,
}

pub struct TurnManagerView {
    pub current_turn: TurnView,
    pub turn_history: Seq<TurnView>,
    pub last_completed_turn: Option<u32>,
}

impl View for TurnManager {
    type V = TurnManagerView;

    open spec fn view(&self) -> TurnManagerView {
        TurnManagerView {
            current_turn: self.current_turn@,
            turn_history: turn_views(self.turn_history@),
            last_completed_turn: self.last_completed_turn,
        }
    }
}

impl TurnManagerView {
    /// The first turn of a game belongs to the first player.
    pub open spec fn initial(now: u64) -> TurnManagerView {
        TurnManagerView {
            current_turn: TurnView::opening(1, 0, now),
            turn_history: Seq::empty(),
            last_completed_turn: None,
        }
    }

    /// The active player is one of the two.
    pub open spec fn wf(self) -> bool {
        &&& self.current_turn.active_player <= 1
        &&& 0 <= self.current_turn.number <= u32::MAX
    }

    /// The turn number can be raised once more.
    pub open spec fn can_advance(self) -> bool {
        self.current_turn.number < u32::MAX
    }

    /// Only the active player acts, and not once the turn is complete.
    pub open spec fn can_player_act(self, player_id: u8) -> bool {
        self.current_turn.active_player == player_id && self.current_turn.phase
            != TurnPhase::Complete
    }

    /// The current turn is archived as complete; the next turn, numbered one
    /// higher, waits for the other player.
    pub open spec fn advanced(self, now: u64) -> TurnManagerView {
        TurnManagerView {
            current_turn: TurnView::opening(
                self.current_turn.number + 1,
                opponent(self.current_turn.active_player),
                now,
            ),
            turn_history: self.turn_history.push(self.current_turn.completed()),
            last_completed_turn: Some(self.current_turn.number as u32),
        }
    }

    pub open spec fn summary(self) -> Seq<char> {
        "Turn "@ + decimal(self.current_turn.number as nat) + ": "@ + phase_text(
            self.current_turn.phase,
        ) + " (Player "@ + decimal((self.current_turn.active_player + 1) as nat) + ")"@
    }
}

/// Whatever the phase, a player who is not the active one cannot act.
pub proof fn lemma_only_active_player_acts(manager: TurnManagerView, player_id: u8)
    requires
        player_id != manager.current_turn.active_player,
    ensures
        !manager.can_player_act(player_id),
{
}

/// Advancing hands the turn to the other player and raises the turn number
/// by one, whatever the clock shows.
pub proof fn lemma_advance_flips_and_counts(manager: TurnManagerView, now: u64)
    requires
        manager.current_turn.active_player <= 1,
    ensures
        manager.advanced(now).current_turn.active_player != manager.current_turn.active_player,
        manager.advanced(now).current_turn.active_player <= 1,
        manager.advanced(now).current_turn.number == manager.current_turn.number + 1,
        manager.advanced(now).current_turn.phase == TurnPhase::WaitingForPlayer,
        manager.advanced(now).advanced(now).current_turn.active_player
            == manager.current_turn.active_player,
{
}

impl TurnManager {
    pub fn new() -> (manager: TurnManager)
        ensures
            manager@ == TurnManagerView::initial(manager.current_turn.started_at),
            manager@.wf(),
    {
        let manager = TurnManager {
            current_turn: Turn::new(1, 0),
            turn_history: Vec::new(),
            last_completed_turn: None,
        };
        assert(manager@.turn_history =~= Seq::empty());
        manager
    }

    pub fn can_player_act(&self, player_id: u8) -> (able: bool)
        ensures
            able == self@.can_player_act(player_id),
    {
        self.current_turn.active_player == player_id && self.current_turn.phase
            != TurnPhase::Complete
    }

    pub fn advance_turn(&mut self)
        requires
            old(self)@.wf(),
            old(self)@.can_advance(),
        ensures
            final(self)@.wf(),
            final(self)@ == old(self)@.advanced(final(self).current_turn.started_at),
            final(self).current_turn.active_player == opponent(old(self).current_turn.active_player),
            final(self).current_turn.number == old(self).current_turn.number + 1,
            final(self)@.current_turn.active_player <= 1,
    {
        let number = self.current_turn.number;
        let next_player = 1 - self.current_turn.active_player;
        let mut finished = Turn::new(number + 1, next_player);
        std::mem::swap(&mut self.current_turn, &mut finished);
        finished.complete();
        self.turn_history.push(finished);
        self.last_completed_turn = Some(number);
        assert(self@.turn_history =~= old(self)@.turn_history.push(
            old(self)@.current_turn.completed(),
        ));
    }

    pub fn get_turn_summary(&self) -> (summary: String)
        ensures
            summary@ == self@.summary(),
    {
        let phase = match self.current_turn.phase {
            TurnPhase::WaitingForPlayer => "Waiting for player",
            TurnPhase::Active => "In progress",
            TurnPhase::Complete => "Complete",
        };
        let number = decimal_string(self.current_turn.number as u64);
        let player = decimal_string(self.current_turn.active_player as u64 + 1);
        let mut summary = String::from_str("Turn ");
        summary.append(number.as_str());
        summary.append(": ");
        summary.append(phase);
        summary.append(" (Player ");
        summary.append(player.as_str());
        summary.append(")");
        summary
    }
}

} // verus!
