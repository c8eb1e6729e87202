use crate::engine::actions::ActionError;
use crate::engine::actions::ActionType;
use crate::engine::actions::ErrorKind;
use crate::engine::actions::Refusal;
use crate::engine::actions::parse_of;
use crate::engine::actions::parse_words;
use crate::engine::actions::refused;
use crate::engine::player::Player;
use crate::engine::player::PlayerView;
use crate::engine::turn::ActionRecordView;
use crate::engine::turn::TurnManager;
use crate::engine::turn::TurnManagerView;
use crate::engine::turn::TurnPhase;
use crate::map::galaxy::Galaxy;
use crate::map::galaxy::strategic_map;
use crate::map::galaxy::tactical_map;
use crate::map::graph::graph_wf;
use crate::map::graph::hop_count;
use crate::map::graph::hop_distance;
use crate::map::graph::is_graph;
use crate::map::graph::linked;
use crate::map::graph::sector_views;
use crate::map::sector::Sector;
use crate::map::sector::SectorView;
use crate::text::split_words;
use crate::text::texts;
use crate::text::words_of;
use vstd::prelude::*;
use vstd::string::StringExecFns;

verus! {

/// The most experience that a single action grants.
pub const MAX_ACTION_XP: u32 = 250;

/// The whole of a game: the two players, the map, whose turn it is, and what
/// has happened so far.
#[derive(Debug, Clone)]
pub struct GameState {
    pub players: [Player; 2],
    pub sectors: Vec<Sector>,
    pub turn_number: u32,
    pub current_player: u8,
    pub game_over: bool,
    pub event_log: Vec<String>,
    pub turn_manager: TurnManager,
}

/// A game as plain values.
pub struct GameView {
    pub players: Seq<PlayerView>,
    pub sectors: Seq<SectorView>,
    pub turn_number: int,
    pub current_player: u8,
    pub game_over: bool,
    pub event_log: Seq<Seq<char>>,
    pub turn_manager: TurnManagerView,
}

impl View for GameState {
    type V = GameView;

    open spec fn view(&self) -> GameView {
        GameView {
            players: Seq::new(2, |i: int| self.players@[i]@),
            sectors: sector_views(self.sectors@),
            turn_number: self.turn_number as int,
            current_player: self.current_player,
            game_over: self.game_over,
            event_log: texts(self.event_log@),
            turn_manager: self.turn_manager@,
        }
    }
}

/// What a command came to: whether it was carried out, what to tell the
/// player, the action points it cost, and the kind of refusal if it was
/// refused.
#[derive(Debug, Clone)]
pub struct CommandOutcome {
    pub success: bool,
    pub message: String,
    pub ap_spent: u8,
    pub error: Option<ErrorKind>,
}

pub struct CommandOutcomeView {
    pub success: bool,
    pub message: Seq<char>,
    pub ap_spent: u8,
    pub error: Option<ErrorKind>,
}

impl View for CommandOutcome {
    type V = CommandOutcomeView;

    open spec fn view(&self) -> CommandOutcomeView {
        CommandOutcomeView {
            success: self.success,
            message: self.message@,
            ap_spent: self.ap_spent,
            error: self.error,
        }
    }
}

impl CommandOutcomeView {
    /// A refused command: the reason, nothing spent.
    pub open spec fn failure(refusal: Refusal) -> CommandOutcomeView {
        CommandOutcomeView {
            success: false,
            message: refusal.message,
            ap_spent: 0,
            error: Some(refusal.kind),
        }
    }

    /// A command carried out: the report, and the cost of the action.
    pub open spec fn done(report: Seq<char>, cost: u8) -> CommandOutcomeView {
        CommandOutcomeView { success: true, message: report, ap_spent: cost, error: None }
    }
}

impl CommandOutcome {
    fn failure(error: ActionError) -> (outcome: CommandOutcome)
        ensures
            outcome@ == CommandOutcomeView::failure(error@),
    {
        CommandOutcome {
            success: false,
            message: error.message,
            ap_spent: 0,
            error: Some(error.kind),
        }
    }
}

/// The line every chronicle opens with.
pub open spec fn opening_line() -> Seq<char> {
    "The solar empire awaits conquest..."@
}

impl GameView {
    /// A game before its first action.
    pub open spec fn fresh(
        first: PlayerView,
        second: PlayerView,
        sectors: Seq<SectorView>,
        now: u64,
    ) -> GameView {
        GameView {
            players: seq![first, second],
            sectors,
            turn_number: 1,
            current_player: 0,
            game_over: false,
            event_log: seq![opening_line()],
            turn_manager: TurnManagerView::initial(now),
        }
    }

    /// The invariant of a game: two well-formed players, each under its own
    /// id and in a sector of the map; a map that is a graph, owned only by
    /// the two players; and turn fields that mirror the turn manager.
    pub open spec fn wf(self) -> bool {
        &&& self.players.len() == 2
        &&& forall|i: int|
            0 <= i < 2 ==> (#[trigger] self.players[i]).wf() && self.players[i].id == i
                && self.players[i].current_sector < self.sectors.len()
        &&& graph_wf(self.sectors)
        &&& forall|s: int|
            0 <= s < self.sectors.len() ==> ((#[trigger] self.sectors[s]).owner matches Some(owner)
                ==> owner < 2)
        &&& self.turn_manager.wf()
        &&& self.turn_number == self.turn_manager.current_turn.number
        &&& self.current_player == self.turn_manager.current_turn.active_player
    }

    /// Both players can take the experience of any one action.
    pub open spec fn has_xp_room(self) -> bool {
        forall|i: int|
            0 <= i < self.players.len() ==> (#[trigger] self.players[i]).experience + MAX_ACTION_XP
                <= u32::MAX
    }

    /// The player, if one of the two, can take the experience of any one
    /// action.
    pub open spec fn has_xp_room_for(self, player_id: u8) -> bool {
        player_id < self.players.len() ==> self.players[player_id as int].experience
            + MAX_ACTION_XP <= u32::MAX
    }

    /// Hops between two sectors, or the sentinel where no path joins them.
    pub open spec fn distance(self, from: u8, to: u8) -> int {
        hop_distance(self.sectors, from, to)
    }

    pub open spec fn with_player(self, player_id: u8, player: PlayerView) -> GameView {
        GameView { players: self.players.update(player_id as int, player), ..self }
    }

    pub open spec fn with_sector(self, sector_id: u8, sector: SectorView) -> GameView {
        GameView { sectors: self.sectors.update(sector_id as int, sector), ..self }
    }

    /// The player's fleet now sits in `sector`.
    pub open spec fn relocated(self, player_id: u8, sector: u8) -> GameView {
        self.with_player(player_id, self.players[player_id as int].moved_to(sector))
    }

    /// The player has paid `cost` action points.
    pub open spec fn paid(self, player_id: u8, cost: int) -> GameView {
        self.with_player(player_id, self.players[player_id as int].paying(cost))
    }

    /// The player has received experience, and every level it pays for.
    pub open spec fn granted(self, player_id: u8, experience: int) -> GameView {
        self.with_player(player_id, self.players[player_id as int].gained(experience))
    }

    /// The player has taken a hit.
    pub open spec fn struck(self, player_id: u8, damage: int) -> GameView {
        self.with_player(player_id, self.players[player_id as int].damaged(damage))
    }

    /// The player has been reinforced.
    pub open spec fn healed(self, player_id: u8, amount: int) -> GameView {
        self.with_player(player_id, self.players[player_id as int].healed(amount))
    }

    /// The player has seen the sector.
    pub open spec fn revealed(self, sector_id: u8, player_id: u8) -> GameView {
        self.with_sector(sector_id, self.sectors[sector_id as int].revealed_to(player_id))
    }

    /// The player owns the sector.
    pub open spec fn captured(self, sector_id: u8, player_id: u8) -> GameView {
        self.with_sector(sector_id, self.sectors[sector_id as int].captured_by(player_id))
    }

    /// The sector's outpost flag is `present`.
    pub open spec fn with_outpost(self, sector_id: u8, present: bool) -> GameView {
        self.with_sector(sector_id, self.sectors[sector_id as int].with_outpost(present))
    }

    /// What never goes back between an earlier state of a game and this one:
    /// a game that was over stays over, no player's level has dropped, the
    /// chronicle has only grown, and the map has the sectors it had, under
    /// their names and with their neighbours.
    pub open spec fn follows(self, before: GameView) -> bool {
        &&& before.game_over ==> self.game_over
        &&& self.players.len() == before.players.len()
        &&& forall|i: int|
            0 <= i < self.players.len() ==> (#[trigger] self.players[i]).level
                >= before.players[i].level
        &&& before.event_log.is_prefix_of(self.event_log)
        &&& self.sectors.len() == before.sectors.len()
        &&& forall|s: int|
            0 <= s < self.sectors.len() ==> (#[trigger] self.sectors[s]).id == before.sectors[s].id
                && self.sectors[s].name == before.sectors[s].name && self.sectors[s].adjacent
                == before.sectors[s].adjacent
    }

    /// Every player has the action points that they had in `before`.
    pub open spec fn same_points(self, before: GameView) -> bool {
        &&& self.players.len() == before.players.len()
        &&& forall|i: int|
            0 <= i < self.players.len() ==> (#[trigger] self.players[i]).ap_remaining
                == before.players[i].ap_remaining
    }

    /// One more line ends the chronicle.
    pub open spec fn logged(self, entry: Seq<char>) -> GameView {
        GameView { event_log: self.event_log.push(entry), ..self }
    }

    /// The game is over, for good.
    pub open spec fn ended(self) -> GameView {
        GameView { game_over: true, ..self }
    }

    /// Who may issue a command: one of the two players, while the turn is
    /// theirs and not complete.
    pub open spec fn admission(self, player_id: u8) -> Option<Refusal> {
        if player_id >= 2 {
            refused(ErrorKind::NotFound, "Player not found"@)
        } else if !self.turn_manager.can_player_act(player_id) {
            refused(ErrorKind::PermissionDenied, "It's not your turn!"@)
        } else {
            None
        }
    }

    /// Why an action of the player is not carried out, if it is not: the
    /// player's standing, then validation, then the cost.
    pub open spec fn verdict(self, player_id: u8, action: ActionType) -> Option<Refusal> {
        match self.admission(player_id) {
            Some(refusal) => Some(refusal),
            None => action.rejection(self, player_id),
        }
    }

    /// One more record in the log of the current turn.
    pub open spec fn noted(self, record: ActionRecordView) -> GameView {
        GameView {
            turn_manager: TurnManagerView {
                current_turn: self.turn_manager.current_turn.with_action(record),
                ..self.turn_manager
            },
            ..self
        }
    }

    /// The game after an action that was carried out: its outcome, a record
    /// of it in the turn's log, and, where it took the player's last action
    /// point, the end of the turn. `stamp` and `now` are what the clock showed
    /// for the record and for the next turn.
    pub open spec fn performed(
        self,
        player_id: u8,
        action: ActionType,
        label: Seq<char>,
        stamp: u64,
        now: u64,
    ) -> GameView {
        let noted = action.outcome(self, player_id).noted(
            ActionRecordView {
                action_type: label,
                details: action.report(self, player_id),
                ap_cost: action.price(),
                timestamp: stamp,
            },
        );
        if noted.players[player_id as int].ap_remaining == 0 {
            noted.turn_ended(player_id, now)
        } else {
            noted
        }
    }

    /// How a game and the outcome of a command stand to the game before it,
    /// for an action of a player who may issue commands.
    pub open spec fn answers(
        self,
        before: GameView,
        outcome: CommandOutcomeView,
        player_id: u8,
        action: ActionType,
        label: Seq<char>,
    ) -> bool {
        match before.verdict(player_id, action) {
            Some(refusal) => outcome == CommandOutcomeView::failure(refusal) && self == before,
            None => outcome == CommandOutcomeView::done(
                action.report(before, player_id),
                action.price(),
            ) && exists|stamp: u64, now: u64|
                self == before.performed(player_id, action, label, stamp, now),
        }
    }

    /// How a game and the outcome of a command stand to the game before it,
    /// for the words of the command.
    pub open spec fn answers_words(
        self,
        before: GameView,
        outcome: CommandOutcomeView,
        player_id: u8,
        words: Seq<Seq<char>>,
    ) -> bool {
        match before.admission(player_id) {
            Some(refusal) => outcome == CommandOutcomeView::failure(refusal) && self == before,
            None => match parse_of(words, before, player_id) {
                Err(refusal) => outcome == CommandOutcomeView::failure(refusal) && self == before,
                Ok(action) => self.answers(before, outcome, player_id, action, words[0]),
            },
        }
    }

    /// The current turn is under way and its player has a full set of action
    /// points.
    pub open spec fn turn_started(self, now: u64) -> GameView {
        let active = self.turn_manager.current_turn.active_player;
        GameView {
            turn_manager: TurnManagerView {
                current_turn: self.turn_manager.current_turn.started(now),
                ..self.turn_manager
            },
            ..self.with_player(active, self.players[active as int].with_ap_reset())
        }
    }

    /// The turn of `player_id` is closed: it is marked complete and archived,
    /// the player's pending level-ups are resolved, the other player's turn
    /// waits, and the turn fields follow the turn manager.
    pub open spec fn turn_ended(self, player_id: u8, now: u64) -> GameView {
        let manager = self.turn_manager.advanced(now);
        GameView {
            turn_manager: manager,
            turn_number: manager.current_turn.number,
            current_player: manager.current_turn.active_player,
            ..self.with_promotion(player_id)
        }
    }

    /// The player's pending level-ups are resolved; a player who has risen
    /// is named in the chronicle with the new rank.
    pub open spec fn with_promotion(self, player_id: u8) -> GameView {
        let before = self.players[player_id as int];
        let risen = self.with_player(player_id, before.promoted());
        if before.promoted().level > before.level {
            risen.logged(promotion_text(before.promoted().name, before.promoted().rank))
        } else {
            risen
        }
    }

    /// The player who is declared the winner once the game is over.
    pub open spec fn winner(self) -> u8 {
        if self.players[0].is_alive() {
            0
        } else {
            1
        }
    }

    /// The player has given up: the game is over and the chronicle says who
    /// left.
    pub open spec fn forfeited(self, player_id: u8) -> GameView {
        self.ended().logged(
            self.players[player_id as int].rank + " "@ + self.players[player_id as int].name
                + " abandoned the campaign."@,
        )
    }
}

/// No change to a well-formed game that keeps the players well-formed, under
/// their ids and on the map, and leaves the map's shape and the turn fields
/// alone, breaks the invariant.
pub proof fn lemma_player_change_keeps_wf(before: GameView, player_id: u8, player: PlayerView)
    requires
        before.wf(),
        player_id < 2,
        player.wf(),
        player.id == player_id,
        player.current_sector < before.sectors.len(),
    ensures
        before.with_player(player_id, player).wf(),
{
    let after = before.with_player(player_id, player);
    assert forall|i: int| 0 <= i < 2 implies (#[trigger] after.players[i]).wf() && after.players[i].id
        == i && after.players[i].current_sector < after.sectors.len() by {
        if i != player_id {
            assert(after.players[i] == before.players[i]);
        }
    }
}

/// A sector may change owner (to one of the players), visibility and
/// outpost; as long as id and neighbours stay, the invariant holds.
pub proof fn lemma_sector_change_keeps_wf(before: GameView, sector_id: u8, sector: SectorView)
    requires
        before.wf(),
        sector_id < before.sectors.len(),
        sector.id == sector_id,
        sector.adjacent == before.sectors[sector_id as int].adjacent,
        sector.owner matches Some(owner) ==> owner < 2,
    ensures
        before.with_sector(sector_id, sector).wf(),
{
    let after = before.with_sector(sector_id, sector);
    assert forall|i: int| 0 <= i < after.sectors.len() implies (#[trigger] after.sectors[i]).id
        == i by {
        if i != sector_id {
            assert(after.sectors[i] == before.sectors[i]);
        }
    }
    assert forall|i: int, j: int|
        0 <= i < after.sectors.len() && 0 <= j < after.sectors[i].adjacent.len() implies (
    #[trigger] after.sectors[i].adjacent[j]) < after.sectors.len() by {
        assert(after.sectors[i].adjacent == before.sectors[i].adjacent);
        assert(before.sectors[i].adjacent[j] < before.sectors.len());
    }
    assert forall|s: int| 0 <= s < after.sectors.len() implies ((#[trigger] after.sectors[s]).owner matches Some(
        owner,
    ) ==> owner < 2) by {
        if s != sector_id {
            assert(after.sectors[s] == before.sectors[s]);
        }
    }
    assert forall|i: int| 0 <= i < 2 implies (#[trigger] after.players[i]).wf() && after.players[i].id
        == i && after.players[i].current_sector < after.sectors.len() by {
        assert(after.players[i] == before.players[i]);
    }
}

/// In a well-formed game every player has action points between zero and
/// the cap, and health of at least zero.
pub proof fn lemma_wf_bounds_players(state: GameView, player_id: u8)
    requires
        state.wf(),
        player_id < 2,
    ensures
        0 <= state.players[player_id as int].ap_remaining <= state.players[player_id as int].ap_cap,
        state.players[player_id as int].health >= 0,
        1 <= state.players[player_id as int].level <= 10,
{
}

impl GameState {
    /// A new game for two named commanders, on the tactical or the strategic
    /// map. A commander who gives a password has its hash stored.
    pub fn new(
        player1_name: String,
        player1_pass: &str,
        player2_name: String,
        player2_pass: &str,
        tactical: bool,
    ) -> (state: GameState)
        ensures
            state@.wf(),
            state@.has_xp_room(),
            state@ == GameView::fresh(
                credentialed(
                    PlayerView::fresh(0, player1_name@, 0),
                    player1_pass@,
                ),
                credentialed(
                    PlayerView::fresh(1, player2_name@, far_corner(tactical)),
                    player2_pass@,
                ),
                chosen_map(tactical),
                state.turn_manager.current_turn.started_at,
            ),
    {
        let mut state = GameState::new_with_names(player1_name, player2_name, tactical);
        if player1_pass.unicode_len() > 0 {
            state.players[0].set_password(player1_pass);
        }
        if player2_pass.unicode_len() > 0 {
            state.players[1].set_password(player2_pass);
        }
        proof {
            assert(state@.players =~= seq![
                credentialed(PlayerView::fresh(0, player1_name@, 0), player1_pass@),
                credentialed(
                    PlayerView::fresh(1, player2_name@, far_corner(tactical)),
                    player2_pass@,
                ),
            ]);
            crate::engine::player::lemma_fresh_player_wf(0, player1_name@, 0);
            crate::engine::player::lemma_fresh_player_wf(1, player2_name@, far_corner(tactical));
        }
        state
    }

    /// A new game for two named commanders without credentials.
    pub fn new_with_names(player1_name: String, player2_name: String, tactical: bool) -> (state:
        GameState)
        ensures
            state@.wf(),
            state@.has_xp_room(),
            state@ == GameView::fresh(
                PlayerView::fresh(0, player1_name@, 0),
                PlayerView::fresh(1, player2_name@, far_corner(tactical)),
                chosen_map(tactical),
                state.turn_manager.current_turn.started_at,
            ),
    {
        let sectors = if tactical {
            Galaxy::create_tactical_map()
        } else {
            Galaxy::create_default_map()
        };
        let start2: u8 = if sectors.len() <= 8 {
            7
        } else {
            16
        };
        let player1 = Player::new(0, player1_name, 0);
        let player2 = Player::new(1, player2_name, start2);
        let mut event_log: Vec<String> = Vec::new();
        event_log.push(String::from_str("The solar empire awaits conquest..."));
        let state = GameState {
            players: [player1, player2],
            sectors,
            turn_number: 1,
            current_player: 0,
            game_over: false,
            event_log,
            turn_manager: TurnManager::new(),
        };
        proof {
            assert(state@.players =~= seq![
                PlayerView::fresh(0, player1_name@, 0),
                PlayerView::fresh(1, player2_name@, far_corner(tactical)),
            ]);
            assert(state@.event_log =~= seq![opening_line()]);
        }
        state
    }

    /// Puts the player's fleet into `sector`.
    pub(crate) fn relocate(&mut self, player_id: u8, sector: u8)
        requires
            old(self)@.wf(),
            player_id < 2,
            sector < old(self).sectors.len(),
        ensures
            final(self)@ == old(self)@.relocated(player_id, sector),
            final(self)@.follows(old(self)@),
            final(self)@.same_points(old(self)@),
            final(self)@.wf(),
    {
        self.players[player_id as usize].current_sector = sector;
        proof {
            let expected = old(self)@.relocated(player_id, sector);
            assert(self@.players =~= expected.players);
            lemma_player_change_keeps_wf(old(self)@, player_id, expected.players[player_id as int]);
        }
    }

    /// Takes `cost` action points from the player.
    pub(crate) fn pay(&mut self, player_id: u8, cost: u8)
        requires
            old(self)@.wf(),
            player_id < 2,
            old(self).players[player_id as int].ap_remaining >= cost,
        ensures
            final(self)@ == old(self)@.paid(player_id, cost as int),
            final(self)@.follows(old(self)@),
            final(self)@.players[player_id as int].ap_remaining
                == old(self)@.players[player_id as int].ap_remaining - cost,
            forall|i: int|
                0 <= i < 2 && i != player_id ==> (#[trigger] final(self)@.players[i]).ap_remaining
                    == old(self)@.players[i].ap_remaining,
            final(self)@.wf(),
    {
        self.players[player_id as usize].ap_remaining -= cost;
        proof {
            let expected = old(self)@.paid(player_id, cost as int);
            assert(self@.players =~= expected.players);
            lemma_player_change_keeps_wf(old(self)@, player_id, expected.players[player_id as int]);
        }
    }

    /// Grants the player experience and resolves the level-ups it pays for.
    pub(crate) fn grant(&mut self, player_id: u8, experience: u32)
        requires
            old(self)@.wf(),
            player_id < 2,
            old(self).players[player_id as int].experience + experience <= u32::MAX,
        ensures
            final(self)@ == old(self)@.granted(player_id, experience as int),
            final(self)@.follows(old(self)@),
            final(self)@.same_points(old(self)@),
            final(self)@.wf(),
            final(self).players[player_id as int].experience
                <= old(self).players[player_id as int].experience + experience,
            final(self)@.players[player_id as int].fleet.command_centers
                >= old(self)@.players[player_id as int].fleet.command_centers,
    {
        self.players[player_id as usize].gain_experience(experience);
        proof {
            let expected = old(self)@.granted(player_id, experience as int);
            assert(self@.players =~= expected.players);
            crate::engine::player::lemma_promotion_keeps_wf(
                old(self)@.players[player_id as int].with_experience(experience as int),
            );
            lemma_player_change_keeps_wf(old(self)@, player_id, expected.players[player_id as int]);
        }
    }

    /// Applies damage to the player.
    pub(crate) fn strike(&mut self, player_id: u8, damage: i32)
        requires
            old(self)@.wf(),
            player_id < 2,
            damage >= 0,
        ensures
            final(self)@ == old(self)@.struck(player_id, damage as int),
            final(self)@.follows(old(self)@),
            final(self)@.same_points(old(self)@),
            final(self)@.wf(),
    {
        self.players[player_id as usize].take_damage(damage);
        proof {
            let expected = old(self)@.struck(player_id, damage as int);
            assert(self@.players =~= expected.players);
            lemma_player_change_keeps_wf(old(self)@, player_id, expected.players[player_id as int]);
        }
    }

    /// Restores up to `amount` health, never past the cap of the level.
    pub(crate) fn heal(&mut self, player_id: u8, amount: u8)
        requires
            old(self)@.wf(),
            player_id < 2,
            old(self)@.players[player_id as int].health
                < old(self)@.players[player_id as int].health_cap(),
        ensures
            final(self)@ == old(self)@.healed(player_id, amount as int),
            final(self)@.follows(old(self)@),
            final(self)@.same_points(old(self)@),
            final(self)@.wf(),
    {
        let cap: i32 = 100 + (self.players[player_id as usize].level as i32 - 1) * 20;
        let player = &mut self.players[player_id as usize];
        if player.health + amount as i32 > cap {
            player.health = cap;
        } else {
            player.health = player.health + amount as i32;
        }
        proof {
            let expected = old(self)@.healed(player_id, amount as int);
            assert(self@.players =~= expected.players);
            reveal_with_fuel(crate::engine::player::pending_bonus, 11);
            lemma_player_change_keeps_wf(old(self)@, player_id, expected.players[player_id as int]);
        }
    }

    /// Marks the sector as seen by the player.
    pub(crate) fn show_sector(&mut self, sector_id: u8, player_id: u8)
        requires
            old(self)@.wf(),
            sector_id < old(self).sectors.len(),
        ensures
            final(self)@ == old(self)@.revealed(sector_id, player_id),
            final(self)@.follows(old(self)@),
            final(self)@.same_points(old(self)@),
            final(self)@.wf(),
    {
        self.sectors[sector_id as usize].reveal_to(player_id);
        proof {
            let expected = old(self)@.revealed(sector_id, player_id);
            assert(self@.sectors =~= expected.sectors);
            assert(self@.players =~= expected.players);
            lemma_sector_change_keeps_wf(old(self)@, sector_id, expected.sectors[sector_id as int]);
        }
    }

    /// Hands the sector to the player.
    pub(crate) fn take_sector(&mut self, sector_id: u8, player_id: u8)
        requires
            old(self)@.wf(),
            sector_id < old(self).sectors.len(),
            player_id < 2,
        ensures
            final(self)@ == old(self)@.captured(sector_id, player_id),
            final(self)@.follows(old(self)@),
            final(self)@.same_points(old(self)@),
            final(self)@.wf(),
    {
        self.sectors[sector_id as usize].capture(player_id);
        proof {
            let expected = old(self)@.captured(sector_id, player_id);
            assert(self@.sectors =~= expected.sectors);
            assert(self@.players =~= expected.players);
            lemma_sector_change_keeps_wf(old(self)@, sector_id, expected.sectors[sector_id as int]);
        }
    }

    /// Sets or clears the sector's outpost flag.
    pub(crate) fn set_outpost(&mut self, sector_id: u8, present: bool)
        requires
            old(self)@.wf(),
            sector_id < old(self).sectors.len(),
        ensures
            final(self)@ == old(self)@.with_outpost(sector_id, present),
            final(self)@.follows(old(self)@),
            final(self)@.same_points(old(self)@),
            final(self)@.wf(),
    {
        self.sectors[sector_id as usize].has_outpost = present;
        proof {
            let expected = old(self)@.with_outpost(sector_id, present);
            assert(self@.sectors =~= expected.sectors);
            assert(self@.players =~= expected.players);
            lemma_sector_change_keeps_wf(old(self)@, sector_id, expected.sectors[sector_id as int]);
        }
    }

    /// Appends a line to the chronicle.
    pub(crate) fn log(&mut self, entry: String)
        ensures
            final(self)@ == old(self)@.logged(entry@),
            final(self)@.follows(old(self)@),
            final(self)@.same_points(old(self)@),
            old(self)@.wf() ==> final(self)@.wf(),
    {
        self.event_log.push(entry);
        proof {
            let expected = old(self)@.logged(entry@);
            assert(self@.event_log =~= expected.event_log);
            assert(self@.players =~= expected.players);
        }
    }

    /// Ends the game.
    pub(crate) fn finish(&mut self)
        ensures
            final(self)@ == old(self)@.ended(),
            final(self)@.follows(old(self)@),
            final(self)@.same_points(old(self)@),
            old(self)@.wf() ==> final(self)@.wf(),
    {
        self.game_over = true;
        proof {
            assert(self@.players =~= old(self)@.players);
        }
    }

    /// Hops from one sector to another by breadth-first search; the sentinel
    /// where no path joins them.
    pub fn calculate_sector_distance(&self, from: u8, to: u8) -> (distance: u8)
        requires
            graph_wf(self@.sectors),
        ensures
            distance == self@.distance(from, to),
            distance == 0 <==> from == to,
    {
        hop_count(&self.sectors, from, to)
    }

    /// Whether `target` lies exactly two links from `from`: a neighbour of
    /// some neighbour.
    pub fn can_scan_extended(&self, from_sector: u8, target_sector: u8) -> (able: bool)
        requires
            graph_wf(self@.sectors),
            from_sector < self.sectors.len(),
        ensures
            able == exists|mid: u8|
                linked(self@.sectors, from_sector, mid) && linked(self@.sectors, mid, target_sector),
    {
        let current = &self.sectors[from_sector as usize];
        assert(current@ == self@.sectors[from_sector as int]);
        let mut i: usize = 0;
        while i < current.adjacent.len()
            invariant
                0 <= i <= current.adjacent.len(),
                graph_wf(self@.sectors),
                from_sector < self.sectors.len(),
                current@ == self@.sectors[from_sector as int],
                forall|k: int|
                    0 <= k < i ==> !linked(self@.sectors, #[trigger] current.adjacent@[k], target_sector),
            decreases current.adjacent.len() - i,
        {
            let mid = current.adjacent[i];
            assert(self@.sectors[from_sector as int].adjacent[i as int] == mid);
            assert(current@.adjacent.contains(mid));
            let sector = &self.sectors[mid as usize];
            assert(sector@ == self@.sectors[mid as int]);
            if sector.is_adjacent(target_sector) {
                assert(linked(self@.sectors, from_sector, mid));
                return true;
            }
            i += 1;
        }
        proof {
            assert forall|mid: u8|
                !(linked(self@.sectors, from_sector, mid) && linked(
                    self@.sectors,
                    mid,
                    target_sector,
                )) by {
                if linked(self@.sectors, from_sector, mid) {
                    let k = choose|k: int|
                        0 <= k < current@.adjacent.len() && current@.adjacent[k] == mid;
                    assert(!linked(self@.sectors, current.adjacent@[k], target_sector));
                }
            }
        }
        false
    }

    /// Opens the current turn for its player: a turn that waits becomes
    /// active and the player's action points are reset. A turn that is
    /// already complete is refused.
    pub fn run_single_turn(&mut self) -> (opened: Result<(), String>)
        requires
            old(self)@.wf(),
        ensures
            final(self)@.wf(),
            final(self)@.follows(old(self)@),
            opened is Err <==> old(self)@.turn_manager.current_turn.phase == TurnPhase::Complete,
            opened matches Err(reason) ==> reason@ == "It's not your turn!"@ && *final(self)
                == *old(self),
            old(self)@.turn_manager.current_turn.phase == TurnPhase::Active ==> *final(self)
                == *old(self),
            old(self)@.turn_manager.current_turn.phase == TurnPhase::WaitingForPlayer ==> final(self)@
                == old(self)@.turn_started(final(self).turn_manager.current_turn.started_at),
    {
        let player_id = self.turn_manager.current_turn.active_player;
        if !self.turn_manager.can_player_act(player_id) {
            return Err(String::from_str("It's not your turn!"));
        }
        if self.turn_manager.current_turn.phase == TurnPhase::WaitingForPlayer {
            self.turn_manager.current_turn.start();
            self.players[player_id as usize].reset_ap();
            proof {
                let now = self.turn_manager.current_turn.started_at;
                let expected = old(self)@.turn_started(now);
                assert(self@.players =~= expected.players);
                assert(self@.turn_manager.turn_history == expected.turn_manager.turn_history);
                lemma_player_change_keeps_wf(
                    old(self)@,
                    player_id,
                    old(self)@.players[player_id as int].with_ap_reset(),
                );
            }
        }
        Ok(())
    }

    /// The single way to change a game by a command of the form
    /// `<verb> [args...]`: the player must be one of the two and on turn, the
    /// command must name an action, and the action must pass validation and
    /// be paid for. Then it is carried out and recorded, and the turn ends if
    /// the player has no action points left. A refused command changes
    /// nothing.
    pub fn execute_command(&mut self, player_id: u8, command: &str) -> (outcome: CommandOutcome)
        requires
            old(self)@.wf(),
            old(self)@.has_xp_room_for(player_id),
            old(self)@.turn_manager.can_advance(),
        ensures
            final(self)@.wf(),
            final(self)@.answers_words(old(self)@, outcome@, player_id, words_of(command@)),
            !outcome.success ==> *final(self) == *old(self),
            final(self)@.follows(old(self)@),
    {
        if player_id >= 2 {
            return CommandOutcome::failure(
                ActionError::new(ErrorKind::NotFound, "Player not found"),
            );
        }
        if !self.turn_manager.can_player_act(player_id) {
            return CommandOutcome::failure(
                ActionError::new(ErrorKind::PermissionDenied, "It's not your turn!"),
            );
        }
        let words = split_words(command);
        match parse_words(&words, self, player_id) {
            Err(error) => CommandOutcome::failure(error),
            Ok(action) => {
                assert(words@.len() > 0);
                assert(crate::text::texts(words@)[0] == words@[0]@);
                self.perform(player_id, &action, words[0].as_str())
            },
        }
    }

    /// Carries out an action of the player as a command does: after the
    /// player's standing, validation and payment are settled, with a record under `label` in the
    /// turn's log, and the end of the turn once the action points are spent.
    pub fn perform(&mut self, player_id: u8, action: &ActionType, label: &str) -> (outcome:
        CommandOutcome)
        requires
            old(self)@.wf(),
            old(self)@.has_xp_room_for(player_id),
            old(self)@.turn_manager.can_advance(),
        ensures
            final(self)@.wf(),
            final(self)@.answers(old(self)@, outcome@, player_id, *action, label@),
            !outcome.success ==> *final(self) == *old(self),
            outcome.success ==> outcome.ap_spent == action.price(),
            final(self)@.follows(old(self)@),
    {
        if player_id >= 2 {
            return CommandOutcome::failure(
                ActionError::new(ErrorKind::NotFound, "Player not found"),
            );
        }
        if !self.turn_manager.can_player_act(player_id) {
            return CommandOutcome::failure(
                ActionError::new(ErrorKind::PermissionDenied, "It's not your turn!"),
            );
        }
        match action.execute(self, player_id) {
            Err(error) => CommandOutcome::failure(error),
            Ok(report) => {
                let ghost done = self@;
                self.turn_manager.current_turn.record_action(label, report.as_str(), action.cost());
                let ghost stamp = self@.turn_manager.current_turn.actions_taken.last().timestamp;
                let ghost noted = self@;
                proof {
                    assert(self@.players =~= done.players);
                    assert(self@.turn_manager.turn_history == done.turn_manager.turn_history);
                    assert(noted == done.noted(
                        ActionRecordView {
                            action_type: label@,
                            details: report@,
                            ap_cost: action.price(),
                            timestamp: stamp,
                        },
                    ));
                    assert(noted.wf());
                    assert(noted.follows(done));
                }
                if self.players[player_id as usize].ap_remaining == 0 {
                    self.end_turn(player_id);
                }
                proof {
                    let now = self.turn_manager.current_turn.started_at;
                    assert(self@ == old(self)@.performed(player_id, *action, label@, stamp, now));
                }
                CommandOutcome {
                    success: true,
                    message: report,
                    ap_spent: action.cost(),
                    error: None,
                }
            },
        }
    }

    /// Closes the turn of `player_id`: the turn is completed, the player's
    /// pending level-ups are resolved, and the next turn waits for the other
    /// player.
    pub fn end_turn(&mut self, player_id: u8)
        requires
            old(self)@.wf(),
            old(self)@.turn_manager.can_advance(),
            player_id < 2,
        ensures
            final(self)@.wf(),
            final(self)@ == old(self)@.turn_ended(
                player_id,
                final(self).turn_manager.current_turn.started_at,
            ),
            final(self).game_over == old(self).game_over,
            final(self)@.follows(old(self)@),
            final(self)@.same_points(old(self)@),
    {
        self.turn_manager.current_turn.complete();
        let level_before = self.players[player_id as usize].level;
        self.players[player_id as usize].check_level_up();
        proof {
            assert(self@.players =~= old(self)@.players.update(
                player_id as int,
                old(self)@.players[player_id as int].promoted(),
            ));
            crate::engine::player::lemma_promotion_keeps_wf(old(self)@.players[player_id as int]);
            lemma_player_change_keeps_wf(
                old(self)@,
                player_id,
                old(self)@.players[player_id as int].promoted(),
            );
        }
        if self.players[player_id as usize].level > level_before {
            let mut line = String::from_str(self.players[player_id as usize].name.as_str());
            line.append(" achieved rank of ");
            line.append(self.players[player_id as usize].rank.as_str());
            line.append("!");
            self.log(line);
        }
        let ghost told = self@;
        self.turn_manager.advance_turn();
        self.turn_number = self.turn_manager.current_turn.number;
        self.current_player = self.turn_manager.current_turn.active_player;
        proof {
            let now = self.turn_manager.current_turn.started_at;
            let expected = old(self)@.turn_ended(player_id, now);
            assert(self@.players =~= told.players);
            assert(self@.event_log =~= told.event_log);
            assert(self@.turn_manager.turn_history =~= expected.turn_manager.turn_history);
            assert(self@ == expected);
        }
    }

    /// The player gives up the game.
    pub fn forfeit(&mut self, player_id: u8)
        requires
            old(self)@.wf(),
            player_id < 2,
        ensures
            final(self)@ == old(self)@.forfeited(player_id),
            final(self)@.wf(),
            final(self).game_over,
            final(self)@.follows(old(self)@),
    {
        self.finish();
        let mut line = String::from_str(self.players[player_id as usize].rank.as_str());
        line.append(" ");
        line.append(self.players[player_id as usize].name.as_str());
        line.append(" abandoned the campaign.");
        self.log(line);
    }

    /// Appends a line of narrative to the chronicle.
    pub fn add_event(&mut self, entry: String)
        ensures
            final(self)@ == old(self)@.logged(entry@),
            old(self)@.wf() ==> final(self)@.wf(),
            final(self)@.follows(old(self)@),
    {
        self.log(entry);
    }

    /// The player who is declared the winner once the game is over: the
    /// first player if alive, else the second.
    pub fn winner(&self) -> (player_id: u8)
        ensures
            player_id == self@.winner(),
    {
        if self.players[0].is_alive() {
            0
        } else {
            1
        }
    }

    /// How many sectors the player holds.
    pub fn sectors_controlled(&self, player_id: u8) -> (count: usize)
        ensures
            count == held_by(self@.sectors, player_id),
    {
        let mut count: usize = 0;
        let mut i: usize = 0;
        while i < self.sectors.len()
            invariant
                0 <= i <= self.sectors.len(),
                count == held_by(self@.sectors.take(i as int), player_id),
                count <= i,
            decreases self.sectors.len() - i,
        {
            proof {
                assert(self@.sectors.take(i + 1).drop_last() =~= self@.sectors.take(i as int));
                assert(self@.sectors.take(i + 1).last() == self.sectors@[i as int]@);
            }
            let held = match self.sectors[i].owner {
                Some(owner) => owner == player_id,
                None => false,
            };
            if held {
                count += 1;
            }
            i += 1;
        }
        proof {
            assert(self@.sectors.take(i as int) =~= self@.sectors);
        }
        count
    }

    /// Whether the game meets its invariant.
    pub fn is_well_formed(&self) -> (sound: bool)
        ensures
            sound == self@.wf(),
    {
        if !is_graph(&self.sectors) {
            return false;
        }
        let n = self.sectors.len();
        let mut p: usize = 0;
        while p < 2
            invariant
                0 <= p <= 2,
                n == self.sectors.len(),
                forall|i: int|
                    0 <= i < p ==> (#[trigger] self@.players[i]).wf() && self@.players[i].id == i
                        && self@.players[i].current_sector < n,
            decreases 2 - p,
        {
            let player = &self.players[p];
            assert(player@ == self@.players[p as int]);
            if !player.is_well_formed() || player.id as usize != p || player.current_sector as usize
                >= n {
                return false;
            }
            p += 1;
        }
        let mut s: usize = 0;
        while s < n
            invariant
                0 <= s <= n,
                n == self.sectors.len(),
                forall|k: int|
                    0 <= k < s ==> ((#[trigger] self@.sectors[k]).owner matches Some(owner) ==> owner
                        < 2),
            decreases n - s,
        {
            assert(self.sectors@[s as int]@ == self@.sectors[s as int]);
            match self.sectors[s].owner {
                Some(owner) => {
                    if owner >= 2 {
                        return false;
                    }
                },
                None => {},
            }
            s += 1;
        }
        self.turn_manager.current_turn.active_player <= 1 && self.turn_number
            == self.turn_manager.current_turn.number && self.current_player
            == self.turn_manager.current_turn.active_player
    }

    /// Whether the game is well-formed and has room for one more command:
    /// for the experience it may bring and for the turn it may end.
    pub fn is_ready(&self) -> (ready: bool)
        ensures
            ready == (self@.wf() && self@.has_xp_room() && self@.turn_manager.can_advance()),
    {
        if !self.is_well_formed() {
            return false;
        }
        assert(self@.players[0] == self.players@[0]@);
        assert(self@.players[1] == self.players@[1]@);
        self.players[0].experience <= u32::MAX - MAX_ACTION_XP && self.players[1].experience
            <= u32::MAX - MAX_ACTION_XP && self.turn_manager.current_turn.number < u32::MAX
    }
}

/// How many of the sectors the player holds.
pub open spec fn held_by(sectors: Seq<SectorView>, player_id: u8) -> nat
    decreases sectors.len(),
{
    if sectors.len() == 0 {
        0
    } else {
        held_by(sectors.drop_last(), player_id) + if sectors.last().owner == Some(player_id) {
            1nat
        } else {
            0nat
        }
    }
}

/// The chronicle's line for a promotion.
pub open spec fn promotion_text(name: Seq<char>, rank: Seq<char>) -> Seq<char> {
    name + " achieved rank of "@ + rank + "!"@
}

/// Where the second player starts: the corner opposite the first player's.
pub open spec fn far_corner(tactical: bool) -> u8 {
    if tactical {
        7
    } else {
        16
    }
}

/// The map of a game.
pub open spec fn chosen_map(tactical: bool) -> Seq<SectorView> {
    if tactical {
        tactical_map()
    } else {
        strategic_map()
    }
}

/// A player with the hash of `password` stored, or unchanged where the
/// password is empty.
pub open spec fn credentialed(player: PlayerView, password: Seq<char>) -> PlayerView {
    if password.len() > 0 {
        player.with_password_hash(crate::engine::player::sha256_hex(password))
    } else {
        player
    }
}

} // verus!
