use crate::engine::game::GameState;
use crate::engine::game::GameView;
use crate::engine::turn::opponent;
use crate::map::graph::linked;
use crate::text::decimal;
use crate::text::decimal_string;
use crate::text::parse_u8;
use crate::text::parsed_u8;
use crate::text::same_text;
use crate::text::signed_decimal;
use crate::text::signed_decimal_string;
use crate::text::split_words;
use crate::text::texts;
use crate::text::words_of;
use vstd::prelude::*;
use vstd::string::StringExecFns;

verus! {

pub const MOVE_COST: u8 = 5;

pub const ATTACK_COST: u8 = 8;

pub const SCAN_COST: u8 = 3;

pub const BUILD_COST: u8 = 10;

pub const REINFORCE_COST: u8 = 15;

pub const SABOTAGE_COST: u8 = 12;

pub const ORBITAL_STRIKE_COST: u8 = 20;

pub const XP_MOVE: u32 = 10;

pub const XP_ATTACK: u32 = 25;

pub const XP_SCAN: u32 = 5;

pub const XP_BUILD: u32 = 30;

pub const XP_CAPTURE: u32 = 50;

pub const XP_KILL_BONUS: u32 = 200;

pub const XP_REINFORCE: u32 = 15;

pub const XP_SABOTAGE: u32 = 40;

pub const XP_ORBITAL_STRIKE: u32 = 50;

/// Damage of an attack before the attacker's level bonus.
pub const BASE_DAMAGE: i32 = 10;

/// Damage of an orbital strike that finds the enemy fleet.
pub const ORBITAL_STRIKE_DAMAGE: i32 = 30;

/// Health that one reinforcement restores at most.
pub const REINFORCE_HEAL: u8 = 20;

/// Why an action was refused.
#[derive(Debug, Clone, Copy, PartialEq, Eq, Structural)]
pub enum ErrorKind {
    /// A player or sector that does not exist.
    NotFound,
    /// A target that the action cannot reach or act on.
    InvalidTarget,
    /// Fewer action points than the action costs.
    InsufficientResource,
    /// The player is not entitled to the action.
    PermissionDenied,
    /// What the action would bring about already holds.
    AlreadyInState,
}

/// A refused action: the kind of refusal and a reason to show the player.
#[derive(Debug, Clone)]
pub struct ActionError {
    pub kind: ErrorKind,
    pub message: String,
}

/// A refusal as plain values.
pub struct Refusal {
    pub kind: ErrorKind,
    pub message: Seq<char>,
}

impl View for ActionError {
    type V = Refusal;

    open spec fn view(&self) -> Refusal {
        Refusal { kind: self.kind, message: self.message@ }
    }
}

impl ActionError {
    pub fn new(kind: ErrorKind, message: &str) -> (error: ActionError)
        ensures
            error@ == (Refusal { kind, message: message@ }),
    {
        ActionError { kind, message: String::from_str(message) }
    }

    /// The reason, for display.
    pub fn to_string(&self) -> (text: String)
        ensures
            text@ == self@.message,
    {
        self.message.clone()
    }
}

pub open spec fn refused(kind: ErrorKind, message: Seq<char>) -> Option<Refusal> {
    Some(Refusal { kind, message })
}

/// Whether the outcome of a validation is the one the rules give.
pub open spec fn confirms(verdict: Result<(), ActionError>, refusal: Option<Refusal>) -> bool {
    match verdict {
        Ok(()) => refusal is None,
        Err(error) => refusal == Some(error@),
    }
}

pub open spec fn short_of_points_text(cost: u8, available: int) -> Seq<char> {
    "Not enough AP! (Need "@ + decimal(cost as nat) + " AP, have "@ + decimal(available as nat)
        + ")"@
}

/// A refusal stands; an action that passed validation is still refused
/// where the player has fewer action points than it costs.
pub open spec fn affordable(
    refusal: Option<Refusal>,
    state: GameView,
    player_id: u8,
    cost: u8,
) -> Option<Refusal> {
    match refusal {
        Some(reason) => Some(reason),
        None => if state.players[player_id as int].ap_remaining < cost {
            refused(
                ErrorKind::InsufficientResource,
                short_of_points_text(cost, state.players[player_id as int].ap_remaining),
            )
        } else {
            None
        },
    }
}

fn check_affordable(state: &GameState, player_id: u8, cost: u8) -> (verdict: Result<
    (),
    ActionError,
>)
    requires
        player_id < 2,
    ensures
        confirms(verdict, affordable(None, state@, player_id, cost)),
{
    let available = state.players[player_id as usize].ap_remaining;
    if available < cost {
        let mut message = String::from_str("Not enough AP! (Need ");
        message.append(decimal_string(cost as u64).as_str());
        message.append(" AP, have ");
        message.append(decimal_string(available as u64).as_str());
        message.append(")");
        Err(ActionError { kind: ErrorKind::InsufficientResource, message })
    } else {
        Ok(())
    }
}

/// The chronicle's line for a deed: rank, name, what was done, and to what.
pub open spec fn deed_text(
    rank: Seq<char>,
    name: Seq<char>,
    deed: Seq<char>,
    object: Seq<char>,
) -> Seq<char> {
    rank + " "@ + name + deed + object
}

fn deed_line(rank: &str, name: &str, deed: &str, object: &str) -> (line: String)
    ensures
        line@ == deed_text(rank@, name@, deed@, object@),
{
    let mut line = String::from_str(rank);
    line.append(" ");
    line.append(name);
    line.append(deed);
    line.append(object);
    line
}

/// Move the fleet to a neighbouring sector.
#[derive(Debug, Clone, Copy)]
pub struct MoveAction {
    pub from: u8,
    pub to: u8,
}

impl MoveAction {
    pub open spec fn refusal(self, state: GameView, player_id: u8) -> Option<Refusal> {
        if player_id >= 2 {
            refused(ErrorKind::NotFound, "Player not found"@)
        } else if state.players[player_id as int].current_sector != self.from {
            refused(ErrorKind::InvalidTarget, "You are not in the specified sector"@)
        } else if !state.sectors[self.from as int].is_adjacent(self.to) {
            refused(
                ErrorKind::InvalidTarget,
                "Sector "@ + decimal(self.to as nat)
                    + " is not adjacent to your current location"@,
            )
        } else if self.to >= state.sectors.len() {
            refused(ErrorKind::NotFound, "Invalid target sector"@)
        } else {
            None
        }
    }

    pub open spec fn rejection(self, state: GameView, player_id: u8) -> Option<Refusal> {
        affordable(self.refusal(state, player_id), state, player_id, MOVE_COST)
    }

    /// The game once the fleet has arrived: the player is in the new sector,
    /// has paid and been rewarded, and has seen the sector.
    pub open spec fn arrival(self, state: GameView, player_id: u8) -> GameView {
        state.relocated(player_id, self.to).paid(player_id, MOVE_COST as int).granted(
            player_id,
            XP_MOVE as int,
        ).revealed(self.to, player_id)
    }

    /// An unowned sector falls to a fleet that, on arrival, holds a command
    /// center.
    pub open spec fn captures(self, state: GameView, player_id: u8) -> bool {
        let arrived = self.arrival(state, player_id);
        arrived.sectors[self.to as int].owner is None
            && arrived.players[player_id as int].can_capture_sector()
    }

    /// Who owns the target after a move that was carried out: the owner it
    /// had, if it had one; else the mover exactly if the mover's fleet holds
    /// a command center, as it does whenever it held one before the move.
    pub open spec fn ownership_settled(self, before: GameView, after: GameView, player_id: u8) -> bool {
        let was = before.sectors[self.to as int].owner;
        let now = after.sectors[self.to as int].owner;
        let mover = after.players[player_id as int];
        &&& was is Some ==> now == was
        &&& was is None ==> (now == Some(player_id) <==> mover.can_capture_sector())
        &&& was is None ==> (now is None <==> !mover.can_capture_sector())
        &&& was is None && before.players[player_id as int].can_capture_sector() ==> now == Some(
            player_id,
        )
    }

    pub open spec fn outcome(self, state: GameView, player_id: u8) -> GameView {
        let arrived = self.arrival(state, player_id);
        let settled = if self.captures(state, player_id) {
            arrived.captured(self.to, player_id).granted(player_id, XP_CAPTURE as int)
        } else {
            arrived
        };
        settled.logged(
            deed_text(
                settled.players[player_id as int].rank,
                settled.players[player_id as int].name,
                " moved fleet to "@,
                state.sectors[self.to as int].name,
            ),
        )
    }

    pub open spec fn report(self, state: GameView, player_id: u8) -> Seq<char> {
        let arrived = "Fleet moved to "@ + state.sectors[self.to as int].name + " (+10 XP)"@;
        if self.captures(state, player_id) {
            arrived + "\nSector captured! (+50 XP)"@
        } else {
            arrived
        }
    }

    pub fn cost(&self) -> (cost: u8)
        ensures
            cost == MOVE_COST,
    {
        MOVE_COST
    }

    pub fn required_level(&self) -> (level: u8)
        ensures
            level == 1,
    {
        1
    }

    pub fn validate(&self, state: &GameState, player_id: u8) -> (verdict: Result<(), ActionError>)
        requires
            state@.wf(),
        ensures
            confirms(verdict, self.refusal(state@, player_id)),
            player_id < 2 && !linked(state@.sectors, self.from, self.to) ==> (
            verdict matches Err(error) && error.kind == ErrorKind::InvalidTarget),
    {
        if player_id >= 2 {
            return Err(ActionError::new(ErrorKind::NotFound, "Player not found"));
        }
        let player = &state.players[player_id as usize];
        if player.current_sector != self.from {
            return Err(
                ActionError::new(ErrorKind::InvalidTarget, "You are not in the specified sector"),
            );
        }
        let current_sector = &state.sectors[self.from as usize];
        if !current_sector.is_adjacent(self.to) {
            let mut message = String::from_str("Sector ");
            message.append(decimal_string(self.to as u64).as_str());
            message.append(" is not adjacent to your current location");
            return Err(ActionError { kind: ErrorKind::InvalidTarget, message });
        }
        if self.to as usize >= state.sectors.len() {
            return Err(ActionError::new(ErrorKind::NotFound, "Invalid target sector"));
        }
        Ok(())
    }

    /// Validates the move, checks that it can be paid for, and carries it
    /// out. A refused move leaves the game untouched.
    pub fn execute(&self, state: &mut GameState, player_id: u8) -> (result: Result<
        String,
        ActionError,
    >)
        requires
            old(state)@.wf(),
            old(state)@.has_xp_room_for(player_id),
        ensures
            final(state)@.wf(),
            match result {
                Ok(report) => self.rejection(old(state)@, player_id) is None && final(state)@
                    == self.outcome(old(state)@, player_id) && report@ == self.report(
                    old(state)@,
                    player_id,
                ),
                Err(error) => self.rejection(old(state)@, player_id) == Some(error@) && *final(state)
                    == *old(state),
            },
            result is Ok ==> player_id < 2 && final(state)@.players[player_id as int].ap_remaining
                == old(state)@.players[player_id as int].ap_remaining - MOVE_COST,
            final(state)@.follows(old(state)@),
            player_id < 2 && !linked(old(state)@.sectors, self.from, self.to) ==> (
            result matches Err(error) && error.kind == ErrorKind::InvalidTarget),
            result is Ok ==> self.ownership_settled(old(state)@, final(state)@, player_id),
    {
        match self.validate(state, player_id) {
            Err(error) => {
                return Err(error);
            },
            Ok(()) => {},
        }
        match check_affordable(state, player_id, MOVE_COST) {
            Err(error) => {
                return Err(error);
            },
            Ok(()) => {},
        }
        state.relocate(player_id, self.to);
        state.pay(player_id, MOVE_COST);
        state.grant(player_id, XP_MOVE);
        state.show_sector(self.to, player_id);
        assert(state@ == self.arrival(old(state)@, player_id));
        let mut report = String::from_str("Fleet moved to ");
        report.append(state.sectors[self.to as usize].name.as_str());
        report.append(" (+10 XP)");
        if state.sectors[self.to as usize].owner.is_none()
            && state.players[player_id as usize].can_capture_sector() {
            state.take_sector(self.to, player_id);
            state.grant(player_id, XP_CAPTURE);
            report.append("\nSector captured! (+50 XP)");
        }
        let entry = deed_line(
            state.players[player_id as usize].rank.as_str(),
            state.players[player_id as usize].name.as_str(),
            " moved fleet to ",
            state.sectors[self.to as usize].name.as_str(),
        );
        assert(state@.sectors[self.to as int].name == old(state)@.sectors[self.to as int].name);
        state.log(entry);
        Ok(report)
    }
}

/// Attack the other player's fleet in the same sector.
#[derive(Debug, Clone, Copy)]
pub struct AttackAction {
    pub target_player: u8,
}

impl AttackAction {
    pub open spec fn refusal(self, state: GameView, player_id: u8) -> Option<Refusal> {
        if player_id >= 2 {
            refused(ErrorKind::NotFound, "Player not found"@)
        } else if self.target_player >= 2 {
            refused(ErrorKind::NotFound, "Target player not found"@)
        } else if self.target_player == player_id {
            refused(ErrorKind::InvalidTarget, "Cannot attack yourself"@)
        } else if state.players[player_id as int].current_sector
            != state.players[self.target_player as int].current_sector {
            refused(ErrorKind::InvalidTarget, "Target is not in the same sector"@)
        } else if !state.players[self.target_player as int].is_alive() {
            refused(ErrorKind::InvalidTarget, "Target is already defeated"@)
        } else {
            None
        }
    }

    pub open spec fn rejection(self, state: GameView, player_id: u8) -> Option<Refusal> {
        affordable(self.refusal(state, player_id), state, player_id, ATTACK_COST)
    }

    /// Base damage plus the bonus of the attacker's level.
    pub open spec fn damage(self, state: GameView, player_id: u8) -> int {
        BASE_DAMAGE + state.players[player_id as int].damage_bonus()
    }

    /// The game once the blow has landed and the attacker has paid and been
    /// rewarded.
    pub open spec fn exchange(self, state: GameView, player_id: u8) -> GameView {
        state.struck(self.target_player, self.damage(state, player_id)).paid(
            player_id,
            ATTACK_COST as int,
        ).granted(player_id, XP_ATTACK as int)
    }

    /// How the target and the game stand after an attack that was carried
    /// out: the target has lost the damage, down to zero at most; the game
    /// is over if the target has no health left, and else as it was.
    pub open spec fn blow_landed(self, before: GameView, after: GameView, player_id: u8) -> bool {
        let target = after.players[self.target_player as int];
        &&& target.health == before.players[self.target_player as int].damaged(
            self.damage(before, player_id),
        ).health
        &&& target.health >= 0
        &&& target.health == 0 ==> after.game_over
        &&& target.health > 0 ==> after.game_over == before.game_over
    }

    /// Whether the blow defeats the target.
    pub open spec fn defeats(self, state: GameView, player_id: u8) -> bool {
        !self.exchange(state, player_id).players[self.target_player as int].is_alive()
    }

    pub open spec fn outcome(self, state: GameView, player_id: u8) -> GameView {
        let fought = self.exchange(state, player_id);
        let attacker = state.players[player_id as int];
        let defender = state.players[self.target_player as int];
        if self.defeats(state, player_id) {
            fought.granted(player_id, XP_KILL_BONUS as int).ended().logged(
                deed_text(attacker.rank, attacker.name, " defeated "@, defender.name) + "!"@,
            )
        } else {
            fought.logged(
                deed_text(attacker.rank, attacker.name, " attacked "@, defender.name) + " for "@
                    + signed_decimal(self.damage(state, player_id)) + " damage"@,
            )
        }
    }

    pub open spec fn report(self, state: GameView, player_id: u8) -> Seq<char> {
        let fought = self.exchange(state, player_id);
        let defender = state.players[self.target_player as int];
        let blow = "Attacked "@ + defender.name + " for "@ + signed_decimal(
            self.damage(state, player_id),
        ) + " damage! (+25 XP)"@;
        if self.defeats(state, player_id) {
            blow + "\n"@ + defender.name + " has been defeated! (+200 XP)"@
        } else {
            blow + "\n"@ + defender.name + " health: "@ + signed_decimal(
                fought.players[self.target_player as int].health,
            ) + " HP"@
        }
    }

    pub fn cost(&self) -> (cost: u8)
        ensures
            cost == ATTACK_COST,
    {
        ATTACK_COST
    }

    pub fn required_level(&self) -> (level: u8)
        ensures
            level == 1,
    {
        1
    }

    pub fn validate(&self, state: &GameState, player_id: u8) -> (verdict: Result<(), ActionError>)
        requires
            state@.wf(),
        ensures
            confirms(verdict, self.refusal(state@, player_id)),
    {
        if player_id >= 2 {
            return Err(ActionError::new(ErrorKind::NotFound, "Player not found"));
        }
        if self.target_player >= 2 {
            return Err(ActionError::new(ErrorKind::NotFound, "Target player not found"));
        }
        let attacker = &state.players[player_id as usize];
        let defender = &state.players[self.target_player as usize];
        if self.target_player == player_id {
            return Err(ActionError::new(ErrorKind::InvalidTarget, "Cannot attack yourself"));
        }
        if attacker.current_sector != defender.current_sector {
            return Err(
                ActionError::new(ErrorKind::InvalidTarget, "Target is not in the same sector"),
            );
        }
        if !defender.is_alive() {
            return Err(ActionError::new(ErrorKind::InvalidTarget, "Target is already defeated"));
        }
        Ok(())
    }

    /// Validates the attack, checks that it can be paid for, and carries it
    /// out. A refused attack leaves the game untouched.
    pub fn execute(&self, state: &mut GameState, player_id: u8) -> (result: Result<
        String,
        ActionError,
    >)
        requires
            old(state)@.wf(),
            old(state)@.has_xp_room_for(player_id),
        ensures
            final(state)@.wf(),
            match result {
                Ok(report) => self.rejection(old(state)@, player_id) is None && final(state)@
                    == self.outcome(old(state)@, player_id) && report@ == self.report(
                    old(state)@,
                    player_id,
                ),
                Err(error) => self.rejection(old(state)@, player_id) == Some(error@) && *final(state)
                    == *old(state),
            },
            result is Ok ==> player_id < 2 && final(state)@.players[player_id as int].ap_remaining
                == old(state)@.players[player_id as int].ap_remaining - ATTACK_COST,
            final(state)@.follows(old(state)@),
            result is Ok ==> self.target_player < 2 && self.blow_landed(
                old(state)@,
                final(state)@,
                player_id,
            ),
    {
        match self.validate(state, player_id) {
            Err(error) => {
                return Err(error);
            },
            Ok(()) => {},
        }
        match check_affordable(state, player_id, ATTACK_COST) {
            Err(error) => {
                return Err(error);
            },
            Ok(()) => {},
        }
        let damage = BASE_DAMAGE + state.players[player_id as usize].get_damage_bonus();
        let damage_text = signed_decimal_string(damage as i64);
        let mut entry = deed_line(
            state.players[player_id as usize].rank.as_str(),
            state.players[player_id as usize].name.as_str(),
            if state.players[self.target_player as usize].health <= damage {
                " defeated "
            } else {
                " attacked "
            },
            state.players[self.target_player as usize].name.as_str(),
        );
        let mut report = String::from_str("Attacked ");
        report.append(state.players[self.target_player as usize].name.as_str());
        report.append(" for ");
        report.append(damage_text.as_str());
        report.append(" damage! (+25 XP)");
        report.append("\n");
        report.append(state.players[self.target_player as usize].name.as_str());
        state.strike(self.target_player, damage);
        state.pay(player_id, ATTACK_COST);
        state.grant(player_id, XP_ATTACK);
        assert(state@ == self.exchange(old(state)@, player_id));
        if !state.players[self.target_player as usize].is_alive() {
            state.grant(player_id, XP_KILL_BONUS);
            state.finish();
            report.append(" has been defeated! (+200 XP)");
            entry.append("!");
        } else {
            let health = signed_decimal_string(
                state.players[self.target_player as usize].health as i64,
            );
            report.append(" health: ");
            report.append(health.as_str());
            report.append(" HP");
            entry.append(" for ");
            entry.append(damage_text.as_str());
            entry.append(" damage");
        }
        state.log(entry);
        Ok(report)
    }
}

/// Look at a sector within scan range.
#[derive(Debug, Clone, Copy)]
pub struct ScanAction {
    pub sector: u8,
}

impl ScanAction {
    /// How far the player's scanners reach, in hops.
    pub open spec fn range(state: GameView, player_id: u8) -> int {
        1 + state.players[player_id as int].scan_range_bonus()
    }

    pub open spec fn refusal(self, state: GameView, player_id: u8) -> Option<Refusal> {
        if player_id >= 2 {
            refused(ErrorKind::NotFound, "Player not found"@)
        } else if self.sector >= state.sectors.len() {
            refused(ErrorKind::NotFound, "Invalid sector ID"@)
        } else if state.distance(state.players[player_id as int].current_sector, self.sector)
            > Self::range(state, player_id) {
            refused(
                ErrorKind::InvalidTarget,
                "Sector "@ + decimal(self.sector as nat) + " is out of scan range (max range: "@
                    + decimal(Self::range(state, player_id) as nat) + ")"@,
            )
        } else {
            None
        }
    }

    pub open spec fn rejection(self, state: GameView, player_id: u8) -> Option<Refusal> {
        affordable(self.refusal(state, player_id), state, player_id, SCAN_COST)
    }

    pub open spec fn outcome(self, state: GameView, player_id: u8) -> GameView {
        let scanned = state.revealed(self.sector, player_id).paid(player_id, SCAN_COST as int).granted(
            player_id,
            XP_SCAN as int,
        );
        scanned.logged(
            deed_text(
                scanned.players[player_id as int].rank,
                scanned.players[player_id as int].name,
                " scanned "@,
                state.sectors[self.sector as int].name,
            ),
        )
    }

    /// Who holds the sector, and whether an outpost stands there.
    pub open spec fn ownership_text(self, state: GameView) -> Seq<char> {
        let sector = state.sectors[self.sector as int];
        match sector.owner {
            Some(owner) => {
                let holder = "Controlled by: "@ + state.players[owner as int].name + "\n"@;
                if sector.has_outpost {
                    holder + "Has outpost: Yes\n"@
                } else {
                    holder
                }
            },
            None => "Uncontrolled sector\n"@,
        }
    }

    /// Whether the other player's fleet sits in the sector.
    pub open spec fn sighting_text(self, state: GameView, player_id: u8) -> Seq<char> {
        let enemy = state.players[opponent(player_id) as int];
        if enemy.current_sector == self.sector {
            "Enemy fleet detected: "@ + enemy.name + "\n"@
        } else {
            Seq::empty()
        }
    }

    pub open spec fn report(self, state: GameView, player_id: u8) -> Seq<char> {
        "Scanned "@ + state.sectors[self.sector as int].name + " (+5 XP)\n"@ + self.ownership_text(
            state,
        ) + self.sighting_text(state, player_id)
    }

    pub fn cost(&self) -> (cost: u8)
        ensures
            cost == SCAN_COST,
    {
        SCAN_COST
    }

    pub fn required_level(&self) -> (level: u8)
        ensures
            level == 1,
    {
        1
    }

    pub fn validate(&self, state: &GameState, player_id: u8) -> (verdict: Result<(), ActionError>)
        requires
            state@.wf(),
        ensures
            confirms(verdict, self.refusal(state@, player_id)),
    {
        if player_id >= 2 {
            return Err(ActionError::new(ErrorKind::NotFound, "Player not found"));
        }
        let player = &state.players[player_id as usize];
        let range = 1 + player.get_scan_range_bonus();
        if self.sector as usize >= state.sectors.len() {
            return Err(ActionError::new(ErrorKind::NotFound, "Invalid sector ID"));
        }
        let distance = state.calculate_sector_distance(player.current_sector, self.sector);
        if distance > range {
            let mut message = String::from_str("Sector ");
            message.append(decimal_string(self.sector as u64).as_str());
            message.append(" is out of scan range (max range: ");
            message.append(decimal_string(range as u64).as_str());
            message.append(")");
            return Err(ActionError { kind: ErrorKind::InvalidTarget, message });
        }
        Ok(())
    }

    fn ownership_line(&self, state: &GameState) -> (line: String)
        requires
            state@.wf(),
            self.sector < state.sectors.len(),
        ensures
            line@ == self.ownership_text(state@),
    {
        let sector = &state.sectors[self.sector as usize];
        assert(sector@ == state@.sectors[self.sector as int]);
        match sector.owner {
            Some(owner) => {
                let mut line = String::from_str("Controlled by: ");
                line.append(state.players[owner as usize].name.as_str());
                line.append("\n");
                if sector.has_outpost {
                    line.append("Has outpost: Yes\n");
                }
                line
            },
            None => String::from_str("Uncontrolled sector\n"),
        }
    }

    fn sighting_line(&self, state: &GameState, player_id: u8) -> (line: String)
        requires
            player_id < 2,
        ensures
            line@ == self.sighting_text(state@, player_id),
    {
        let enemy = &state.players[(1 - player_id) as usize];
        if enemy.current_sector == self.sector {
            let mut line = String::from_str("Enemy fleet detected: ");
            line.append(enemy.name.as_str());
            line.append("\n");
            line
        } else {
            String::new()
        }
    }

    /// Validates the scan, checks that it can be paid for, and carries it
    /// out. A refused scan leaves the game untouched.
    pub fn execute(&self, state: &mut GameState, player_id: u8) -> (result: Result<
        String,
        ActionError,
    >)
        requires
            old(state)@.wf(),
            old(state)@.has_xp_room_for(player_id),
        ensures
            final(state)@.wf(),
            match result {
                Ok(report) => self.rejection(old(state)@, player_id) is None && final(state)@
                    == self.outcome(old(state)@, player_id) && report@ == self.report(
                    old(state)@,
                    player_id,
                ),
                Err(error) => self.rejection(old(state)@, player_id) == Some(error@) && *final(state)
                    == *old(state),
            },
            result is Ok ==> player_id < 2 && final(state)@.players[player_id as int].ap_remaining
                == old(state)@.players[player_id as int].ap_remaining - SCAN_COST,
            final(state)@.follows(old(state)@),
    {
        match self.validate(state, player_id) {
            Err(error) => {
                return Err(error);
            },
            Ok(()) => {},
        }
        match check_affordable(state, player_id, SCAN_COST) {
            Err(error) => {
                return Err(error);
            },
            Ok(()) => {},
        }
        let mut report = String::from_str("Scanned ");
        report.append(state.sectors[self.sector as usize].name.as_str());
        report.append(" (+5 XP)\n");
        report.append(self.ownership_line(state).as_str());
        report.append(self.sighting_line(state, player_id).as_str());
        state.show_sector(self.sector, player_id);
        state.pay(player_id, SCAN_COST);
        state.grant(player_id, XP_SCAN);
        let entry = deed_line(
            state.players[player_id as usize].rank.as_str(),
            state.players[player_id as usize].name.as_str(),
            " scanned ",
            state.sectors[self.sector as usize].name.as_str(),
        );
        assert(state@.sectors[self.sector as int].name
            == old(state)@.sectors[self.sector as int].name);
        state.log(entry);
        Ok(report)
    }
}

/// Build an outpost in a sector the player holds and occupies.
#[derive(Debug, Clone, Copy)]
pub struct BuildAction {
    pub sector: u8,
}

impl BuildAction {
    pub open spec fn refusal(self, state: GameView, player_id: u8) -> Option<Refusal> {
        if player_id >= 2 {
            refused(ErrorKind::NotFound, "Player not found"@)
        } else if state.players[player_id as int].current_sector != self.sector {
            refused(
                ErrorKind::InvalidTarget,
                "You must be in a sector to build an outpost there"@,
            )
        } else if state.sectors[self.sector as int].owner != Some(player_id) {
            refused(
                ErrorKind::PermissionDenied,
                "You must control the sector to build an outpost"@,
            )
        } else if state.sectors[self.sector as int].has_outpost {
            refused(ErrorKind::AlreadyInState, "This sector already has an outpost"@)
        } else {
            None
        }
    }

    pub open spec fn rejection(self, state: GameView, player_id: u8) -> Option<Refusal> {
        affordable(self.refusal(state, player_id), state, player_id, BUILD_COST)
    }

    pub open spec fn outcome(self, state: GameView, player_id: u8) -> GameView {
        let built = state.with_outpost(self.sector, true).paid(player_id, BUILD_COST as int).granted(
            player_id,
            XP_BUILD as int,
        );
        built.logged(
            deed_text(
                built.players[player_id as int].rank,
                built.players[player_id as int].name,
                " built an outpost at "@,
                state.sectors[self.sector as int].name,
            ),
        )
    }

    pub open spec fn report(self, state: GameView, player_id: u8) -> Seq<char> {
        "[\u{e2}\u{2013}\u{a0}] Outpost constructed at "@ + state.sectors[self.sector as int].name
            + " (+30 XP)"@
    }

    pub fn cost(&self) -> (cost: u8)
        ensures
            cost == BUILD_COST,
    {
        BUILD_COST
    }

    pub fn required_level(&self) -> (level: u8)
        ensures
            level == 1,
    {
        1
    }

    pub fn validate(&self, state: &GameState, player_id: u8) -> (verdict: Result<(), ActionError>)
        requires
            state@.wf(),
        ensures
            confirms(verdict, self.refusal(state@, player_id)),
    {
        if player_id >= 2 {
            return Err(ActionError::new(ErrorKind::NotFound, "Player not found"));
        }
        let player = &state.players[player_id as usize];
        if player.current_sector != self.sector {
            return Err(
                ActionError::new(
                    ErrorKind::InvalidTarget,
                    "You must be in a sector to build an outpost there",
                ),
            );
        }
        let sector = &state.sectors[self.sector as usize];
        assert(sector@ == state@.sectors[self.sector as int]);
        let held = match sector.owner {
            Some(owner) => owner == player_id,
            None => false,
        };
        if !held {
            return Err(
                ActionError::new(
                    ErrorKind::PermissionDenied,
                    "You must control the sector to build an outpost",
                ),
            );
        }
        if sector.has_outpost {
            return Err(
                ActionError::new(ErrorKind::AlreadyInState, "This sector already has an outpost"),
            );
        }
        Ok(())
    }

    /// Validates the construction, checks that it can be paid for, and
    /// carries it out. A refused construction leaves the game untouched.
    pub fn execute(&self, state: &mut GameState, player_id: u8) -> (result: Result<
        String,
        ActionError,
    >)
        requires
            old(state)@.wf(),
            old(state)@.has_xp_room_for(player_id),
        ensures
            final(state)@.wf(),
            match result {
                Ok(report) => self.rejection(old(state)@, player_id) is None && final(state)@
                    == self.outcome(old(state)@, player_id) && report@ == self.report(
                    old(state)@,
                    player_id,
                ),
                Err(error) => self.rejection(old(state)@, player_id) == Some(error@) && *final(state)
                    == *old(state),
            },
            result is Ok ==> player_id < 2 && final(state)@.players[player_id as int].ap_remaining
                == old(state)@.players[player_id as int].ap_remaining - BUILD_COST,
            final(state)@.follows(old(state)@),
    {
        match self.validate(state, player_id) {
            Err(error) => {
                return Err(error);
            },
            Ok(()) => {},
        }
        match check_affordable(state, player_id, BUILD_COST) {
            Err(error) => {
                return Err(error);
            },
            Ok(()) => {},
        }
        state.set_outpost(self.sector, true);
        state.pay(player_id, BUILD_COST);
        state.grant(player_id, XP_BUILD);
        let entry = deed_line(
            state.players[player_id as usize].rank.as_str(),
            state.players[player_id as usize].name.as_str(),
            " built an outpost at ",
            state.sectors[self.sector as usize].name.as_str(),
        );
        let mut report = String::from_str("[\u{e2}\u{2013}\u{a0}] Outpost constructed at ");
        report.append(state.sectors[self.sector as usize].name.as_str());
        report.append(" (+30 XP)");
        assert(state@.sectors[self.sector as int].name
            == old(state)@.sectors[self.sector as int].name);
        state.log(entry);
        Ok(report)
    }
}

/// Restore some of the fleet's health.
#[derive(Debug, Clone, Copy)]
pub struct ReinforceAction;

impl ReinforceAction {
    pub open spec fn refusal(self, state: GameView, player_id: u8) -> Option<Refusal> {
        if player_id >= 2 {
            refused(ErrorKind::NotFound, "Player not found"@)
        } else if state.players[player_id as int].level < 3 {
            refused(
                ErrorKind::PermissionDenied,
                "Requires level 3 (current: "@ + decimal(state.players[player_id as int].level as nat)
                    + ")"@,
            )
        } else if state.players[player_id as int].health
            >= state.players[player_id as int].health_cap() {
            refused(ErrorKind::AlreadyInState, "Already at full health"@)
        } else {
            None
        }
    }

    pub open spec fn rejection(self, state: GameView, player_id: u8) -> Option<Refusal> {
        affordable(self.refusal(state, player_id), state, player_id, REINFORCE_COST)
    }

    /// The game once the fleet is mended, before the reward.
    pub open spec fn mended(self, state: GameView, player_id: u8) -> GameView {
        state.paid(player_id, REINFORCE_COST as int).healed(player_id, REINFORCE_HEAL as int)
    }

    pub open spec fn outcome(self, state: GameView, player_id: u8) -> GameView {
        let rewarded = self.mended(state, player_id).granted(player_id, XP_REINFORCE as int);
        rewarded.logged(
            deed_text(
                rewarded.players[player_id as int].rank,
                rewarded.players[player_id as int].name,
                " reinforced their position"@,
                Seq::empty(),
            ),
        )
    }

    /// Names the health restored and the health the fleet ends with.
    pub open spec fn report(self, state: GameView, player_id: u8) -> Seq<char> {
        let mended = self.mended(state, player_id);
        let rewarded = mended.granted(player_id, XP_REINFORCE as int);
        "[+] Fleet reinforced! Healed "@ + signed_decimal(
            mended.players[player_id as int].health - state.players[player_id as int].health,
        ) + " HP (now at "@ + signed_decimal(rewarded.players[player_id as int].health) + " HP)"@
    }

    pub fn cost(&self) -> (cost: u8)
        ensures
            cost == REINFORCE_COST,
    {
        REINFORCE_COST
    }

    pub fn required_level(&self) -> (level: u8)
        ensures
            level == 3,
    {
        3
    }

    pub fn validate(&self, state: &GameState, player_id: u8) -> (verdict: Result<(), ActionError>)
        requires
            state@.wf(),
        ensures
            confirms(verdict, self.refusal(state@, player_id)),
    {
        if player_id >= 2 {
            return Err(ActionError::new(ErrorKind::NotFound, "Player not found"));
        }
        let player = &state.players[player_id as usize];
        if player.level < self.required_level() {
            let mut message = String::from_str("Requires level 3 (current: ");
            message.append(decimal_string(player.level as u64).as_str());
            message.append(")");
            return Err(ActionError { kind: ErrorKind::PermissionDenied, message });
        }
        if player.health >= 100 + (player.level as i32 - 1) * 20 {
            return Err(ActionError::new(ErrorKind::AlreadyInState, "Already at full health"));
        }
        Ok(())
    }

    /// Validates the reinforcement, checks that it can be paid for, and
    /// carries it out. A refused reinforcement leaves the game untouched.
    pub fn execute(&self, state: &mut GameState, player_id: u8) -> (result: Result<
        String,
        ActionError,
    >)
        requires
            old(state)@.wf(),
            old(state)@.has_xp_room_for(player_id),
        ensures
            final(state)@.wf(),
            match result {
                Ok(report) => self.rejection(old(state)@, player_id) is None && final(state)@
                    == self.outcome(old(state)@, player_id) && report@ == self.report(
                    old(state)@,
                    player_id,
                ),
                Err(error) => self.rejection(old(state)@, player_id) == Some(error@) && *final(state)
                    == *old(state),
            },
            result is Ok ==> player_id < 2 && final(state)@.players[player_id as int].ap_remaining
                == old(state)@.players[player_id as int].ap_remaining - REINFORCE_COST,
            final(state)@.follows(old(state)@),
    {
        match self.validate(state, player_id) {
            Err(error) => {
                return Err(error);
            },
            Ok(()) => {},
        }
        match check_affordable(state, player_id, REINFORCE_COST) {
            Err(error) => {
                return Err(error);
            },
            Ok(()) => {},
        }
        let before = state.players[player_id as usize].health;
        state.pay(player_id, REINFORCE_COST);
        state.heal(player_id, REINFORCE_HEAL);
        assert(state@ == self.mended(old(state)@, player_id));
        let restored = state.players[player_id as usize].health - before;
        state.grant(player_id, XP_REINFORCE);
        let mut report = String::from_str("[+] Fleet reinforced! Healed ");
        report.append(signed_decimal_string(restored as i64).as_str());
        report.append(" HP (now at ");
        report.append(
            signed_decimal_string(state.players[player_id as usize].health as i64).as_str(),
        );
        report.append(" HP)");
        let entry = deed_line(
            state.players[player_id as usize].rank.as_str(),
            state.players[player_id as usize].name.as_str(),
            " reinforced their position",
            "",
        );
        proof {
            assert(""@ =~= Seq::<char>::empty()) by {
                reveal_strlit("");
            }
        }
        state.log(entry);
        Ok(report)
    }
}

/// Destroy an enemy outpost in the sector the player occupies.
#[derive(Debug, Clone, Copy)]
pub struct SabotageAction {
    pub sector: u8,
}

impl SabotageAction {
    pub open spec fn refusal(self, state: GameView, player_id: u8) -> Option<Refusal> {
        if player_id >= 2 {
            refused(ErrorKind::NotFound, "Player not found"@)
        } else if state.players[player_id as int].level < 5 {
            refused(ErrorKind::PermissionDenied, "Sabotage requires Level 5+"@)
        } else if state.players[player_id as int].current_sector != self.sector {
            refused(
                ErrorKind::InvalidTarget,
                "You must be in a sector to sabotage its outpost"@,
            )
        } else if state.sectors[self.sector as int].owner != Some(opponent(player_id))
            || !state.sectors[self.sector as int].has_outpost {
            refused(ErrorKind::InvalidTarget, "No enemy outpost in this sector to sabotage."@)
        } else {
            None
        }
    }

    pub open spec fn rejection(self, state: GameView, player_id: u8) -> Option<Refusal> {
        affordable(self.refusal(state, player_id), state, player_id, SABOTAGE_COST)
    }

    pub open spec fn outcome(self, state: GameView, player_id: u8) -> GameView {
        let wrecked = state.with_outpost(self.sector, false).paid(
            player_id,
            SABOTAGE_COST as int,
        ).granted(player_id, XP_SABOTAGE as int);
        wrecked.logged(
            deed_text(
                wrecked.players[player_id as int].rank,
                wrecked.players[player_id as int].name,
                " sabotaged the outpost in "@,
                state.sectors[self.sector as int].name,
            ),
        )
    }

    pub open spec fn report(self, state: GameView, player_id: u8) -> Seq<char> {
        "Enemy outpost in "@ + state.sectors[self.sector as int].name + " destroyed! (+40 XP)"@
    }

    pub fn cost(&self) -> (cost: u8)
        ensures
            cost == SABOTAGE_COST,
    {
        SABOTAGE_COST
    }

    pub fn required_level(&self) -> (level: u8)
        ensures
            level == 5,
    {
        5
    }

    pub fn validate(&self, state: &GameState, player_id: u8) -> (verdict: Result<(), ActionError>)
        requires
            state@.wf(),
        ensures
            confirms(verdict, self.refusal(state@, player_id)),
    {
        if player_id >= 2 {
            return Err(ActionError::new(ErrorKind::NotFound, "Player not found"));
        }
        let player = &state.players[player_id as usize];
        if player.level < self.required_level() {
            return Err(ActionError::new(ErrorKind::PermissionDenied, "Sabotage requires Level 5+"));
        }
        if player.current_sector != self.sector {
            return Err(
                ActionError::new(
                    ErrorKind::InvalidTarget,
                    "You must be in a sector to sabotage its outpost",
                ),
            );
        }
        let sector = &state.sectors[self.sector as usize];
        assert(sector@ == state@.sectors[self.sector as int]);
        let enemy_held = match sector.owner {
            Some(owner) => owner == 1 - player_id,
            None => false,
        };
        if !enemy_held || !sector.has_outpost {
            return Err(
                ActionError::new(
                    ErrorKind::InvalidTarget,
                    "No enemy outpost in this sector to sabotage.",
                ),
            );
        }
        Ok(())
    }

    /// Validates the sabotage, checks that it can be paid for, and carries
    /// it out. A refused sabotage leaves the game untouched.
    pub fn execute(&self, state: &mut GameState, player_id: u8) -> (result: Result<
        String,
        ActionError,
    >)
        requires
            old(state)@.wf(),
            old(state)@.has_xp_room_for(player_id),
        ensures
            final(state)@.wf(),
            match result {
                Ok(report) => self.rejection(old(state)@, player_id) is None && final(state)@
                    == self.outcome(old(state)@, player_id) && report@ == self.report(
                    old(state)@,
                    player_id,
                ),
                Err(error) => self.rejection(old(state)@, player_id) == Some(error@) && *final(state)
                    == *old(state),
            },
            result is Ok ==> player_id < 2 && final(state)@.players[player_id as int].ap_remaining
                == old(state)@.players[player_id as int].ap_remaining - SABOTAGE_COST,
            final(state)@.follows(old(state)@),
    {
        match self.validate(state, player_id) {
            Err(error) => {
                return Err(error);
            },
            Ok(()) => {},
        }
        match check_affordable(state, player_id, SABOTAGE_COST) {
            Err(error) => {
                return Err(error);
            },
            Ok(()) => {},
        }
        state.set_outpost(self.sector, false);
        state.pay(player_id, SABOTAGE_COST);
        state.grant(player_id, XP_SABOTAGE);
        let entry = deed_line(
            state.players[player_id as usize].rank.as_str(),
            state.players[player_id as usize].name.as_str(),
            " sabotaged the outpost in ",
            state.sectors[self.sector as usize].name.as_str(),
        );
        let mut report = String::from_str("Enemy outpost in ");
        report.append(state.sectors[self.sector as usize].name.as_str());
        report.append(" destroyed! (+40 XP)");
        assert(state@.sectors[self.sector as int].name
            == old(state)@.sectors[self.sector as int].name);
        state.log(entry);
        Ok(report)
    }
}

/// Strike a sector the player has seen, from orbit.
#[derive(Debug, Clone, Copy)]
pub struct OrbitalStrikeAction {
    pub target_player: u8,
    pub target_sector: u8,
}

impl OrbitalStrikeAction {
    pub open spec fn refusal(self, state: GameView, player_id: u8) -> Option<Refusal> {
        if player_id >= 2 {
            refused(ErrorKind::NotFound, "Player not found"@)
        } else if state.players[player_id as int].level < 7 {
            refused(ErrorKind::PermissionDenied, "Orbital Strike requires Level 7+"@)
        } else if self.target_player >= 2 {
            refused(ErrorKind::NotFound, "Target player not found"@)
        } else if self.target_player == player_id {
            refused(ErrorKind::InvalidTarget, "Cannot attack yourself"@)
        } else if self.target_sector >= state.sectors.len() {
            refused(ErrorKind::NotFound, "Invalid sector ID"@)
        } else if !state.sectors[self.target_sector as int].is_visible_to(player_id) {
            refused(ErrorKind::InvalidTarget, "Invalid target - must be a visible sector."@)
        } else {
            None
        }
    }

    pub open spec fn rejection(self, state: GameView, player_id: u8) -> Option<Refusal> {
        affordable(self.refusal(state, player_id), state, player_id, ORBITAL_STRIKE_COST)
    }

    /// Whether the enemy fleet sits in the target sector.
    pub open spec fn finds_target(self, state: GameView) -> bool {
        state.players[self.target_player as int].current_sector == self.target_sector
    }

    /// Whether the strike finds the enemy fleet and defeats it.
    pub open spec fn defeats(self, state: GameView) -> bool {
        self.finds_target(state) && !state.players[self.target_player as int].damaged(
            ORBITAL_STRIKE_DAMAGE as int,
        ).is_alive()
    }

    pub open spec fn outcome(self, state: GameView, player_id: u8) -> GameView {
        let fired = state.paid(player_id, ORBITAL_STRIKE_COST as int).granted(
            player_id,
            XP_ORBITAL_STRIKE as int,
        );
        let landed = if self.finds_target(state) {
            let hit = fired.struck(self.target_player, ORBITAL_STRIKE_DAMAGE as int);
            if self.defeats(state) {
                hit.ended().granted(player_id, XP_KILL_BONUS as int)
            } else {
                hit
            }
        } else {
            fired
        };
        landed.logged(
            deed_text(
                landed.players[player_id as int].rank,
                landed.players[player_id as int].name,
                " launched orbital strike on "@,
                state.sectors[self.target_sector as int].name,
            ),
        )
    }

    pub open spec fn report(self, state: GameView, player_id: u8) -> Seq<char> {
        if self.finds_target(state) {
            let hit = "Orbital strike hit enemy fleet for 30 damage! (+50 XP)\nEnemy health: "@
                + signed_decimal(
                state.players[self.target_player as int].damaged(ORBITAL_STRIKE_DAMAGE as int).health,
            );
            if self.defeats(state) {
                hit + "\nEnemy eliminated by orbital strike! You win! (+200 XP)"@
            } else {
                hit
            }
        } else {
            "Orbital strike hit empty space! No damage dealt. (+50 XP)"@
        }
    }

    pub fn cost(&self) -> (cost: u8)
        ensures
            cost == ORBITAL_STRIKE_COST,
    {
        ORBITAL_STRIKE_COST
    }

    pub fn required_level(&self) -> (level: u8)
        ensures
            level == 7,
    {
        7
    }

    pub fn validate(&self, state: &GameState, player_id: u8) -> (verdict: Result<(), ActionError>)
        requires
            state@.wf(),
        ensures
            confirms(verdict, self.refusal(state@, player_id)),
    {
        if player_id >= 2 {
            return Err(ActionError::new(ErrorKind::NotFound, "Player not found"));
        }
        if state.players[player_id as usize].level < self.required_level() {
            return Err(
                ActionError::new(ErrorKind::PermissionDenied, "Orbital Strike requires Level 7+"),
            );
        }
        if self.target_player >= 2 {
            return Err(ActionError::new(ErrorKind::NotFound, "Target player not found"));
        }
        if self.target_player == player_id {
            return Err(ActionError::new(ErrorKind::InvalidTarget, "Cannot attack yourself"));
        }
        if self.target_sector as usize >= state.sectors.len() {
            return Err(ActionError::new(ErrorKind::NotFound, "Invalid sector ID"));
        }
        let sector = &state.sectors[self.target_sector as usize];
        assert(sector@ == state@.sectors[self.target_sector as int]);
        if !sector.is_visible_to(player_id) {
            return Err(
                ActionError::new(
                    ErrorKind::InvalidTarget,
                    "Invalid target - must be a visible sector.",
                ),
            );
        }
        Ok(())
    }

    /// Validates the strike, checks that it can be paid for, and carries it
    /// out. A refused strike leaves the game untouched.
    pub fn execute(&self, state: &mut GameState, player_id: u8) -> (result: Result<
        String,
        ActionError,
    >)
        requires
            old(state)@.wf(),
            old(state)@.has_xp_room_for(player_id),
        ensures
            final(state)@.wf(),
            match result {
                Ok(report) => self.rejection(old(state)@, player_id) is None && final(state)@
                    == self.outcome(old(state)@, player_id) && report@ == self.report(
                    old(state)@,
                    player_id,
                ),
                Err(error) => self.rejection(old(state)@, player_id) == Some(error@) && *final(state)
                    == *old(state),
            },
            result is Ok ==> player_id < 2 && final(state)@.players[player_id as int].ap_remaining
                == old(state)@.players[player_id as int].ap_remaining - ORBITAL_STRIKE_COST,
            final(state)@.follows(old(state)@),
    {
        match self.validate(state, player_id) {
            Err(error) => {
                return Err(error);
            },
            Ok(()) => {},
        }
        match check_affordable(state, player_id, ORBITAL_STRIKE_COST) {
            Err(error) => {
                return Err(error);
            },
            Ok(()) => {},
        }
        state.pay(player_id, ORBITAL_STRIKE_COST);
        state.grant(player_id, XP_ORBITAL_STRIKE);
        assert(state@.players[self.target_player as int]
            == old(state)@.players[self.target_player as int]);
        let report = if state.players[self.target_player as usize].current_sector
            == self.target_sector {
            state.strike(self.target_player, ORBITAL_STRIKE_DAMAGE);
            assert(state@.players[self.target_player as int]
                == old(state)@.players[self.target_player as int].damaged(
                ORBITAL_STRIKE_DAMAGE as int,
            ));
            let mut report = String::from_str(
                "Orbital strike hit enemy fleet for 30 damage! (+50 XP)\nEnemy health: ",
            );
            report.append(
                signed_decimal_string(
                    state.players[self.target_player as usize].health as i64,
                ).as_str(),
            );
            if !state.players[self.target_player as usize].is_alive() {
                state.finish();
                state.grant(player_id, XP_KILL_BONUS);
                report.append("\nEnemy eliminated by orbital strike! You win! (+200 XP)");
            }
            report
        } else {
            String::from_str("Orbital strike hit empty space! No damage dealt. (+50 XP)")
        };
        let entry = deed_line(
            state.players[player_id as usize].rank.as_str(),
            state.players[player_id as usize].name.as_str(),
            " launched orbital strike on ",
            state.sectors[self.target_sector as usize].name.as_str(),
        );
        assert(state@.sectors[self.target_sector as int].name
            == old(state)@.sectors[self.target_sector as int].name);
        state.log(entry);
        Ok(report)
    }
}

/// The seven actions, each with what it is aimed at.
#[derive(Debug, Clone, Copy)]
pub enum ActionType {
    Move { from: u8, to: u8 },
    Attack { target_player: u8 },
    Scan { sector: u8 },
    Build { sector: u8 },
    Reinforce,
    Sabotage { sector: u8 },
    OrbitalStrike { target_player: u8, target_sector: u8 },
}

impl ActionType {
    /// Action points the action costs.
    pub open spec fn price(self) -> u8 {
        match self {
            ActionType::Move { .. } => MOVE_COST,
            ActionType::Attack { .. } => ATTACK_COST,
            ActionType::Scan { .. } => SCAN_COST,
            ActionType::Build { .. } => BUILD_COST,
            ActionType::Reinforce => REINFORCE_COST,
            ActionType::Sabotage { .. } => SABOTAGE_COST,
            ActionType::OrbitalStrike { .. } => ORBITAL_STRIKE_COST,
        }
    }

    /// The level from which the action is open to a player.
    pub open spec fn level_needed(self) -> u8 {
        match self {
            ActionType::Reinforce => 3,
            ActionType::Sabotage { .. } => 5,
            ActionType::OrbitalStrike { .. } => 7,
            _ => 1,
        }
    }

    /// Why validation refuses the action, if it does.
    pub open spec fn refusal(self, state: GameView, player_id: u8) -> Option<Refusal> {
        match self {
            ActionType::Move { from, to } => (MoveAction { from, to }).refusal(state, player_id),
            ActionType::Attack { target_player } => (AttackAction { target_player }).refusal(
                state,
                player_id,
            ),
            ActionType::Scan { sector } => (ScanAction { sector }).refusal(state, player_id),
            ActionType::Build { sector } => (BuildAction { sector }).refusal(state, player_id),
            ActionType::Reinforce => ReinforceAction.refusal(state, player_id),
            ActionType::Sabotage { sector } => (SabotageAction { sector }).refusal(state, player_id),
            ActionType::OrbitalStrike { target_player, target_sector } => (OrbitalStrikeAction {
                target_player,
                target_sector,
            }).refusal(state, player_id),
        }
    }

    /// Why the action is not carried out, if it is not: the refusal of
    /// validation, or else a lack of action points.
    pub open spec fn rejection(self, state: GameView, player_id: u8) -> Option<Refusal> {
        affordable(self.refusal(state, player_id), state, player_id, self.price())
    }

    /// The game after the action.
    pub open spec fn outcome(self, state: GameView, player_id: u8) -> GameView {
        match self {
            ActionType::Move { from, to } => (MoveAction { from, to }).outcome(state, player_id),
            ActionType::Attack { target_player } => (AttackAction { target_player }).outcome(
                state,
                player_id,
            ),
            ActionType::Scan { sector } => (ScanAction { sector }).outcome(state, player_id),
            ActionType::Build { sector } => (BuildAction { sector }).outcome(state, player_id),
            ActionType::Reinforce => ReinforceAction.outcome(state, player_id),
            ActionType::Sabotage { sector } => (SabotageAction { sector }).outcome(state, player_id),
            ActionType::OrbitalStrike { target_player, target_sector } => (OrbitalStrikeAction {
                target_player,
                target_sector,
            }).outcome(state, player_id),
        }
    }

    /// What the player is told after the action.
    pub open spec fn report(self, state: GameView, player_id: u8) -> Seq<char> {
        match self {
            ActionType::Move { from, to } => (MoveAction { from, to }).report(state, player_id),
            ActionType::Attack { target_player } => (AttackAction { target_player }).report(
                state,
                player_id,
            ),
            ActionType::Scan { sector } => (ScanAction { sector }).report(state, player_id),
            ActionType::Build { sector } => (BuildAction { sector }).report(state, player_id),
            ActionType::Reinforce => ReinforceAction.report(state, player_id),
            ActionType::Sabotage { sector } => (SabotageAction { sector }).report(state, player_id),
            ActionType::OrbitalStrike { target_player, target_sector } => (OrbitalStrikeAction {
                target_player,
                target_sector,
            }).report(state, player_id),
        }
    }

    pub fn cost(&self) -> (cost: u8)
        ensures
            cost == self.price(),
    {
        match self {
            ActionType::Move { .. } => MOVE_COST,
            ActionType::Attack { .. } => ATTACK_COST,
            ActionType::Scan { .. } => SCAN_COST,
            ActionType::Build { .. } => BUILD_COST,
            ActionType::Reinforce => REINFORCE_COST,
            ActionType::Sabotage { .. } => SABOTAGE_COST,
            ActionType::OrbitalStrike { .. } => ORBITAL_STRIKE_COST,
        }
    }

    pub fn required_level(&self) -> (level: u8)
        ensures
            level == self.level_needed(),
    {
        match self {
            ActionType::Reinforce => 3,
            ActionType::Sabotage { .. } => 5,
            ActionType::OrbitalStrike { .. } => 7,
            _ => 1,
        }
    }

    pub fn validate(&self, state: &GameState, player_id: u8) -> (verdict: Result<(), ActionError>)
        requires
            state@.wf(),
        ensures
            confirms(verdict, self.refusal(state@, player_id)),
    {
        match *self {
            ActionType::Move { from, to } => (MoveAction { from, to }).validate(state, player_id),
            ActionType::Attack { target_player } => (AttackAction { target_player }).validate(
                state,
                player_id,
            ),
            ActionType::Scan { sector } => (ScanAction { sector }).validate(state, player_id),
            ActionType::Build { sector } => (BuildAction { sector }).validate(state, player_id),
            ActionType::Reinforce => ReinforceAction.validate(state, player_id),
            ActionType::Sabotage { sector } => (SabotageAction { sector }).validate(state, player_id),
            ActionType::OrbitalStrike { target_player, target_sector } => (OrbitalStrikeAction {
                target_player,
                target_sector,
            }).validate(state, player_id),
        }
    }

    /// Validates the action, checks that it can be paid for, and carries it
    /// out. A refused action leaves the game untouched.
    pub fn execute(&self, state: &mut GameState, player_id: u8) -> (result: Result<
        String,
        ActionError,
    >)
        requires
            old(state)@.wf(),
            old(state)@.has_xp_room_for(player_id),
        ensures
            final(state)@.wf(),
            match result {
                Ok(report) => self.rejection(old(state)@, player_id) is None && final(state)@
                    == self.outcome(old(state)@, player_id) && report@ == self.report(
                    old(state)@,
                    player_id,
                ),
                Err(error) => self.rejection(old(state)@, player_id) == Some(error@) && *final(state)
                    == *old(state),
            },
            result is Ok ==> player_id < 2 && final(state)@.players[player_id as int].ap_remaining
                == old(state)@.players[player_id as int].ap_remaining - self.price(),
            final(state)@.follows(old(state)@),
    {
        match *self {
            ActionType::Move { from, to } => (MoveAction { from, to }).execute(state, player_id),
            ActionType::Attack { target_player } => (AttackAction { target_player }).execute(
                state,
                player_id,
            ),
            ActionType::Scan { sector } => (ScanAction { sector }).execute(state, player_id),
            ActionType::Build { sector } => (BuildAction { sector }).execute(state, player_id),
            ActionType::Reinforce => ReinforceAction.execute(state, player_id),
            ActionType::Sabotage { sector } => (SabotageAction { sector }).execute(state, player_id),
            ActionType::OrbitalStrike { target_player, target_sector } => (OrbitalStrikeAction {
                target_player,
                target_sector,
            }).execute(state, player_id),
        }
    }
}

/// What `str::to_lowercase` makes of a text.
pub uninterp spec fn lowercase_of(text: Seq<char>) -> Seq<char>;

/// `str::to_lowercase`: the text in lower case as Unicode defines it. The
/// result is a function of the text alone; nothing else is claimed of it.
#[verifier::external_body]
pub(crate) fn lowercase(word: &str) -> (lowered: String)
    ensures
        lowered@ == lowercase_of(word@),
{
    word.to_lowercase()
}

/// Whether a parse gave what the grammar gives.
pub open spec fn parses_as(parsed: Result<ActionType, ActionError>, expected: Result<
    ActionType,
    Refusal,
>) -> bool {
    match parsed {
        Ok(action) => expected == Ok::<ActionType, Refusal>(action),
        Err(error) => expected == Err::<ActionType, Refusal>(error@),
    }
}

/// The sector that an action names: its argument read as a number.
pub open spec fn named_sector(argument: Option<Seq<char>>, usage: Seq<char>) -> Result<
    u8,
    Refusal,
> {
    match argument {
        None => Err(Refusal { kind: ErrorKind::InvalidTarget, message: usage }),
        Some(word) => match parsed_u8(word) {
            Some(sector) => Ok(sector),
            None => Err(Refusal { kind: ErrorKind::InvalidTarget, message: "Invalid sector ID"@ }),
        },
    }
}

/// The action that a keyword in lower case and its argument stand for, for
/// a player in `current_sector`. `typed` is the keyword as the player wrote
/// it.
pub open spec fn action_named(
    typed: Seq<char>,
    keyword: Seq<char>,
    argument: Option<Seq<char>>,
    current_sector: u8,
    player_id: u8,
) -> Result<ActionType, Refusal> {
    if keyword == "move"@ {
        match named_sector(argument, "Usage: move <sector_id>"@) {
            Ok(to) => Ok(ActionType::Move { from: current_sector, to }),
            Err(refusal) => Err(refusal),
        }
    } else if keyword == "attack"@ {
        Ok(ActionType::Attack { target_player: opponent(player_id) })
    } else if keyword == "scan"@ {
        match named_sector(argument, "Usage: scan <sector_id>"@) {
            Ok(sector) => Ok(ActionType::Scan { sector }),
            Err(refusal) => Err(refusal),
        }
    } else if keyword == "build"@ {
        Ok(ActionType::Build { sector: current_sector })
    } else if keyword == "reinforce"@ {
        Ok(ActionType::Reinforce)
    } else if keyword == "sabotage"@ {
        Ok(ActionType::Sabotage { sector: current_sector })
    } else if keyword == "strike"@ {
        match named_sector(argument, "Usage: strike <sector_id>"@) {
            Ok(target_sector) => Ok(
                ActionType::OrbitalStrike { target_player: opponent(player_id), target_sector },
            ),
            Err(refusal) => Err(refusal),
        }
    } else {
        Err(Refusal { kind: ErrorKind::NotFound, message: "Unknown action: "@ + typed })
    }
}

/// The action that the words of a command stand for: the first word, in
/// any case, is the keyword and the second, where the action takes one, its
/// argument. Further words are ignored.
pub open spec fn parse_of(words: Seq<Seq<char>>, state: GameView, player_id: u8) -> Result<
    ActionType,
    Refusal,
> {
    if player_id >= 2 {
        Err(Refusal { kind: ErrorKind::NotFound, message: "Player not found"@ })
    } else if words.len() == 0 {
        Err(Refusal { kind: ErrorKind::NotFound, message: "No action specified"@ })
    } else {
        action_named(
            words[0],
            lowercase_of(words[0]),
            if words.len() >= 2 {
                Some(words[1])
            } else {
                None
            },
            state.players[player_id as int].current_sector,
            player_id,
        )
    }
}

fn sector_argument(argument: Option<&str>, usage: &str) -> (sector: Result<u8, ActionError>)
    ensures
        match sector {
            Ok(id) => named_sector(option_text(argument), usage@) == Ok::<u8, Refusal>(id),
            Err(error) => named_sector(option_text(argument), usage@) == Err::<u8, Refusal>(error@),
        },
{
    match argument {
        None => Err(ActionError::new(ErrorKind::InvalidTarget, usage)),
        Some(word) => match parse_u8(word) {
            Some(sector) => Ok(sector),
            None => Err(ActionError::new(ErrorKind::InvalidTarget, "Invalid sector ID")),
        },
    }
}

pub open spec fn option_text(word: Option<&str>) -> Option<Seq<char>> {
    match word {
        Some(text) => Some(text@),
        None => None,
    }
}

/// Maps a keyword, already in lower case, and its argument to an action.
pub fn action_for(
    typed: &str,
    keyword: &str,
    argument: Option<&str>,
    current_sector: u8,
    player_id: u8,
) -> (parsed: Result<ActionType, ActionError>)
    requires
        player_id < 2,
    ensures
        parses_as(
            parsed,
            action_named(typed@, keyword@, option_text(argument), current_sector, player_id),
        ),
{
    if same_text(keyword, "move") {
        match sector_argument(argument, "Usage: move <sector_id>") {
            Ok(to) => Ok(ActionType::Move { from: current_sector, to }),
            Err(error) => Err(error),
        }
    } else if same_text(keyword, "attack") {
        Ok(ActionType::Attack { target_player: 1 - player_id })
    } else if same_text(keyword, "scan") {
        match sector_argument(argument, "Usage: scan <sector_id>") {
            Ok(sector) => Ok(ActionType::Scan { sector }),
            Err(error) => Err(error),
        }
    } else if same_text(keyword, "build") {
        Ok(ActionType::Build { sector: current_sector })
    } else if same_text(keyword, "reinforce") {
        Ok(ActionType::Reinforce)
    } else if same_text(keyword, "sabotage") {
        Ok(ActionType::Sabotage { sector: current_sector })
    } else if same_text(keyword, "strike") {
        match sector_argument(argument, "Usage: strike <sector_id>") {
            Ok(target_sector) => Ok(
                ActionType::OrbitalStrike { target_player: 1 - player_id, target_sector },
            ),
            Err(error) => Err(error),
        }
    } else {
        let mut message = String::from_str("Unknown action: ");
        message.append(typed);
        Err(ActionError { kind: ErrorKind::NotFound, message })
    }
}

/// Reads a command of the form `<verb> [args...]` as an action of the
/// player.
pub fn parse_action(input: &str, state: &GameState, player_id: u8) -> (parsed: Result<
    ActionType,
    ActionError,
>)
    ensures
        parses_as(parsed, parse_of(words_of(input@), state@, player_id)),
{
    let words = split_words(input);
    parse_words(&words, state, player_id)
}

/// Reads the words of a command as an action of the player.
pub fn parse_words(words: &Vec<String>, state: &GameState, player_id: u8) -> (parsed: Result<
    ActionType,
    ActionError,
>)
    ensures
        parses_as(parsed, parse_of(texts(words@), state@, player_id)),
{
    if player_id >= 2 {
        return Err(ActionError::new(ErrorKind::NotFound, "Player not found"));
    }
    if words.len() == 0 {
        return Err(ActionError::new(ErrorKind::NotFound, "No action specified"));
    }
    let keyword = lowercase(words[0].as_str());
    let argument = if words.len() >= 2 {
        Some(words[1].as_str())
    } else {
        None
    };
    proof {
        let listed = texts(words@);
        assert(listed[0] == words@[0]@);
        if words.len() >= 2 {
            assert(listed[1] == words@[1]@);
        }
    }
    action_for(
        words[0].as_str(),
        keyword.as_str(),
        argument,
        state.players[player_id as usize].current_sector,
        player_id,
    )
}

/// A move between two sectors that no link joins is refused as an invalid
/// target, whatever the player's action points and whoever owns the sectors.
pub proof fn lemma_move_needs_a_link(action: MoveAction, state: GameView, player_id: u8)
    requires
        state.wf(),
        player_id < 2,
        !linked(state.sectors, action.from, action.to),
    ensures
        action.refusal(state, player_id) matches Some(refusal) && refusal.kind
            == ErrorKind::InvalidTarget,
        action.rejection(state, player_id) matches Some(refusal) && refusal.kind
            == ErrorKind::InvalidTarget,
        state.admission(player_id) is None ==> state.verdict(
            player_id,
            ActionType::Move { from: action.from, to: action.to },
        ) == action.refusal(state, player_id),
{
}

/// A move that is carried out into an unowned sector captures it exactly
/// when the fleet, as it arrives, holds a command center; a fleet that held
/// one before the move still holds it on arrival. A sector that has an owner
/// keeps it.
pub proof fn lemma_capture_needs_command_center(action: MoveAction, state: GameView, player_id: u8)
    requires
        state.wf(),
        action.rejection(state, player_id) is None,
    ensures
        state.sectors[action.to as int].owner is Some ==> action.outcome(
            state,
            player_id,
        ).sectors[action.to as int].owner == state.sectors[action.to as int].owner,
        state.sectors[action.to as int].owner is None ==> (action.outcome(
            state,
            player_id,
        ).sectors[action.to as int].owner == Some(player_id) <==> action.arrival(
            state,
            player_id,
        ).players[player_id as int].can_capture_sector()),
        state.sectors[action.to as int].owner is None && !action.arrival(
            state,
            player_id,
        ).players[player_id as int].can_capture_sector() ==> action.outcome(
            state,
            player_id,
        ).sectors[action.to as int].owner is None,
        state.players[player_id as int].can_capture_sector() ==> action.arrival(
            state,
            player_id,
        ).players[player_id as int].can_capture_sector(),
{
    let mover = state.players[player_id as int].moved_to(action.to).paying(MOVE_COST as int);
    assert(mover.wf());
    crate::engine::player::lemma_promotion_keeps_wf(mover.with_experience(XP_MOVE as int));
}

/// Experience leaves a player's action points alone.
pub proof fn lemma_grant_keeps_points(state: GameView, player_id: u8, experience: int)
    requires
        player_id < state.players.len(),
    ensures
        state.granted(player_id, experience).players[player_id as int].ap_remaining
            == state.players[player_id as int].ap_remaining,
        state.granted(player_id, experience).players.len() == state.players.len(),
{
    crate::engine::player::lemma_promotion_keeps_points(
        state.players[player_id as int].with_experience(experience),
    );
}

/// An action that is carried out takes exactly its price from the player's
/// action points.
pub proof fn lemma_action_costs_its_price(action: ActionType, state: GameView, player_id: u8)
    requires
        state.players.len() == 2,
        action.rejection(state, player_id) is None,
    ensures
        action.outcome(state, player_id).players[player_id as int].ap_remaining
            == state.players[player_id as int].ap_remaining - action.price(),
{
    assert(player_id < 2);
    match action {
        ActionType::Move { from, to } => {
            let act = MoveAction { from, to };
            let paid = state.relocated(player_id, to).paid(player_id, MOVE_COST as int);
            lemma_grant_keeps_points(paid, player_id, XP_MOVE as int);
            let arrived = act.arrival(state, player_id);
            lemma_grant_keeps_points(arrived.captured(to, player_id), player_id, XP_CAPTURE as int);
        },
        ActionType::Attack { target_player } => {
            let act = AttackAction { target_player };
            let paid = state.struck(target_player, act.damage(state, player_id)).paid(
                player_id,
                ATTACK_COST as int,
            );
            lemma_grant_keeps_points(paid, player_id, XP_ATTACK as int);
            lemma_grant_keeps_points(
                act.exchange(state, player_id),
                player_id,
                XP_KILL_BONUS as int,
            );
        },
        ActionType::Scan { sector } => {
            let paid = state.revealed(sector, player_id).paid(player_id, SCAN_COST as int);
            lemma_grant_keeps_points(paid, player_id, XP_SCAN as int);
        },
        ActionType::Build { sector } => {
            let paid = state.with_outpost(sector, true).paid(player_id, BUILD_COST as int);
            lemma_grant_keeps_points(paid, player_id, XP_BUILD as int);
        },
        ActionType::Reinforce => {
            lemma_grant_keeps_points(
                ReinforceAction.mended(state, player_id),
                player_id,
                XP_REINFORCE as int,
            );
        },
        ActionType::Sabotage { sector } => {
            let paid = state.with_outpost(sector, false).paid(player_id, SABOTAGE_COST as int);
            lemma_grant_keeps_points(paid, player_id, XP_SABOTAGE as int);
        },
        ActionType::OrbitalStrike { target_player, target_sector } => {
            let paid = state.paid(player_id, ORBITAL_STRIKE_COST as int);
            lemma_grant_keeps_points(paid, player_id, XP_ORBITAL_STRIKE as int);
            let fired = paid.granted(player_id, XP_ORBITAL_STRIKE as int);
            let hit = fired.struck(target_player, ORBITAL_STRIKE_DAMAGE as int);
            lemma_grant_keeps_points(hit.ended(), player_id, XP_KILL_BONUS as int);
        },
    }
}

/// No action brings a game that is over back to life.
pub proof fn lemma_over_stays_over(action: ActionType, state: GameView, player_id: u8)
    requires
        state.game_over,
    ensures
        action.outcome(state, player_id).game_over,
{
}

/// An attack that is carried out and takes the target's last health ends the
/// game; one that leaves the target alive leaves the game as it was.
pub proof fn lemma_fatal_attack_ends_game(action: AttackAction, state: GameView, player_id: u8)
    requires
        state.players.len() == 2,
        action.rejection(state, player_id) is None,
    ensures
        action.outcome(state, player_id).players[action.target_player as int].health
            == state.players[action.target_player as int].damaged(
            action.damage(state, player_id),
        ).health,
        state.players[action.target_player as int].health <= action.damage(state, player_id)
            ==> action.outcome(state, player_id).game_over && action.outcome(
            state,
            player_id,
        ).players[action.target_player as int].health == 0,
        state.players[action.target_player as int].health > action.damage(state, player_id)
            ==> action.outcome(state, player_id).game_over == state.game_over,
{
}

/// What every action offers: a fixed cost, a level from which it is open,
/// a validation that changes nothing, and an execution that validates,
/// collects the cost and changes the game.
pub trait Action {
    /// Action points the action costs.
    spec fn price_of(&self) -> u8;

    /// The level from which the action is open to a player.
    spec fn level_of(&self) -> u8;

    /// Why validation refuses the action, if it does.
    spec fn refusal_of(&self, state: GameView, player_id: u8) -> Option<Refusal>;

    /// The game after the action.
    spec fn outcome_of(&self, state: GameView, player_id: u8) -> GameView;

    /// What the player is told after the action.
    spec fn report_of(&self, state: GameView, player_id: u8) -> Seq<char>;

    fn cost(&self) -> (cost: u8)
        ensures
            cost == self.price_of(),
    ;

    fn required_level(&self) -> (level: u8)
        ensures
            level == self.level_of(),
    ;

    fn validate(&self, state: &GameState, player_id: u8) -> (verdict: Result<(), ActionError>)
        requires
            state@.wf(),
        ensures
            confirms(verdict, self.refusal_of(state@, player_id)),
    ;

    fn execute(&self, state: &mut GameState, player_id: u8) -> (result: Result<
        String,
        ActionError,
    >)
        requires
            old(state)@.wf(),
            old(state)@.has_xp_room_for(player_id),
        ensures
            final(state)@.wf(),
            match result {
                Ok(report) => affordable(
                    self.refusal_of(old(state)@, player_id),
                    old(state)@,
                    player_id,
                    self.price_of(),
                ) is None && final(state)@ == self.outcome_of(old(state)@, player_id) && report@
                    == self.report_of(old(state)@, player_id),
                Err(error) => affordable(
                    self.refusal_of(old(state)@, player_id),
                    old(state)@,
                    player_id,
                    self.price_of(),
                ) == Some(error@) && *final(state) == *old(state),
            },
            result is Ok ==> player_id < 2 && final(state)@.players[player_id as int].ap_remaining
                == old(state)@.players[player_id as int].ap_remaining - self.price_of(),
            final(state)@.follows(old(state)@),
    ;
}

impl Action for MoveAction {
    open spec fn price_of(&self) -> u8 {
        MOVE_COST
    }

    open spec fn level_of(&self) -> u8 {
        1
    }

    open spec fn refusal_of(&self, state: GameView, player_id: u8) -> Option<Refusal> {
        MoveAction::refusal(*self, state, player_id)
    }

    open spec fn outcome_of(&self, state: GameView, player_id: u8) -> GameView {
        MoveAction::outcome(*self, state, player_id)
    }

    open spec fn report_of(&self, state: GameView, player_id: u8) -> Seq<char> {
        MoveAction::report(*self, state, player_id)
    }

    fn cost(&self) -> (cost: u8) {
        MoveAction::cost(self)
    }

    fn required_level(&self) -> (level: u8) {
        MoveAction::required_level(self)
    }

    fn validate(&self, state: &GameState, player_id: u8) -> (verdict: Result<
        (),
        ActionError,
    >) {
        MoveAction::validate(self, state, player_id)
    }

    fn execute(&self, state: &mut GameState, player_id: u8) -> (result: Result<
        String,
        ActionError,
    >) {
        MoveAction::execute(self, state, player_id)
    }
}

impl Action for AttackAction {
    open spec fn price_of(&self) -> u8 {
        ATTACK_COST
    }

    open spec fn level_of(&self) -> u8 {
        1
    }

    open spec fn refusal_of(&self, state: GameView, player_id: u8) -> Option<Refusal> {
        AttackAction::refusal(*self, state, player_id)
    }

    open spec fn outcome_of(&self, state: GameView, player_id: u8) -> GameView {
        AttackAction::outcome(*self, state, player_id)
    }

    open spec fn report_of(&self, state: GameView, player_id: u8) -> Seq<char> {
        AttackAction::report(*self, state, player_id)
    }

    fn cost(&self) -> (cost: u8) {
        AttackAction::cost(self)
    }

    fn required_level(&self) -> (level: u8) {
        AttackAction::required_level(self)
    }

    fn validate(&self, state: &GameState, player_id: u8) -> (verdict: Result<
        (),
        ActionError,
    >) {
        AttackAction::validate(self, state, player_id)
    }

    fn execute(&self, state: &mut GameState, player_id: u8) -> (result: Result<
        String,
        ActionError,
    >) {
        AttackAction::execute(self, state, player_id)
    }
}

impl Action for ScanAction {
    open spec fn price_of(&self) -> u8 {
        SCAN_COST
    }

    open spec fn level_of(&self) -> u8 {
        1
    }

    open spec fn refusal_of(&self, state: GameView, player_id: u8) -> Option<Refusal> {
        ScanAction::refusal(*self, state, player_id)
    }

    open spec fn outcome_of(&self, state: GameView, player_id: u8) -> GameView {
        ScanAction::outcome(*self, state, player_id)
    }

    open spec fn report_of(&self, state: GameView, player_id: u8) -> Seq<char> {
        ScanAction::report(*self, state, player_id)
    }

    fn cost(&self) -> (cost: u8) {
        ScanAction::cost(self)
    }

    fn required_level(&self) -> (level: u8) {
        ScanAction::required_level(self)
    }

    fn validate(&self, state: &GameState, player_id: u8) -> (verdict: Result<
        (),
        ActionError,
    >) {
        ScanAction::validate(self, state, player_id)
    }

    fn execute(&self, state: &mut GameState, player_id: u8) -> (result: Result<
        String,
        ActionError,
    >) {
        ScanAction::execute(self, state, player_id)
    }
}

impl Action for BuildAction {
    open spec fn price_of(&self) -> u8 {
        BUILD_COST
    }

    open spec fn level_of(&self) -> u8 {
        1
    }

    open spec fn refusal_of(&self, state: GameView, player_id: u8) -> Option<Refusal> {
        BuildAction::refusal(*self, state, player_id)
    }

    open spec fn outcome_of(&self, state: GameView, player_id: u8) -> GameView {
        BuildAction::outcome(*self, state, player_id)
    }

    open spec fn report_of(&self, state: GameView, player_id: u8) -> Seq<char> {
        BuildAction::report(*self, state, player_id)
    }

    fn cost(&self) -> (cost: u8) {
        BuildAction::cost(self)
    }

    fn required_level(&self) -> (level: u8) {
        BuildAction::required_level(self)
    }

    fn validate(&self, state: &GameState, player_id: u8) -> (verdict: Result<
        (),
        ActionError,
    >) {
        BuildAction::validate(self, state, player_id)
    }

    fn execute(&self, state: &mut GameState, player_id: u8) -> (result: Result<
        String,
        ActionError,
    >) {
        BuildAction::execute(self, state, player_id)
    }
}

impl Action for ReinforceAction {
    open spec fn price_of(&self) -> u8 {
        REINFORCE_COST
    }

    open spec fn level_of(&self) -> u8 {
        3
    }

    open spec fn refusal_of(&self, state: GameView, player_id: u8) -> Option<Refusal> {
        ReinforceAction::refusal(*self, state, player_id)
    }

    open spec fn outcome_of(&self, state: GameView, player_id: u8) -> GameView {
        ReinforceAction::outcome(*self, state, player_id)
    }

    open spec fn report_of(&self, state: GameView, player_id: u8) -> Seq<char> {
        ReinforceAction::report(*self, state, player_id)
    }

    fn cost(&self) -> (cost: u8) {
        ReinforceAction::cost(self)
    }

    fn required_level(&self) -> (level: u8) {
        ReinforceAction::required_level(self)
    }

    fn validate(&self, state: &GameState, player_id: u8) -> (verdict: Result<
        (),
        ActionError,
    >) {
        ReinforceAction::validate(self, state, player_id)
    }

    fn execute(&self, state: &mut GameState, player_id: u8) -> (result: Result<
        String,
        ActionError,
    >) {
        ReinforceAction::execute(self, state, player_id)
    }
}

impl Action for SabotageAction {
    open spec fn price_of(&self) -> u8 {
        SABOTAGE_COST
    }

    open spec fn level_of(&self) -> u8 {
        5
    }

    open spec fn refusal_of(&self, state: GameView, player_id: u8) -> Option<Refusal> {
        SabotageAction::refusal(*self, state, player_id)
    }

    open spec fn outcome_of(&self, state: GameView, player_id: u8) -> GameView {
        SabotageAction::outcome(*self, state, player_id)
    }

    open spec fn report_of(&self, state: GameView, player_id: u8) -> Seq<char> {
        SabotageAction::report(*self, state, player_id)
    }

    fn cost(&self) -> (cost: u8) {
        SabotageAction::cost(self)
    }

    fn required_level(&self) -> (level: u8) {
        SabotageAction::required_level(self)
    }

    fn validate(&self, state: &GameState, player_id: u8) -> (verdict: Result<
        (),
        ActionError,
    >) {
        SabotageAction::validate(self, state, player_id)
    }

    fn execute(&self, state: &mut GameState, player_id: u8) -> (result: Result<
        String,
        ActionError,
    >) {
        SabotageAction::execute(self, state, player_id)
    }
}

impl Action for OrbitalStrikeAction {
    open spec fn price_of(&self) -> u8 {
        ORBITAL_STRIKE_COST
    }

    open spec fn level_of(&self) -> u8 {
        7
    }

    open spec fn refusal_of(&self, state: GameView, player_id: u8) -> Option<Refusal> {
        OrbitalStrikeAction::refusal(*self, state, player_id)
    }

    open spec fn outcome_of(&self, state: GameView, player_id: u8) -> GameView {
        OrbitalStrikeAction::outcome(*self, state, player_id)
    }

    open spec fn report_of(&self, state: GameView, player_id: u8) -> Seq<char> {
        OrbitalStrikeAction::report(*self, state, player_id)
    }

    fn cost(&self) -> (cost: u8) {
        OrbitalStrikeAction::cost(self)
    }

    fn required_level(&self) -> (level: u8) {
        OrbitalStrikeAction::required_level(self)
    }

    fn validate(&self, state: &GameState, player_id: u8) -> (verdict: Result<
        (),
        ActionError,
    >) {
        OrbitalStrikeAction::validate(self, state, player_id)
    }

    fn execute(&self, state: &mut GameState, player_id: u8) -> (result: Result<
        String,
        ActionError,
    >) {
        OrbitalStrikeAction::execute(self, state, player_id)
    }
}

impl Action for ActionType {
    open spec fn price_of(&self) -> u8 {
        ActionType::price(*self)
    }

    open spec fn level_of(&self) -> u8 {
        ActionType::level_needed(*self)
    }

    open spec fn refusal_of(&self, state: GameView, player_id: u8) -> Option<Refusal> {
        ActionType::refusal(*self, state, player_id)
    }

    open spec fn outcome_of(&self, state: GameView, player_id: u8) -> GameView {
        ActionType::outcome(*self, state, player_id)
    }

    open spec fn report_of(&self, state: GameView, player_id: u8) -> Seq<char> {
        ActionType::report(*self, state, player_id)
    }

    fn cost(&self) -> (cost: u8) {
        ActionType::cost(self)
    }

    fn required_level(&self) -> (level: u8) {
        ActionType::required_level(self)
    }

    fn validate(&self, state: &GameState, player_id: u8) -> (verdict: Result<
        (),
        ActionError,
    >) {
        ActionType::validate(self, state, player_id)
    }

    fn execute(&self, state: &mut GameState, player_id: u8) -> (result: Result<
        String,
        ActionError,
    >) {
        ActionType::execute(self, state, player_id)
    }
}

} // verus!
