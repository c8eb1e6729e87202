use crate::text::same_text;
use sha2::Digest;
use sha2::Sha256;
use vstd::prelude::*;
use vstd::string::StringExecFns;

verus! {

/// How many ships of each archetype a player commands.
#[derive(Debug, Clone, Copy)]
pub struct Fleet {
    pub scouts: u32,
    pub frigates: u32,
    pub destroyers: u32,
    pub command_centers: u32,
    pub defense_platforms: u32,
}

/// A fleet's counts as natural numbers.
pub struct FleetView {
    pub scouts: nat,
    pub frigates: nat,
    pub destroyers: nat,
    pub command_centers: nat,
    pub defense_platforms: nat,
}

impl View for Fleet {
    type V = FleetView;

    open spec fn view(&self) -> FleetView {
        FleetView {
            scouts: self.scouts as nat,
            frigates: self.frigates as nat,
            destroyers: self.destroyers as nat,
            command_centers: self.command_centers as nat,
            defense_platforms: self.defense_platforms as nat,
        }
    }
}

impl FleetView {
    /// The fleet every player starts with: a single frigate.
    pub open spec fn starter() -> FleetView {
        FleetView { scouts: 0, frigates: 1, destroyers: 0, command_centers: 0, defense_platforms: 0 }
    }

    /// Ships that travel with the fleet; defense platforms stay behind.
    pub open spec fn total_ships(self) -> nat {
        self.scouts + self.frigates + self.destroyers + self.command_centers
    }

    /// Weighted sum of the travelling ships.
    pub open spec fn combat_strength(self) -> nat {
        self.scouts * 5 + self.frigates * 10 + self.destroyers * 20 + self.command_centers * 15
    }

    /// Only a command center can take a sector.
    pub open spec fn can_capture_sectors(self) -> bool {
        self.command_centers > 0
    }

    /// The fleet joined by the ships of a level bonus.
    pub open spec fn reinforced_by(self, bonus: LevelBonus) -> FleetView {
        FleetView {
            scouts: self.scouts + bonus.scouts,
            frigates: self.frigates + bonus.frigates,
            destroyers: self.destroyers + bonus.destroyers,
            command_centers: self.command_centers + bonus.command_centers,
            defense_platforms: self.defense_platforms,
        }
    }
}

impl Fleet {
    pub fn new_starter() -> (fleet: Fleet)
        ensures
            fleet@ == FleetView::starter(),
    {
        Fleet { scouts: 0, frigates: 1, destroyers: 0, command_centers: 0, defense_platforms: 0 }
    }

    pub fn total_ships(&self) -> (total: u32)
        requires
            self@.total_ships() <= u32::MAX,
        ensures
            total == self@.total_ships(),
    {
        self.scouts + self.frigates + self.destroyers + self.command_centers
    }

    pub fn combat_strength(&self) -> (strength: u32)
        requires
            self@.combat_strength() <= u32::MAX,
        ensures
            strength == self@.combat_strength(),
    {
        self.scouts * 5 + self.frigates * 10 + self.destroyers * 20 + self.command_centers * 15
    }

    pub fn can_capture_sectors(&self) -> (able: bool)
        ensures
            able == self@.can_capture_sectors(),
    {
        self.command_centers > 0
    }
}

/// What a player receives, once, on reaching a level.
pub struct LevelBonus {
    pub ap_cap: nat,
    pub health: nat,
    pub scouts: nat,
    pub frigates: nat,
    pub destroyers: nat,
    pub command_centers: nat,
}

impl LevelBonus {
    pub open spec fn nothing() -> LevelBonus {
        LevelBonus { ap_cap: 0, health: 0, scouts: 0, frigates: 0, destroyers: 0, command_centers: 0 }
    }

    pub open spec fn plus(self, other: LevelBonus) -> LevelBonus {
        LevelBonus {
            ap_cap: self.ap_cap + other.ap_cap,
            health: self.health + other.health,
            scouts: self.scouts + other.scouts,
            frigates: self.frigates + other.frigates,
            destroyers: self.destroyers + other.destroyers,
            command_centers: self.command_centers + other.command_centers,
        }
    }
}

/// Highest level a player can reach.
pub const MAX_LEVEL: u8 = 10;

/// The bonus granted on reaching `level`.
pub open spec fn level_bonus(level: int) -> LevelBonus {
    let none = LevelBonus::nothing();
    if level == 2 {
        LevelBonus { ap_cap: 3, scouts: 1, ..none }
    } else if level == 3 {
        LevelBonus { health: 20, frigates: 1, ..none }
    } else if level == 4 {
        LevelBonus { ap_cap: 3, command_centers: 1, ..none }
    } else if level == 5 {
        LevelBonus { health: 20, destroyers: 1, scouts: 1, ..none }
    } else if level == 6 {
        LevelBonus { ap_cap: 4, frigates: 2, ..none }
    } else if level == 7 {
        LevelBonus { health: 30, command_centers: 1, destroyers: 1, ..none }
    } else if level == 8 {
        LevelBonus { ap_cap: 4, frigates: 2, destroyers: 1, ..none }
    } else if level == 9 {
        LevelBonus { health: 30, command_centers: 1, destroyers: 2, ..none }
    } else if level == 10 {
        LevelBonus {
            ap_cap: 5,
            health: 50,
            scouts: 2,
            frigates: 3,
            destroyers: 2,
            command_centers: 1,
        }
    } else {
        none
    }
}

/// Everything a player at `level` can still receive on the way to the top
/// level.
pub open spec fn pending_bonus(level: int) -> LevelBonus
    decreases 10 - level,
{
    if level >= 10 {
        LevelBonus::nothing()
    } else {
        level_bonus(level + 1).plus(pending_bonus(level + 1))
    }
}

/// Experience that takes a player from `level` to the next one.
pub open spec fn xp_needed(level: int) -> int {
    level * 100
}

/// Experience a player has consumed on the way from the first level to
/// `level`.
pub open spec fn xp_consumed(level: int) -> int {
    50 * level * (level - 1)
}

/// The title that goes with a level.
pub open spec fn rank_title(level: int) -> Seq<char> {
    if level == 1 {
        "Legionnaire"@
    } else if level == 2 {
        "Centurion"@
    } else if level == 3 {
        "Tribune"@
    } else if level == 4 {
        "Prefect"@
    } else if level == 5 {
        "Legate"@
    } else if level == 6 {
        "Praetor"@
    } else if level == 7 {
        "Consul"@
    } else if level == 8 {
        "Imperator"@
    } else if level == 9 {
        "Sovereign"@
    } else if level == 10 {
        "Archsovereign"@
    } else {
        "Unknown"@
    }
}

/// Hex text of the SHA-256 digest of a text's UTF-8 bytes.
pub uninterp spec fn sha256_hex(text: Seq<char>) -> Seq<char>;

/// `sha2::Sha256::digest` on the UTF-8 bytes of `password`, the digest written
/// in lower-case hex by `generic_array`'s `LowerHex`. The result is a function of the
/// text alone; nothing else is claimed of it.
#[verifier::external_body]
fn hash_password(password: &str) -> (hash: String)
    ensures
        hash@ == sha256_hex(password@),
{
    format!("{:x}", Sha256::digest(password.as_bytes()))
}

/// One of the two commanders.
#[derive(Debug, Clone)]
pub struct Player {
    pub id: u8,
    pub name: String,
    pub health: i32,
    pub ap_cap: u8,
    pub ap_remaining: u8,
    pub current_sector: u8,
    pub level: u8,
    pub experience: u32,
    pub rank: String,
    pub fleet: Fleet,
    pub password_hash: Option<String>,
}

/// A player's record as plain values.
pub struct PlayerView {
    pub id: u8,
    pub name: Seq<char>,
    pub health: int,
    pub ap_cap: int,
    pub ap_remaining: int,
    pub current_sector: u8,
    pub level: int,
    pub experience: int,
    pub rank: Seq<char>,
    pub fleet: FleetView,
    pub password_hash: Option<Seq<char>>,
}

impl View for Player {
    type V = PlayerView;

    open spec fn view(&self) -> PlayerView {
        PlayerView {
            id: self.id,
            name: self.name@,
            health: self.health as int,
            ap_cap: self.ap_cap as int,
            ap_remaining: self.ap_remaining as int,
            current_sector: self.current_sector,
            level: self.level as int,
            experience: self.experience as int,
            rank: self.rank@,
            fleet: self.fleet@,
            password_hash: match self.password_hash {
                Some(hash) => Some(hash@),
                None => None,
            },
        }
    }
}

impl PlayerView {
    /// A player as the game begins.
    pub open spec fn fresh(id: u8, name: Seq<char>, starting_sector: u8) -> PlayerView {
        PlayerView {
            id,
            name,
            health: 100,
            ap_cap: 25,
            ap_remaining: 25,
            current_sector: starting_sector,
            level: 1,
            experience: 0,
            rank: rank_title(1),
            fleet: FleetView::starter(),
            password_hash: None,
        }
    }

    /// The bonuses still to come fit the fields that will hold them.
    pub open spec fn has_room_to_grow(self) -> bool {
        let rest = pending_bonus(self.level);
        &&& self.ap_cap + rest.ap_cap <= u8::MAX
        &&& self.health + rest.health <= i32::MAX
        &&& self.fleet.scouts + rest.scouts <= u32::MAX
        &&& self.fleet.frigates + rest.frigates <= u32::MAX
        &&& self.fleet.destroyers + rest.destroyers <= u32::MAX
        &&& self.fleet.command_centers + rest.command_centers <= u32::MAX
    }

    /// The invariant of a player record: the level is in range, action points
    /// never exceed their cap, health is never negative, the rank is the title
    /// of the level, and level bonuses cannot overflow.
    pub open spec fn wf(self) -> bool {
        &&& 1 <= self.level <= 10
        &&& 0 <= self.ap_remaining <= self.ap_cap
        &&& 0 <= self.health
        &&& 0 <= self.experience
        &&& self.rank == rank_title(self.level)
        &&& self.has_room_to_grow()
    }

    pub open spec fn with_ap_reset(self) -> PlayerView {
        PlayerView { ap_remaining: self.ap_cap, ..self }
    }

    /// Health after a hit, never below zero.
    pub open spec fn damaged(self, amount: int) -> PlayerView {
        PlayerView {
            health: if self.health - amount < 0 {
                0
            } else {
                self.health - amount
            },
            ..self
        }
    }

    /// Action points after an action of the given cost.
    pub open spec fn paying(self, action_cost: int) -> PlayerView {
        PlayerView { ap_remaining: self.ap_remaining - action_cost, ..self }
    }

    /// Action points after a regeneration tick: `amount` more, up to the cap.
    pub open spec fn replenished(self, amount: int) -> PlayerView {
        PlayerView {
            ap_remaining: if self.ap_remaining + amount > self.ap_cap {
                self.ap_cap
            } else {
                self.ap_remaining + amount
            },
            ..self
        }
    }

    pub open spec fn moved_to(self, sector: u8) -> PlayerView {
        PlayerView { current_sector: sector, ..self }
    }

    /// Health after reinforcement: `amount` more, up to the cap of the level.
    pub open spec fn healed(self, amount: int) -> PlayerView {
        PlayerView {
            health: if self.health + amount > self.health_cap() {
                self.health_cap()
            } else {
                self.health + amount
            },
            ..self
        }
    }

    pub open spec fn can_perform(self, action_cost: int) -> bool {
        self.ap_remaining >= action_cost
    }

    pub open spec fn is_alive(self) -> bool {
        self.health > 0
    }

    /// Whether the experience at hand pays for the next level.
    pub open spec fn can_level_up(self) -> bool {
        self.level < 10 && self.experience >= xp_needed(self.level)
    }

    /// One level gained: the threshold is paid, the rank follows the level and
    /// the bonus of the new level is received.
    pub open spec fn promoted_once(self) -> PlayerView {
        let bonus = level_bonus(self.level + 1);
        PlayerView {
            level: self.level + 1,
            experience: self.experience - xp_needed(self.level),
            rank: rank_title(self.level + 1),
            ap_cap: self.ap_cap + bonus.ap_cap,
            health: self.health + bonus.health,
            fleet: self.fleet.reinforced_by(bonus),
            ..self
        }
    }

    /// Every level that the experience at hand pays for is gained, one after
    /// the other; each level costs its own threshold.
    pub open spec fn promoted(self) -> PlayerView
        decreases 10 - self.level,
    {
        if self.can_level_up() {
            self.promoted_once().promoted()
        } else {
            self
        }
    }

    pub open spec fn with_experience(self, amount: int) -> PlayerView {
        PlayerView { experience: self.experience + amount, ..self }
    }

    /// Experience is added and level-ups are resolved at once.
    pub open spec fn gained(self, amount: int) -> PlayerView {
        self.with_experience(amount).promoted()
    }

    /// Experience earned over the player's whole career.
    pub open spec fn lifetime_experience(self) -> int {
        xp_consumed(self.level) + self.experience
    }

    pub open spec fn damage_bonus(self) -> int {
        if 3 <= self.level <= 4 {
            2
        } else if 5 <= self.level <= 6 {
            5
        } else if 7 <= self.level <= 8 {
            8
        } else if 9 <= self.level <= 10 {
            12
        } else {
            0
        }
    }

    pub open spec fn scan_range_bonus(self) -> int {
        if self.level >= 5 {
            1
        } else {
            0
        }
    }

    pub open spec fn can_capture_sector(self) -> bool {
        self.fleet.can_capture_sectors()
    }

    /// The most health that reinforcement restores at the player's level.
    pub open spec fn health_cap(self) -> int {
        100 + (self.level - 1) * 20
    }

    /// With no stored hash every secret is accepted; with one, only a secret
    /// whose hash it is.
    pub open spec fn accepts_hash(self, hash: Seq<char>) -> bool {
        match self.password_hash {
            Some(stored) => stored == hash,
            None => true,
        }
    }

    pub open spec fn with_password_hash(self, hash: Seq<char>) -> PlayerView {
        PlayerView { password_hash: Some(hash), ..self }
    }
}

/// A player as the game begins is well-formed.
pub proof fn lemma_fresh_player_wf(id: u8, name: Seq<char>, starting_sector: u8)
    ensures
        PlayerView::fresh(id, name, starting_sector).wf(),
        forall|hash: Seq<char>|
            (#[trigger] PlayerView::fresh(id, name, starting_sector).with_password_hash(hash)).wf(),
{
    reveal_with_fuel(pending_bonus, 11);
}

/// A promotion leaves lifetime experience as it was.
pub proof fn lemma_promotion_conserves_experience(p: PlayerView)
    ensures
        p.promoted().lifetime_experience() == p.lifetime_experience(),
    decreases 10 - p.level,
{
    if p.can_level_up() {
        let q = p.promoted_once();
        lemma_promotion_conserves_experience(q);
        assert(xp_consumed(p.level + 1) == xp_consumed(p.level) + xp_needed(p.level)) by (nonlinear_arith);
    }
}

/// After promotion no further level can be paid for; the level has not
/// dropped and, from a level in range, stays in range.
pub proof fn lemma_promotion_settles(p: PlayerView)
    ensures
        !p.promoted().can_level_up(),
        p.promoted().level >= p.level,
        p.level <= 10 ==> p.promoted().level <= 10,
    decreases 10 - p.level,
{
    if p.can_level_up() {
        lemma_promotion_settles(p.promoted_once());
    }
}

/// Promotion touches neither identity, position, action points nor
/// credential, and keeps a well-formed player well-formed.
pub proof fn lemma_promotion_keeps_wf(p: PlayerView)
    requires
        p.wf(),
    ensures
        p.promoted().wf(),
        p.promoted().id == p.id,
        p.promoted().name == p.name,
        p.promoted().current_sector == p.current_sector,
        p.promoted().ap_remaining == p.ap_remaining,
        p.promoted().ap_cap >= p.ap_cap,
        p.promoted().health >= p.health,
        p.promoted().password_hash == p.password_hash,
        p.promoted().fleet.command_centers >= p.fleet.command_centers,
        p.promoted().experience <= p.experience,
    decreases 10 - p.level,
{
    if p.can_level_up() {
        let q = p.promoted_once();
        assert(q.wf());
        lemma_promotion_keeps_wf(q);
    }
}

/// Promotion leaves the action points alone.
pub proof fn lemma_promotion_keeps_points(p: PlayerView)
    ensures
        p.promoted().ap_remaining == p.ap_remaining,
    decreases 10 - p.level,
{
    if p.can_level_up() {
        lemma_promotion_keeps_points(p.promoted_once());
    }
}

/// Promotion after more experience is the same whether or not the player was
/// promoted before the addition.
pub proof fn lemma_promotion_absorbs(p: PlayerView, amount: int)
    requires
        amount >= 0,
    ensures
        p.promoted().with_experience(amount).promoted() == p.with_experience(amount).promoted(),
    decreases 10 - p.level,
{
    if p.can_level_up() {
        let q = p.promoted_once();
        lemma_promotion_absorbs(q, amount);
        assert(p.with_experience(amount).can_level_up());
        assert(p.with_experience(amount).promoted_once() == q.with_experience(amount));
    }
}

/// Experience granted in two parts leaves the player exactly where a single
/// grant of their sum does.
pub proof fn lemma_experience_grants_compose(p: PlayerView, first: int, second: int)
    requires
        first >= 0,
        second >= 0,
    ensures
        p.gained(first).gained(second) == p.gained(first + second),
{
    let q = p.with_experience(first);
    lemma_promotion_absorbs(q, second);
    assert(q.with_experience(second) == p.with_experience(first + second));
}

/// Gaining experience never lowers the level.
pub proof fn lemma_level_never_drops(p: PlayerView, amount: int)
    ensures
        p.gained(amount).level >= p.level,
{
    lemma_promotion_settles(p.with_experience(amount));
}

/// A well-formed player has action points between zero and the cap and
/// health of at least zero, and keeps both through any grant of experience.
pub proof fn lemma_bounds_hold(p: PlayerView, amount: int)
    requires
        p.wf(),
        amount >= 0,
    ensures
        0 <= p.ap_remaining <= p.ap_cap,
        p.health >= 0,
        0 <= p.gained(amount).ap_remaining <= p.gained(amount).ap_cap,
        p.gained(amount).health >= 0,
        p.gained(amount).wf(),
{
    lemma_promotion_keeps_wf(p.with_experience(amount));
}

impl Player {
    pub fn new(id: u8, name: String, starting_sector: u8) -> (player: Player)
        ensures
            player@ == PlayerView::fresh(id, name@, starting_sector),
            player@.wf(),
    {
        proof {
            reveal_with_fuel(pending_bonus, 11);
        }
        Player {
            id,
            name,
            health: 100,
            ap_cap: 25,
            ap_remaining: 25,
            current_sector: starting_sector,
            level: 1,
            experience: 0,
            rank: String::from_str("Legionnaire"),
            fleet: Fleet::new_starter(),
            password_hash: None,
        }
    }

    /// Stores the hash of `password` as the player's credential.
    pub fn set_password(&mut self, password: &str)
        ensures
            final(self)@ == old(self)@.with_password_hash(sha256_hex(password@)),
    {
        let hash = hash_password(password);
        self.store_password_hash(hash);
    }

    /// Stores an already computed credential hash.
    pub fn store_password_hash(&mut self, hash: String)
        ensures
            final(self)@ == old(self)@.with_password_hash(hash@),
    {
        self.password_hash = Some(hash);
    }

    /// Whether `password` opens the player's turn. A player without a stored
    /// hash has open access.
    pub fn verify_password(&self, password: &str) -> (accepted: bool)
        ensures
            accepted == self@.accepts_hash(sha256_hex(password@)),
    {
        if self.password_hash.is_none() {
            return true;
        }
        let hash = hash_password(password);
        self.accepts_hash(&hash)
    }

    /// Whether an already computed hash opens the player's turn.
    pub fn accepts_hash(&self, hash: &String) -> (accepted: bool)
        ensures
            accepted == self@.accepts_hash(hash@),
    {
        match &self.password_hash {
            Some(stored) => *stored == *hash,
            None => true,
        }
    }

    pub fn reset_ap(&mut self)
        ensures
            final(self)@ == old(self)@.with_ap_reset(),
            old(self)@.wf() ==> final(self)@.wf(),
    {
        self.ap_remaining = self.ap_cap;
    }

    pub fn take_damage(&mut self, amount: i32)
        requires
            i32::MIN <= old(self).health - amount <= i32::MAX,
        ensures
            final(self)@ == old(self)@.damaged(amount as int),
            final(self)@.health >= 0,
            old(self)@.wf() && amount >= 0 ==> final(self)@.wf(),
    {
        self.health -= amount;
        if self.health < 0 {
            self.health = 0;
        }
    }

    pub fn can_perform(&self, action_cost: u8) -> (able: bool)
        ensures
            able == self@.can_perform(action_cost as int),
    {
        self.ap_remaining >= action_cost
    }

    pub fn is_alive(&self) -> (alive: bool)
        ensures
            alive == self@.is_alive(),
    {
        self.health > 0
    }

    pub fn gain_experience(&mut self, amount: u32)
        requires
            old(self)@.wf(),
            old(self).experience + amount <= u32::MAX,
        ensures
            final(self)@ == old(self)@.gained(amount as int),
            final(self)@.wf(),
            final(self).level >= old(self).level,
            final(self).ap_remaining == old(self).ap_remaining,
            final(self).experience <= old(self).experience + amount,
            final(self).fleet.command_centers >= old(self).fleet.command_centers,
    {
        self.experience += amount;
        self.check_level_up();
    }

    pub fn check_level_up(&mut self)
        requires
            old(self)@.wf(),
        ensures
            final(self)@ == old(self)@.promoted(),
            final(self)@.wf(),
            final(self).level >= old(self).level,
            final(self).ap_remaining == old(self).ap_remaining,
            final(self).experience <= old(self).experience,
            final(self).fleet.command_centers >= old(self).fleet.command_centers,
    {
        while self.level < MAX_LEVEL && self.experience >= self.level as u32 * 100
            invariant
                self@.wf(),
                self@.promoted() == old(self)@.promoted(),
                self.level >= old(self).level,
                self.ap_remaining == old(self).ap_remaining,
                self.experience <= old(self).experience,
                self.fleet.command_centers >= old(self).fleet.command_centers,
            decreases 10 - self.level,
        {
            assert(self@.can_level_up());
            self.experience -= self.level as u32 * 100;
            self.level += 1;
            self.update_rank();
            self.apply_level_bonuses();
        }
        assert(!self@.can_level_up());
    }

    /// Sets the rank to the title of the current level.
    fn update_rank(&mut self)
        ensures
            final(self)@ == (PlayerView { rank: rank_title(old(self)@.level), ..old(self)@ }),
    {
        self.rank = String::from_str(rank_name(self.level));
    }

    /// Whether the record meets the invariant of a player.
    pub fn is_well_formed(&self) -> (sound: bool)
        ensures
            sound == self@.wf(),
    {
        if self.level < 1 || self.level > MAX_LEVEL {
            return false;
        }
        let rest = pending_grants(self.level);
        self.ap_remaining <= self.ap_cap && self.health >= 0 && same_text(
            self.rank.as_str(),
            rank_name(self.level),
        ) && self.ap_cap as u64 + rest.0 <= 255 && self.health as i64 + rest.1 as i64 <= 2147483647
            && self.fleet.scouts as u64 + rest.2 <= 4294967295 && self.fleet.frigates as u64 + rest.3
            <= 4294967295 && self.fleet.destroyers as u64 + rest.4 <= 4294967295
            && self.fleet.command_centers as u64 + rest.5 <= 4294967295
    }
}

/// The bonus of one level as numbers: action-point cap, health, scouts,
/// frigates, destroyers, command centers.
fn grants_at(level: u8) -> (grants: (u64, u64, u64, u64, u64, u64))
    ensures
        grants.0 == level_bonus(level as int).ap_cap,
        grants.1 == level_bonus(level as int).health,
        grants.2 == level_bonus(level as int).scouts,
        grants.3 == level_bonus(level as int).frigates,
        grants.4 == level_bonus(level as int).destroyers,
        grants.5 == level_bonus(level as int).command_centers,
        grants.0 <= 5 && grants.1 <= 50 && grants.2 <= 2 && grants.3 <= 3 && grants.4 <= 2
            && grants.5 <= 1,
{
    if level == 2 {
        (3, 0, 1, 0, 0, 0)
    } else if level == 3 {
        (0, 20, 0, 1, 0, 0)
    } else if level == 4 {
        (3, 0, 0, 0, 0, 1)
    } else if level == 5 {
        (0, 20, 1, 0, 1, 0)
    } else if level == 6 {
        (4, 0, 0, 2, 0, 0)
    } else if level == 7 {
        (0, 30, 0, 0, 1, 1)
    } else if level == 8 {
        (4, 0, 0, 2, 1, 0)
    } else if level == 9 {
        (0, 30, 0, 0, 2, 1)
    } else if level == 10 {
        (5, 50, 2, 3, 2, 1)
    } else {
        (0, 0, 0, 0, 0, 0)
    }
}

/// Everything still to come for a player at `level`, as numbers.
fn pending_grants(level: u8) -> (rest: (u64, u64, u64, u64, u64, u64))
    requires
        1 <= level <= 10,
    ensures
        rest.0 == pending_bonus(level as int).ap_cap,
        rest.1 == pending_bonus(level as int).health,
        rest.2 == pending_bonus(level as int).scouts,
        rest.3 == pending_bonus(level as int).frigates,
        rest.4 == pending_bonus(level as int).destroyers,
        rest.5 == pending_bonus(level as int).command_centers,
        rest.0 <= 50 && rest.1 <= 500 && rest.2 <= 20 && rest.3 <= 30 && rest.4 <= 20 && rest.5
            <= 10,
{
    let mut rest: (u64, u64, u64, u64, u64, u64) = (0, 0, 0, 0, 0, 0);
    let mut reached: u8 = MAX_LEVEL;
    while reached > level
        invariant
            level <= reached <= 10,
            rest.0 == pending_bonus(reached as int).ap_cap,
            rest.1 == pending_bonus(reached as int).health,
            rest.2 == pending_bonus(reached as int).scouts,
            rest.3 == pending_bonus(reached as int).frigates,
            rest.4 == pending_bonus(reached as int).destroyers,
            rest.5 == pending_bonus(reached as int).command_centers,
            rest.0 <= 5 * (10 - reached),
            rest.1 <= 50 * (10 - reached),
            rest.2 <= 2 * (10 - reached),
            rest.3 <= 3 * (10 - reached),
            rest.4 <= 2 * (10 - reached),
            rest.5 <= 10 - reached,
        decreases reached,
    {
        let grants = grants_at(reached);
        rest = (
            rest.0 + grants.0,
            rest.1 + grants.1,
            rest.2 + grants.2,
            rest.3 + grants.3,
            rest.4 + grants.4,
            rest.5 + grants.5,
        );
        reached -= 1;
    }
    rest
}

/// The title that goes with a level, as text.
pub fn rank_name(level: u8) -> (title: &'static str)
    ensures
        title@ == rank_title(level as int),
{
    if level == 1 {
        "Legionnaire"
    } else if level == 2 {
        "Centurion"
    } else if level == 3 {
        "Tribune"
    } else if level == 4 {
        "Prefect"
    } else if level == 5 {
        "Legate"
    } else if level == 6 {
        "Praetor"
    } else if level == 7 {
        "Consul"
    } else if level == 8 {
        "Imperator"
    } else if level == 9 {
        "Sovereign"
    } else if level == 10 {
        "Archsovereign"
    } else {
        "Unknown"
    }
}

impl Player {
    /// Hands out the one-time bonus of the level just reached.
    fn apply_level_bonuses(&mut self)
        requires
            old(self)@.ap_cap + level_bonus(old(self)@.level).ap_cap <= u8::MAX,
            old(self)@.health + level_bonus(old(self)@.level).health <= i32::MAX,
            old(self)@.fleet.scouts + level_bonus(old(self)@.level).scouts <= u32::MAX,
            old(self)@.fleet.frigates + level_bonus(old(self)@.level).frigates <= u32::MAX,
            old(self)@.fleet.destroyers + level_bonus(old(self)@.level).destroyers <= u32::MAX,
            old(self)@.fleet.command_centers + level_bonus(old(self)@.level).command_centers
                <= u32::MAX,
        ensures
            final(self)@ == (PlayerView {
                ap_cap: old(self)@.ap_cap + level_bonus(old(self)@.level).ap_cap,
                health: old(self)@.health + level_bonus(old(self)@.level).health,
                fleet: old(self)@.fleet.reinforced_by(level_bonus(old(self)@.level)),
                ..old(self)@
            }),
    {
        if self.level == 2 {
            self.ap_cap += 3;
            self.fleet.scouts += 1;
        } else if self.level == 3 {
            self.health += 20;
            self.fleet.frigates += 1;
        } else if self.level == 4 {
            self.ap_cap += 3;
            self.fleet.command_centers += 1;
        } else if self.level == 5 {
            self.health += 20;
            self.fleet.destroyers += 1;
            self.fleet.scouts += 1;
        } else if self.level == 6 {
            self.ap_cap += 4;
            self.fleet.frigates += 2;
        } else if self.level == 7 {
            self.health += 30;
            self.fleet.command_centers += 1;
            self.fleet.destroyers += 1;
        } else if self.level == 8 {
            self.ap_cap += 4;
            self.fleet.frigates += 2;
            self.fleet.destroyers += 1;
        } else if self.level == 9 {
            self.health += 30;
            self.fleet.command_centers += 1;
            self.fleet.destroyers += 2;
        } else if self.level == 10 {
            self.ap_cap += 5;
            self.health += 50;
            self.fleet.scouts += 2;
            self.fleet.frigates += 3;
            self.fleet.destroyers += 2;
            self.fleet.command_centers += 1;
        }
    }

    pub fn get_damage_bonus(&self) -> (bonus: i32)
        ensures
            bonus == self@.damage_bonus(),
    {
        if 3 <= self.level && self.level <= 4 {
            2
        } else if 5 <= self.level && self.level <= 6 {
            5
        } else if 7 <= self.level && self.level <= 8 {
            8
        } else if 9 <= self.level && self.level <= 10 {
            12
        } else {
            0
        }
    }

    pub fn get_scan_range_bonus(&self) -> (bonus: u8)
        ensures
            bonus == self@.scan_range_bonus(),
    {
        if self.level >= 5 {
            1
        } else {
            0
        }
    }

    pub fn can_capture_sector(&self) -> (able: bool)
        ensures
            able == self@.can_capture_sector(),
    {
        self.fleet.command_centers > 0
    }

    pub fn get_password_hash(&self) -> (hash: Option<&String>)
        ensures
            match hash {
                Some(stored) => self@.password_hash == Some(stored@),
                None => self@.password_hash.is_none(),
            },
    {
        self.password_hash.as_ref()
    }
}

} // verus!
