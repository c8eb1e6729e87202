use crate::engine::turn::clock_seconds;
use crate::text::append_decimal;
use crate::text::append_signed;
use crate::text::decimal;
use crate::text::same_text;
use crate::text::signed_decimal;
use crate::text::texts;
use vstd::prelude::*;
use vstd::string::StringExecFns;

verus! {

/// Action points that a regeneration cycle restores.
pub const CYCLE_AP: i32 = 50;

/// Action points that a scan costs.
pub const SCAN_COST: i32 = 3;

/// Action points that declaring control of a sector costs.
pub const DECLARE_COST: i32 = 25;

/// The archetypes of ships, in four tiers.
#[derive(Debug, Clone, Copy, PartialEq, Eq, Structural)]
pub enum ShipType {
    ScoutDrone,
    MiningVessel,
    Interceptor,
    Corvette,
    Frigate,
    SupplyShip,
    Destroyer,
    GarrisonShip,
    Cruiser,
    Battleship,
    CommandShip,
    Carrier,
}

impl ShipType {
    /// Hull points, damage and the action points of one move, by archetype.
    pub open spec fn stats(self) -> (i32, i32, i32) {
        match self {
            ShipType::ScoutDrone => (10, 2, 1),
            ShipType::MiningVessel => (15, 1, 2),
            ShipType::Interceptor => (20, 5, 1),
            ShipType::Corvette => (50, 12, 3),
            ShipType::Frigate => (80, 15, 4),
            ShipType::SupplyShip => (40, 5, 5),
            ShipType::Destroyer => (150, 30, 6),
            ShipType::GarrisonShip => (200, 20, 5),
            ShipType::Cruiser => (250, 40, 8),
            ShipType::Battleship => (500, 80, 12),
            ShipType::CommandShip => (750, 100, 15),
            ShipType::Carrier => (400, 20, 14),
        }
    }

    /// The archetype's name as reports write it.
    pub open spec fn label(self) -> Seq<char> {
        match self {
            ShipType::ScoutDrone => "ScoutDrone"@,
            ShipType::MiningVessel => "MiningVessel"@,
            ShipType::Interceptor => "Interceptor"@,
            ShipType::Corvette => "Corvette"@,
            ShipType::Frigate => "Frigate"@,
            ShipType::SupplyShip => "SupplyShip"@,
            ShipType::Destroyer => "Destroyer"@,
            ShipType::GarrisonShip => "GarrisonShip"@,
            ShipType::Cruiser => "Cruiser"@,
            ShipType::Battleship => "Battleship"@,
            ShipType::CommandShip => "CommandShip"@,
            ShipType::Carrier => "Carrier"@,
        }
    }

    pub fn get_stats(&self) -> (stats: (i32, i32, i32))
        ensures
            stats == self.stats(),
    {
        match self {
            ShipType::ScoutDrone => (10, 2, 1),
            ShipType::MiningVessel => (15, 1, 2),
            ShipType::Interceptor => (20, 5, 1),
            ShipType::Corvette => (50, 12, 3),
            ShipType::Frigate => (80, 15, 4),
            ShipType::SupplyShip => (40, 5, 5),
            ShipType::Destroyer => (150, 30, 6),
            ShipType::GarrisonShip => (200, 20, 5),
            ShipType::Cruiser => (250, 40, 8),
            ShipType::Battleship => (500, 80, 12),
            ShipType::CommandShip => (750, 100, 15),
            ShipType::Carrier => (400, 20, 14),
        }
    }

    /// The archetype's name as reports write it.
    pub fn name(&self) -> (name: &'static str)
        ensures
            name@ == self.label(),
    {
        match self {
            ShipType::ScoutDrone => "ScoutDrone",
            ShipType::MiningVessel => "MiningVessel",
            ShipType::Interceptor => "Interceptor",
            ShipType::Corvette => "Corvette",
            ShipType::Frigate => "Frigate",
            ShipType::SupplyShip => "SupplyShip",
            ShipType::Destroyer => "Destroyer",
            ShipType::GarrisonShip => "GarrisonShip",
            ShipType::Cruiser => "Cruiser",
            ShipType::Battleship => "Battleship",
            ShipType::CommandShip => "CommandShip",
            ShipType::Carrier => "Carrier",
        }
    }
}

/// A registered player.
#[derive(Debug, Clone)]
pub struct Player {
    pub id: String,
    pub name: String,
    pub current_ap: i32,
    pub max_ap: i32,
    pub credits: i32,
    pub level: u32,
    pub xp: u32,
    pub reputation: i32,
    pub owned_ships: Vec<String>,
    pub command_ships: Vec<String>,
    pub garrison_slots: i32,
}

pub struct PlayerView {
    pub id: Seq<char>,
    pub name: Seq<char>,
    pub current_ap: int,
    pub max_ap: int,
    pub credits: int,
    pub level: int,
    pub xp: int,
    pub reputation: int,
    pub owned_ships: Seq<Seq<char>>,
    pub command_ships: Seq<Seq<char>>,
    pub garrison_slots: int,
}

impl View for Player {
    type V = PlayerView;

    open spec fn view(&self) -> PlayerView {
        PlayerView {
            id: self.id@,
            name: self.name@,
            current_ap: self.current_ap as int,
            max_ap: self.max_ap as int,
            credits: self.credits as int,
            level: self.level as int,
            xp: self.xp as int,
            reputation: self.reputation as int,
            owned_ships: texts(self.owned_ships@),
            command_ships: texts(self.command_ships@),
            garrison_slots: self.garrison_slots as int,
        }
    }
}

impl PlayerView {
    /// A player who has just registered.
    pub open spec fn registered(id: Seq<char>, name: Seq<char>) -> PlayerView {
        PlayerView {
            id,
            name,
            current_ap: 50,
            max_ap: 100,
            credits: 100,
            level: 1,
            xp: 0,
            reputation: 0,
            owned_ships: Seq::empty(),
            command_ships: Seq::empty(),
            garrison_slots: 0,
        }
    }

    /// Action points after a regeneration cycle: `amount` more, and never
    /// more than the player's cap.
    pub open spec fn replenished(self, amount: int) -> PlayerView {
        PlayerView {
            current_ap: if self.current_ap + amount < self.max_ap {
                self.current_ap + amount
            } else {
                self.max_ap
            },
            ..self
        }
    }

    pub open spec fn paying(self, cost: int) -> PlayerView {
        PlayerView { current_ap: self.current_ap - cost, ..self }
    }
}

impl Player {
    /// A player who has just registered under `id`: half the action points,
    /// some credits, no ships.
    pub fn registered(id: String, name: String) -> (player: Player)
        ensures
            player@ == PlayerView::registered(id@, name@),
    {
        let player = Player {
            id,
            name,
            current_ap: 50,
            max_ap: 100,
            credits: 100,
            level: 1,
            xp: 0,
            reputation: 0,
            owned_ships: Vec::new(),
            command_ships: Vec::new(),
            garrison_slots: 0,
        };
        proof {
            assert(player@.owned_ships =~= Seq::empty());
            assert(player@.command_ships =~= Seq::empty());
        }
        player
    }
}

/// A cell of the map.
#[derive(Debug)]
pub struct Sector {
    pub id: String,
    pub name: String,
    pub position: (i32, i32),
    pub planet: String,
    pub controlled_by: Option<String>,
    pub garrison_ship: Option<String>,
    pub ships_present: Vec<String>,
}

pub struct SectorView {
    pub id: Seq<char>,
    pub name: Seq<char>,
    pub position: (i32, i32),
    pub planet: Seq<char>,
    pub controlled_by: Option<Seq<char>>,
    pub garrison_ship: Option<Seq<char>>,
    pub ships_present: Seq<Seq<char>>,
}

pub open spec fn option_text(text: Option<String>) -> Option<Seq<char>> {
    match text {
        Some(t) => Some(t@),
        None => None,
    }
}

impl View for Sector {
    type V = SectorView;

    open spec fn view(&self) -> SectorView {
        SectorView {
            id: self.id@,
            name: self.name@,
            position: self.position,
            planet: self.planet@,
            controlled_by: option_text(self.controlled_by),
            garrison_ship: option_text(self.garrison_ship),
            ships_present: texts(self.ships_present@),
        }
    }
}

/// A ship on the map.
#[derive(Debug, Clone)]
pub struct Ship {
    pub id: String,
    pub name: String,
    pub ship_type: ShipType,
    pub owner: String,
    pub current_sector: String,
    pub hp: i32,
    pub max_hp: i32,
    pub damage: i32,
    pub ap_cost: i32,
}

pub struct ShipView {
    pub id: Seq<char>,
    pub name: Seq<char>,
    pub ship_type: ShipType,
    pub owner: Seq<char>,
    pub current_sector: Seq<char>,
    pub hp: int,
    pub max_hp: int,
    pub damage: int,
    pub ap_cost: int,
}

impl View for Ship {
    type V = ShipView;

    open spec fn view(&self) -> ShipView {
        ShipView {
            id: self.id@,
            name: self.name@,
            ship_type: self.ship_type,
            owner: self.owner@,
            current_sector: self.current_sector@,
            hp: self.hp as int,
            max_hp: self.max_hp as int,
            damage: self.damage as int,
            ap_cost: self.ap_cost as int,
        }
    }
}

/// What a player can ask of the game.
#[derive(Debug, Clone)]
pub enum Command {
    Move { ship_id: String, sector_id: String },
    Scan { sector_id: String },
    Attack { target_ship_id: String },
    DeclareControl { sector_id: String, command_ship_id: String },
    SetGarrison { sector_id: String, garrison_ship_id: String },
    Status,
    Fleet,
}

/// The answer to a command: whether it was carried out, what to tell the
/// player, and the action points it cost.
#[derive(Debug, Clone)]
pub struct CommandResult {
    pub success: bool,
    pub message: String,
    pub ap_spent: i32,
}

pub struct CommandResultView {
    pub success: bool,
    pub message: Seq<char>,
    pub ap_spent: int,
}

impl View for CommandResult {
    type V = CommandResultView;

    open spec fn view(&self) -> CommandResultView {
        CommandResultView {
            success: self.success,
            message: self.message@,
            ap_spent: self.ap_spent as int,
        }
    }
}

impl CommandResultView {
    pub open spec fn failure(message: Seq<char>) -> CommandResultView {
        CommandResultView { success: false, message, ap_spent: 0 }
    }

    pub open spec fn done(message: Seq<char>, ap_spent: int) -> CommandResultView {
        CommandResultView { success: true, message, ap_spent }
    }
}

impl CommandResult {
    fn failure(message: &str) -> (result: CommandResult)
        ensures
            result@ == CommandResultView::failure(message@),
    {
        CommandResult { success: false, message: String::from_str(message), ap_spent: 0 }
    }
}

/// The whole of a networked game. Players and ships are kept in the order
/// in which they joined; each is found by its id.
#[derive(Debug)]
pub struct GameState {
    pub players: Vec<Player>,
    pub sectors: Vec<Sector>,
    pub ships: Vec<Ship>,
    pub last_cycle: u64,
    pub cycle_number: u32,
}

pub struct GameView {
    pub players: Seq<PlayerView>,
    pub sectors: Seq<SectorView>,
    pub ships: Seq<ShipView>,
    pub last_cycle: u64,
    pub cycle_number: int,
}

pub open spec fn player_views(players: Seq<Player>) -> Seq<PlayerView> {
    Seq::new(players.len(), |i: int| players[i]@)
}

pub open spec fn sector_views(sectors: Seq<Sector>) -> Seq<SectorView> {
    Seq::new(sectors.len(), |i: int| sectors[i]@)
}

pub open spec fn ship_views(ships: Seq<Ship>) -> Seq<ShipView> {
    Seq::new(ships.len(), |i: int| ships[i]@)
}

impl View for GameState {
    type V = GameView;

    open spec fn view(&self) -> GameView {
        GameView {
            players: player_views(self.players@),
            sectors: sector_views(self.sectors@),
            ships: ship_views(self.ships@),
            last_cycle: self.last_cycle,
            cycle_number: self.cycle_number as int,
        }
    }
}

/// `index` is the first place at which `id` stands in `ids`.
pub open spec fn is_first(ids: Seq<Seq<char>>, id: Seq<char>, index: int) -> bool {
    &&& 0 <= index < ids.len()
    &&& ids[index] == id
    &&& forall|earlier: int| 0 <= earlier < index ==> ids[earlier] != id
}

/// The first place at which `id` stands in `ids`, if it stands there at all.
pub open spec fn position(ids: Seq<Seq<char>>, id: Seq<char>) -> Option<int> {
    if exists|index: int| is_first(ids, id, index) {
        Some(choose|index: int| is_first(ids, id, index))
    } else {
        None
    }
}

pub proof fn lemma_position_found(ids: Seq<Seq<char>>, id: Seq<char>, index: int)
    requires
        is_first(ids, id, index),
    ensures
        position(ids, id) == Some(index),
{
    let chosen = choose|i: int| is_first(ids, id, i);
    assert(is_first(ids, id, chosen));
    if chosen < index {
        assert(ids[chosen] != id);
    }
    if index < chosen {
        assert(ids[index] != id);
    }
}

pub proof fn lemma_position_absent(ids: Seq<Seq<char>>, id: Seq<char>)
    requires
        forall|i: int| 0 <= i < ids.len() ==> ids[i] != id,
    ensures
        position(ids, id) is None,
{
}

pub open spec fn player_ids(players: Seq<PlayerView>) -> Seq<Seq<char>> {
    Seq::new(players.len(), |i: int| players[i].id)
}

pub open spec fn sector_ids(sectors: Seq<SectorView>) -> Seq<Seq<char>> {
    Seq::new(sectors.len(), |i: int| sectors[i].id)
}

pub open spec fn ship_ids(ships: Seq<ShipView>) -> Seq<Seq<char>> {
    Seq::new(ships.len(), |i: int| ships[i].id)
}

/// No two entries are the same.
pub open spec fn distinct(ids: Seq<Seq<char>>) -> bool {
    forall|i: int, j: int| 0 <= i < j < ids.len() ==> ids[i] != ids[j]
}

/// One of the sixteen cells of the grid, counted row by row.
pub open spec fn grid_sector(cell: int) -> SectorView {
    SectorView {
        id: "earth-"@ + signed_decimal(cell + 1),
        name: "E"@ + signed_decimal(cell + 1),
        position: ((cell / 4) as i32, (cell % 4) as i32),
        planet: "Earth"@,
        controlled_by: None,
        garrison_ship: None,
        ships_present: Seq::empty(),
    }
}

/// The core at the centre of the grid.
pub open spec fn core_sector() -> SectorView {
    SectorView {
        id: "earth-core"@,
        name: "Earth Core"@,
        position: (2, 2),
        planet: "Earth"@,
        controlled_by: None,
        garrison_ship: None,
        ships_present: Seq::empty(),
    }
}

/// The map of a new game: the grid, then the core.
pub open spec fn earth_map() -> Seq<SectorView> {
    Seq::new(
        17,
        |i: int|
            if i < 16 {
                grid_sector(i)
            } else {
                core_sector()
            },
    )
}

impl GameView {
    /// The invariant of a networked game: players and ships are known by
    /// their ids, one each, and no ship moves at a negative cost.
    pub open spec fn wf(self) -> bool {
        &&& distinct(player_ids(self.players))
        &&& distinct(ship_ids(self.ships))
        &&& forall|i: int| 0 <= i < self.ships.len() ==> (#[trigger] self.ships[i]).ap_cost >= 0
    }

    pub open spec fn find_player(self, id: Seq<char>) -> Option<int> {
        position(player_ids(self.players), id)
    }

    pub open spec fn find_sector(self, id: Seq<char>) -> Option<int> {
        position(sector_ids(self.sectors), id)
    }

    pub open spec fn find_ship(self, id: Seq<char>) -> Option<int> {
        position(ship_ids(self.ships), id)
    }

    /// The game after a regeneration cycle that the clock stamps `now`.
    pub open spec fn cycled(self, now: u64) -> GameView {
        GameView {
            players: Seq::new(self.players.len(), |i: int| self.players[i].replenished(CYCLE_AP as int)),
            last_cycle: now,
            cycle_number: self.cycle_number + 1,
            ..self
        }
    }

    /// Every player can take a cycle's action points, and the cycle counter
    /// can be raised.
    pub open spec fn can_cycle(self) -> bool {
        &&& self.cycle_number < u32::MAX
        &&& forall|i: int|
            0 <= i < self.players.len() ==> (#[trigger] self.players[i]).current_ap + CYCLE_AP
                <= i32::MAX
    }
}

impl GameState {
    /// A new game: the map of Earth, no players, no ships.
    pub fn new() -> (state: GameState)
        ensures
            state@.players.len() == 0,
            state@.ships.len() == 0,
            state@.sectors == earth_map(),
            state@.cycle_number == 0,
            state@.wf(),
    {
        let mut sectors: Vec<Sector> = Vec::new();
        let mut x: i32 = 0;
        while x < 4
            invariant
                0 <= x <= 4,
                sectors@.len() == x * 4,
                forall|i: int| 0 <= i < sectors@.len() ==> (#[trigger] sectors@[i])@ == grid_sector(i),
            decreases 4 - x,
        {
            let mut y: i32 = 0;
            while y < 4
                invariant
                    0 <= x < 4,
                    0 <= y <= 4,
                    sectors@.len() == x * 4 + y,
                    forall|i: int|
                        0 <= i < sectors@.len() ==> (#[trigger] sectors@[i])@ == grid_sector(i),
                decreases 4 - y,
            {
                let number = x * 4 + y + 1;
                let mut id = String::from_str("earth-");
                append_signed(&mut id, number as i64);
                let mut name = String::from_str("E");
                append_signed(&mut name, number as i64);
                let sector = Sector {
                    id,
                    name,
                    position: (x, y),
                    planet: String::from_str("Earth"),
                    controlled_by: None,
                    garrison_ship: None,
                    ships_present: Vec::new(),
                };
                proof {
                    assert(sector@.ships_present =~= Seq::empty());
                    assert(sector@ == grid_sector(x * 4 + y));
                }
                sectors.push(sector);
                y += 1;
            }
            x += 1;
        }
        let core = Sector {
            id: String::from_str("earth-core"),
            name: String::from_str("Earth Core"),
            position: (2, 2),
            planet: String::from_str("Earth"),
            controlled_by: None,
            garrison_ship: None,
            ships_present: Vec::new(),
        };
        proof {
            assert(core@.ships_present =~= Seq::empty());
        }
        sectors.push(core);
        let state = GameState {
            players: Vec::new(),
            sectors,
            ships: Vec::new(),
            last_cycle: clock_seconds(),
            cycle_number: 0,
        };
        proof {
            assert(state@.sectors =~= earth_map());
        }
        state
    }

    /// The place of the player with the given id.
    pub fn find_player(&self, id: &str) -> (found: Option<usize>)
        ensures
            match found {
                Some(index) => self@.find_player(id@) == Some(index as int),
                None => self@.find_player(id@) is None,
            },
    {
        let mut i: usize = 0;
        while i < self.players.len()
            invariant
                0 <= i <= self.players.len(),
                forall|k: int| 0 <= k < i ==> player_ids(self@.players)[k] != id@,
            decreases self.players.len() - i,
        {
            if same_text(self.players[i].id.as_str(), id) {
                proof {
                    lemma_position_found(player_ids(self@.players), id@, i as int);
                }
                return Some(i);
            }
            i += 1;
        }
        proof {
            lemma_position_absent(player_ids(self@.players), id@);
        }
        None
    }

    /// The place of the first sector with the given id.
    pub fn find_sector(&self, id: &str) -> (found: Option<usize>)
        ensures
            match found {
                Some(index) => self@.find_sector(id@) == Some(index as int),
                None => self@.find_sector(id@) is None,
            },
    {
        let mut i: usize = 0;
        while i < self.sectors.len()
            invariant
                0 <= i <= self.sectors.len(),
                forall|k: int| 0 <= k < i ==> sector_ids(self@.sectors)[k] != id@,
            decreases self.sectors.len() - i,
        {
            if same_text(self.sectors[i].id.as_str(), id) {
                proof {
                    lemma_position_found(sector_ids(self@.sectors), id@, i as int);
                }
                return Some(i);
            }
            i += 1;
        }
        proof {
            lemma_position_absent(sector_ids(self@.sectors), id@);
        }
        None
    }

    /// The place of the ship with the given id.
    pub fn find_ship(&self, id: &str) -> (found: Option<usize>)
        ensures
            match found {
                Some(index) => self@.find_ship(id@) == Some(index as int),
                None => self@.find_ship(id@) is None,
            },
    {
        let mut i: usize = 0;
        while i < self.ships.len()
            invariant
                0 <= i <= self.ships.len(),
                forall|k: int| 0 <= k < i ==> ship_ids(self@.ships)[k] != id@,
            decreases self.ships.len() - i,
        {
            if same_text(self.ships[i].id.as_str(), id) {
                proof {
                    lemma_position_found(ship_ids(self@.ships), id@, i as int);
                }
                return Some(i);
            }
            i += 1;
        }
        proof {
            lemma_position_absent(ship_ids(self@.ships), id@);
        }
        None
    }

    /// A regeneration cycle: the cycle counter rises by one, the time of the
    /// cycle is noted, and every player gains action points up to their cap.
    pub fn process_cycle(&mut self)
        requires
            old(self)@.can_cycle(),
        ensures
            final(self)@ == old(self)@.cycled(final(self).last_cycle),
            old(self)@.wf() ==> final(self)@.wf(),
            final(self).cycle_number == old(self).cycle_number + 1,
            forall|i: int|
                0 <= i < final(self)@.players.len() ==> (#[trigger] final(self)@.players[i]).current_ap
                    <= final(self)@.players[i].max_ap,
    {
        self.cycle_number += 1;
        self.last_cycle = clock_seconds();
        let mut i: usize = 0;
        while i < self.players.len()
            invariant
                0 <= i <= self.players.len(),
                self.players.len() == old(self).players.len(),
                self.sectors == old(self).sectors,
                self.ships == old(self).ships,
                self.cycle_number == old(self).cycle_number + 1,
                forall|k: int|
                    0 <= k < i ==> (#[trigger] self.players@[k])@ == old(self).players@[k]@.replenished(
                        CYCLE_AP as int,
                    ),
                forall|k: int|
                    i <= k < self.players.len() ==> (#[trigger] self.players@[k]) == old(self).players@[k],
                old(self)@.can_cycle(),
            decreases self.players.len() - i,
        {
            assert(old(self)@.players[i as int] == old(self).players@[i as int]@);
            let raised = self.players[i].current_ap + CYCLE_AP;
            let cap = self.players[i].max_ap;
            self.players[i].current_ap = if raised < cap {
                raised
            } else {
                cap
            };
            i += 1;
        }
        proof {
            let expected = old(self)@.cycled(self.last_cycle);
            assert(self@.players =~= expected.players);
            assert(player_ids(self@.players) =~= player_ids(old(self)@.players));
        }
    }
}

/// A command as plain values.
pub enum CommandView {
    Move { ship_id: Seq<char>, sector_id: Seq<char> },
    Scan { sector_id: Seq<char> },
    Attack { target_ship_id: Seq<char> },
    DeclareControl { sector_id: Seq<char>, command_ship_id: Seq<char> },
    SetGarrison { sector_id: Seq<char>, garrison_ship_id: Seq<char> },
    Status,
    Fleet,
}

impl View for Command {
    type V = CommandView;

    open spec fn view(&self) -> CommandView {
        match self {
            Command::Move { ship_id, sector_id } => CommandView::Move {
                ship_id: ship_id@,
                sector_id: sector_id@,
            },
            Command::Scan { sector_id } => CommandView::Scan { sector_id: sector_id@ },
            Command::Attack { target_ship_id } => CommandView::Attack {
                target_ship_id: target_ship_id@,
            },
            Command::DeclareControl { sector_id, command_ship_id } => CommandView::DeclareControl {
                sector_id: sector_id@,
                command_ship_id: command_ship_id@,
            },
            Command::SetGarrison { sector_id, garrison_ship_id } => CommandView::SetGarrison {
                sector_id: sector_id@,
                garrison_ship_id: garrison_ship_id@,
            },
            Command::Status => CommandView::Status,
            Command::Fleet => CommandView::Fleet,
        }
    }
}

/// A list of ids without every entry that equals `id`, in the same order.
pub open spec fn without_id(ids: Seq<Seq<char>>, id: Seq<char>) -> Seq<Seq<char>>
    decreases ids.len(),
{
    if ids.len() == 0 {
        Seq::empty()
    } else {
        let rest = without_id(ids.drop_last(), id);
        if ids.last() == id {
            rest
        } else {
            rest.push(ids.last())
        }
    }
}

fn remove_id(ids: &Vec<String>, id: &str) -> (kept: Vec<String>)
    ensures
        texts(kept@) == without_id(texts(ids@), id@),
{
    let mut kept: Vec<String> = Vec::new();
    let mut i: usize = 0;
    assert(texts(kept@) =~= without_id(texts(ids@).take(0), id@));
    while i < ids.len()
        invariant
            0 <= i <= ids.len(),
            texts(kept@) == without_id(texts(ids@).take(i as int), id@),
        decreases ids.len() - i,
    {
        proof {
            assert(texts(ids@).take(i + 1).drop_last() =~= texts(ids@).take(i as int));
            assert(texts(ids@).take(i + 1).last() == ids@[i as int]@);
        }
        if !same_text(ids[i].as_str(), id) {
            let ghost before = texts(kept@);
            kept.push(ids[i].clone());
            assert(texts(kept@) =~= before.push(ids@[i as int]@));
        }
        i += 1;
    }
    assert(texts(ids@).take(i as int) =~= texts(ids@));
    kept
}

impl GameView {
    /// The name of the player with the given id, or a stand-in for an id
    /// that no player has.
    pub open spec fn display_name(self, player_id: Seq<char>) -> Seq<char> {
        match self.find_player(player_id) {
            Some(index) => self.players[index].name,
            None => "Unknown"@,
        }
    }

    /// The name of the first sector with the given id, or a stand-in.
    pub open spec fn sector_name(self, sector_id: Seq<char>) -> Seq<char> {
        match self.find_sector(sector_id) {
            Some(index) => self.sectors[index].name,
            None => "Unknown"@,
        }
    }

    pub open spec fn short_of_points(cost: int, available: int) -> Seq<char> {
        "Not enough AP. Need "@ + signed_decimal(cost) + " but have "@ + signed_decimal(available)
    }

    /// Why a ship is not moved, if it is not.
    pub open spec fn move_refusal(self, player: int, ship_id: Seq<char>, sector_id: Seq<char>) -> Option<
        Seq<char>,
    > {
        match self.find_ship(ship_id) {
            None => Some("Ship not found"@),
            Some(ship) => if self.ships[ship].owner != self.players[player].id {
                Some("That's not your ship!"@)
            } else if self.players[player].current_ap < self.ships[ship].ap_cost {
                Some(
                    Self::short_of_points(self.ships[ship].ap_cost, self.players[player].current_ap),
                )
            } else if self.find_sector(sector_id) is None {
                Some("Target sector not found"@)
            } else {
                None
            },
        }
    }

    /// The sectors once the ship has left the one it was in.
    pub open spec fn departed(self, ship: int) -> Seq<SectorView> {
        match self.find_sector(self.ships[ship].current_sector) {
            Some(from) => self.sectors.update(
                from,
                SectorView {
                    ships_present: without_id(self.sectors[from].ships_present, self.ships[ship].id),
                    ..self.sectors[from]
                },
            ),
            None => self.sectors,
        }
    }

    /// The game once the ship has moved: it has left its sector and is
    /// present in the target, and its owner has paid the cost of the move.
    pub open spec fn ship_moved(self, player: int, ship: int, target: int) -> GameView {
        let departed = self.departed(ship);
        GameView {
            sectors: departed.update(
                target,
                SectorView {
                    ships_present: departed[target].ships_present.push(self.ships[ship].id),
                    ..departed[target]
                },
            ),
            ships: self.ships.update(
                ship,
                ShipView { current_sector: self.sectors[target].id, ..self.ships[ship] },
            ),
            players: self.players.update(
                player,
                self.players[player].paying(self.ships[ship].ap_cost),
            ),
            ..self
        }
    }

    pub open spec fn move_answer(self, player: int, ship_id: Seq<char>, sector_id: Seq<char>) -> (
        CommandResultView,
        GameView,
    ) {
        match self.move_refusal(player, ship_id, sector_id) {
            Some(reason) => (CommandResultView::failure(reason), self),
            None => {
                let ship = self.find_ship(ship_id)->0;
                let target = self.find_sector(sector_id)->0;
                (
                    CommandResultView::done(
                        self.ships[ship].name + " moved to "@ + self.sectors[target].name,
                        self.ships[ship].ap_cost,
                    ),
                    self.ship_moved(player, ship, target),
                )
            },
        }
    }

    /// Who holds the sector, as a scan reports it.
    pub open spec fn control_text(self, sector: int) -> Seq<char> {
        match self.sectors[sector].controlled_by {
            Some(holder) => "Controlled by: "@ + self.display_name(holder) + "\n"@,
            None => "Status: Neutral\n"@,
        }
    }

    /// The line a scan writes for a ship id: empty for an id that no ship
    /// has.
    pub open spec fn ship_line(self, ship_id: Seq<char>) -> Seq<char> {
        match self.find_ship(ship_id) {
            Some(ship) => "- "@ + self.ships[ship].name + " ("@ + self.ships[ship].ship_type.label()
                + ") [Owner: "@ + self.display_name(self.ships[ship].owner) + "]\n"@,
            None => Seq::empty(),
        }
    }

    /// The lines of the first `upto` ids.
    pub open spec fn ship_lines(self, ids: Seq<Seq<char>>, upto: nat) -> Seq<char>
        decreases upto,
    {
        if upto == 0 {
            Seq::empty()
        } else {
            self.ship_lines(ids, (upto - 1) as nat) + self.ship_line(ids[upto - 1])
        }
    }

    /// The ships in the sector, as a scan reports them.
    pub open spec fn presence_text(self, sector: int) -> Seq<char> {
        let present = self.sectors[sector].ships_present;
        if present.len() > 0 {
            "\nShips present:\n"@ + self.ship_lines(present, present.len())
        } else {
            "\nNo ships detected\n"@
        }
    }

    pub open spec fn scan_report(self, sector: int) -> Seq<char> {
        "=== Sector "@ + self.sectors[sector].name + " ("@ + self.sectors[sector].planet
            + ") ===\n"@ + "Position: ("@ + signed_decimal(self.sectors[sector].position.0 as int)
            + ", "@ + signed_decimal(self.sectors[sector].position.1 as int) + ")\n"@
            + self.control_text(sector) + self.presence_text(sector)
    }

    pub open spec fn scan_answer(self, player: int, sector_id: Seq<char>) -> (
        CommandResultView,
        GameView,
    ) {
        if self.players[player].current_ap < SCAN_COST {
            (CommandResultView::failure("Not enough AP for scan (need 3)"@), self)
        } else {
            match self.find_sector(sector_id) {
                None => (CommandResultView::failure("Sector not found"@), self),
                Some(sector) => (
                    CommandResultView::done(self.scan_report(sector), SCAN_COST as int),
                    GameView {
                        players: self.players.update(
                            player,
                            self.players[player].paying(SCAN_COST as int),
                        ),
                        ..self
                    },
                ),
            }
        }
    }

    pub open spec fn status_text(self, player: int) -> Seq<char> {
        let p = self.players[player];
        "=== Status ===\nName: "@ + p.name + "\nLevel: "@ + decimal(p.level as nat) + " (XP: "@
            + decimal(p.xp as nat) + ")\nAP: "@ + signed_decimal(p.current_ap) + "/"@
            + signed_decimal(p.max_ap) + "\nCredits: "@ + signed_decimal(p.credits)
            + "\nReputation: "@ + signed_decimal(p.reputation) + "\nShips: "@ + decimal(
            p.owned_ships.len(),
        ) + "\nCommand Ships: "@ + decimal(p.command_ships.len()) + "\nAvailable Garrisons: "@
            + signed_decimal(p.garrison_slots)
    }

    /// The line a fleet report writes for a ship id: empty for an id that
    /// no ship has.
    pub open spec fn fleet_line(self, ship_id: Seq<char>) -> Seq<char> {
        match self.find_ship(ship_id) {
            Some(ship) => self.ships[ship].name + " ("@ + self.ships[ship].ship_type.label()
                + ") - Location: "@ + self.sector_name(self.ships[ship].current_sector) + " - HP: "@
                + signed_decimal(self.ships[ship].hp) + "/"@ + signed_decimal(
                self.ships[ship].max_hp,
            ) + "\n"@,
            None => Seq::empty(),
        }
    }

    pub open spec fn fleet_lines(self, ids: Seq<Seq<char>>, upto: nat) -> Seq<char>
        decreases upto,
    {
        if upto == 0 {
            "=== Fleet Status ===\n"@
        } else {
            self.fleet_lines(ids, (upto - 1) as nat) + self.fleet_line(ids[upto - 1])
        }
    }

    pub open spec fn fleet_text(self, player: int) -> Seq<char> {
        self.fleet_lines(self.players[player].owned_ships, self.players[player].owned_ships.len())
    }

    /// Why control is not declared, if it is not.
    pub open spec fn declare_refusal(
        self,
        player: int,
        sector_id: Seq<char>,
        command_ship_id: Seq<char>,
    ) -> Option<Seq<char>> {
        match self.find_ship(command_ship_id) {
            None => Some("Command ship not found"@),
            Some(ship) => if self.ships[ship].owner != self.players[player].id {
                Some("That's not your command ship!"@)
            } else if self.ships[ship].ship_type != ShipType::CommandShip {
                Some("Only command ships can declare control"@)
            } else if self.ships[ship].current_sector != sector_id {
                Some("Command ship must be in the sector to declare control"@)
            } else if self.players[player].current_ap < DECLARE_COST {
                Some(Self::short_of_points(DECLARE_COST as int, self.players[player].current_ap))
            } else {
                None
            },
        }
    }

    /// The game once the player holds the first sector with the given id,
    /// if there is one, and has paid for the declaration.
    pub open spec fn control_declared(self, player: int, sector_id: Seq<char>) -> GameView {
        GameView {
            sectors: match self.find_sector(sector_id) {
                Some(sector) => self.sectors.update(
                    sector,
                    SectorView {
                        controlled_by: Some(self.players[player].id),
                        ..self.sectors[sector]
                    },
                ),
                None => self.sectors,
            },
            players: self.players.update(player, self.players[player].paying(DECLARE_COST as int)),
            ..self
        }
    }

    pub open spec fn declare_answer(
        self,
        player: int,
        sector_id: Seq<char>,
        command_ship_id: Seq<char>,
    ) -> (CommandResultView, GameView) {
        match self.declare_refusal(player, sector_id, command_ship_id) {
            Some(reason) => (CommandResultView::failure(reason), self),
            None => (
                CommandResultView::done(
                    "Control declared over sector "@ + sector_id,
                    DECLARE_COST as int,
                ),
                self.control_declared(player, sector_id),
            ),
        }
    }

    /// Why a garrison is not set, if it is not.
    pub open spec fn garrison_refusal(
        self,
        player: int,
        sector_id: Seq<char>,
        garrison_ship_id: Seq<char>,
    ) -> Option<Seq<char>> {
        match self.find_ship(garrison_ship_id) {
            None => Some("Invalid garrison ship"@),
            Some(ship) => if self.ships[ship].owner != self.players[player].id
                || self.ships[ship].ship_type != ShipType::GarrisonShip {
                Some("Invalid garrison ship"@)
            } else {
                match self.find_sector(sector_id) {
                    None => Some("You don't control this sector"@),
                    Some(sector) => if self.sectors[sector].controlled_by != Some(
                        self.players[player].id,
                    ) {
                        Some("You don't control this sector"@)
                    } else if self.ships[ship].current_sector != sector_id {
                        Some("Garrison ship must be in the sector"@)
                    } else {
                        None
                    },
                }
            },
        }
    }

    pub open spec fn garrison_answer(
        self,
        player: int,
        sector_id: Seq<char>,
        garrison_ship_id: Seq<char>,
    ) -> (CommandResultView, GameView) {
        match self.garrison_refusal(player, sector_id, garrison_ship_id) {
            Some(reason) => (CommandResultView::failure(reason), self),
            None => {
                let sector = self.find_sector(sector_id)->0;
                (
                    CommandResultView::done(
                        "Garrison established in "@ + self.sectors[sector].name,
                        0,
                    ),
                    GameView {
                        sectors: self.sectors.update(
                            sector,
                            SectorView {
                                garrison_ship: Some(garrison_ship_id),
                                ..self.sectors[sector]
                            },
                        ),
                        ..self
                    },
                )
            },
        }
    }

    /// The answer to a command of the player with the given id, and the
    /// game after it. A command of an unknown player, a command that is
    /// refused and a command that only asks leave the game as it was.
    pub open spec fn answer(self, player_id: Seq<char>, command: CommandView) -> (
        CommandResultView,
        GameView,
    ) {
        match self.find_player(player_id) {
            None => (CommandResultView::failure("Player not found"@), self),
            Some(player) => match command {
                CommandView::Move { ship_id, sector_id } => self.move_answer(
                    player,
                    ship_id,
                    sector_id,
                ),
                CommandView::Scan { sector_id } => self.scan_answer(player, sector_id),
                CommandView::Status => (CommandResultView::done(self.status_text(player), 0), self),
                CommandView::Fleet => (CommandResultView::done(self.fleet_text(player), 0), self),
                CommandView::DeclareControl { sector_id, command_ship_id } => self.declare_answer(
                    player,
                    sector_id,
                    command_ship_id,
                ),
                CommandView::SetGarrison { sector_id, garrison_ship_id } => self.garrison_answer(
                    player,
                    sector_id,
                    garrison_ship_id,
                ),
                CommandView::Attack { .. } => (
                    CommandResultView::failure("Command not implemented yet"@),
                    self,
                ),
            },
        }
    }
}

impl GameState {
    fn name_of(&self, player_id: &str) -> (name: String)
        ensures
            name@ == self@.display_name(player_id@),
    {
        match self.find_player(player_id) {
            Some(index) => {
                assert(self@.players[index as int] == self.players@[index as int]@);
                self.players[index].name.clone()
            },
            None => String::from_str("Unknown"),
        }
    }

    fn sector_name_of(&self, sector_id: &str) -> (name: String)
        ensures
            name@ == self@.sector_name(sector_id@),
    {
        match self.find_sector(sector_id) {
            Some(index) => {
                assert(self@.sectors[index as int] == self.sectors@[index as int]@);
                self.sectors[index].name.clone()
            },
            None => String::from_str("Unknown"),
        }
    }

    fn short_of_points(cost: i32, available: i32) -> (message: String)
        ensures
            message@ == GameView::short_of_points(cost as int, available as int),
    {
        let mut message = String::from_str("Not enough AP. Need ");
        append_signed(&mut message, cost as i64);
        message.append(" but have ");
        append_signed(&mut message, available as i64);
        message
    }

    fn move_ship(&mut self, player: usize, ship_id: &str, target_sector_id: &str) -> (result:
        CommandResult)
        requires
            old(self)@.wf(),
            player < old(self).players.len(),
        ensures
            (result@, final(self)@) == old(self)@.move_answer(
                player as int,
                ship_id@,
                target_sector_id@,
            ),
            final(self)@.wf(),
    {
        let ship = match self.find_ship(ship_id) {
            Some(index) => index,
            None => {
                return CommandResult::failure("Ship not found");
            },
        };
        assert(self@.ships[ship as int] == self.ships@[ship as int]@);
        assert(self@.players[player as int] == self.players@[player as int]@);
        assert(ship_ids(self@.ships)[ship as int] == ship_id@);
        if !same_text(self.ships[ship].owner.as_str(), self.players[player].id.as_str()) {
            return CommandResult::failure("That's not your ship!");
        }
        let cost = self.ships[ship].ap_cost;
        if self.players[player].current_ap < cost {
            return CommandResult {
                success: false,
                message: Self::short_of_points(cost, self.players[player].current_ap),
                ap_spent: 0,
            };
        }
        let target = match self.find_sector(target_sector_id) {
            Some(index) => index,
            None => {
                return CommandResult::failure("Target sector not found");
            },
        };
        assert(self@.sectors[target as int] == self.sectors@[target as int]@);
        assert(sector_ids(self@.sectors)[target as int] == target_sector_id@);
        let mut message = self.ships[ship].name.clone();
        message.append(" moved to ");
        message.append(self.sectors[target].name.as_str());
        match self.find_sector(self.ships[ship].current_sector.as_str()) {
            Some(from) => {
                assert(self@.sectors[from as int] == self.sectors@[from as int]@);
                let kept = remove_id(&self.sectors[from].ships_present, ship_id);
                self.sectors[from].ships_present = kept;
            },
            None => {},
        }
        proof {
            assert(self@.sectors =~= old(self)@.departed(ship as int));
        }
        let ghost departed = self@.sectors;
        self.sectors[target].ships_present.push(String::from_str(ship_id));
        proof {
            assert(self@.sectors[target as int].ships_present =~= departed[target as int].ships_present.push(
                ship_id@,
            ));
            assert(self@.sectors =~= departed.update(
                target as int,
                SectorView {
                    ships_present: departed[target as int].ships_present.push(ship_id@),
                    ..departed[target as int]
                },
            ));
        }
        self.ships[ship].current_sector = String::from_str(target_sector_id);
        self.players[player].current_ap -= cost;
        proof {
            let expected = old(self)@.ship_moved(player as int, ship as int, target as int);
            assert(self@.ships =~= expected.ships);
            assert(self@.players =~= expected.players);
            assert(self@.sectors == expected.sectors);
            assert(ship_ids(self@.ships) =~= ship_ids(old(self)@.ships));
            assert(player_ids(self@.players) =~= player_ids(old(self)@.players));
        }
        CommandResult { success: true, message, ap_spent: cost }
    }

    fn control_line(&self, sector: usize) -> (line: String)
        requires
            sector < self.sectors.len(),
        ensures
            line@ == self@.control_text(sector as int),
    {
        assert(self@.sectors[sector as int] == self.sectors@[sector as int]@);
        match &self.sectors[sector].controlled_by {
            Some(holder) => {
                let mut line = String::from_str("Controlled by: ");
                line.append(self.name_of(holder.as_str()).as_str());
                line.append("\n");
                line
            },
            None => String::from_str("Status: Neutral\n"),
        }
    }

    fn ship_line(&self, ship_id: &str) -> (line: String)
        ensures
            line@ == self@.ship_line(ship_id@),
    {
        match self.find_ship(ship_id) {
            Some(ship) => {
                assert(self@.ships[ship as int] == self.ships@[ship as int]@);
                let mut line = String::from_str("- ");
                line.append(self.ships[ship].name.as_str());
                line.append(" (");
                line.append(self.ships[ship].ship_type.name());
                line.append(") [Owner: ");
                line.append(self.name_of(self.ships[ship].owner.as_str()).as_str());
                line.append("]\n");
                line
            },
            None => String::new(),
        }
    }

    fn presence_lines(&self, sector: usize) -> (text: String)
        requires
            sector < self.sectors.len(),
        ensures
            text@ == self@.presence_text(sector as int),
    {
        assert(self@.sectors[sector as int] == self.sectors@[sector as int]@);
        let present = &self.sectors[sector].ships_present;
        if present.len() == 0 {
            return String::from_str("\nNo ships detected\n");
        }
        let mut lines = String::new();
        let mut i: usize = 0;
        while i < present.len()
            invariant
                0 <= i <= present.len(),
                lines@ == self@.ship_lines(texts(present@), i as nat),
            decreases present.len() - i,
        {
            assert(texts(present@)[i as int] == present@[i as int]@);
            lines.append(self.ship_line(present[i].as_str()).as_str());
            i += 1;
        }
        let mut text = String::from_str("\nShips present:\n");
        text.append(lines.as_str());
        text
    }

    fn scan_sector(&mut self, player: usize, sector_id: &str) -> (result: CommandResult)
        requires
            old(self)@.wf(),
            player < old(self).players.len(),
        ensures
            (result@, final(self)@) == old(self)@.scan_answer(player as int, sector_id@),
            final(self)@.wf(),
    {
        assert(self@.players[player as int] == self.players@[player as int]@);
        if self.players[player].current_ap < SCAN_COST {
            return CommandResult::failure("Not enough AP for scan (need 3)");
        }
        let sector = match self.find_sector(sector_id) {
            Some(index) => index,
            None => {
                return CommandResult::failure("Sector not found");
            },
        };
        assert(self@.sectors[sector as int] == self.sectors@[sector as int]@);
        let mut report = String::from_str("=== Sector ");
        report.append(self.sectors[sector].name.as_str());
        report.append(" (");
        report.append(self.sectors[sector].planet.as_str());
        report.append(") ===\n");
        report.append("Position: (");
        append_signed(&mut report, self.sectors[sector].position.0 as i64);
        report.append(", ");
        append_signed(&mut report, self.sectors[sector].position.1 as i64);
        report.append(")\n");
        report.append(self.control_line(sector).as_str());
        report.append(self.presence_lines(sector).as_str());
        self.players[player].current_ap -= SCAN_COST;
        proof {
            let expected = old(self)@.scan_answer(player as int, sector_id@).1;
            assert(self@.players =~= expected.players);
            assert(player_ids(self@.players) =~= player_ids(old(self)@.players));
        }
        CommandResult { success: true, message: report, ap_spent: SCAN_COST }
    }

    fn player_status(&self, player: usize) -> (result: CommandResult)
        requires
            player < self.players.len(),
        ensures
            result@ == CommandResultView::done(self@.status_text(player as int), 0),
    {
        assert(self@.players[player as int] == self.players@[player as int]@);
        let p = &self.players[player];
        let mut status = String::from_str("=== Status ===\nName: ");
        status.append(p.name.as_str());
        status.append("\nLevel: ");
        append_decimal(&mut status, p.level as u64);
        status.append(" (XP: ");
        append_decimal(&mut status, p.xp as u64);
        status.append(")\nAP: ");
        append_signed(&mut status, p.current_ap as i64);
        status.append("/");
        append_signed(&mut status, p.max_ap as i64);
        status.append("\nCredits: ");
        append_signed(&mut status, p.credits as i64);
        status.append("\nReputation: ");
        append_signed(&mut status, p.reputation as i64);
        status.append("\nShips: ");
        append_decimal(&mut status, p.owned_ships.len() as u64);
        status.append("\nCommand Ships: ");
        append_decimal(&mut status, p.command_ships.len() as u64);
        status.append("\nAvailable Garrisons: ");
        append_signed(&mut status, p.garrison_slots as i64);
        CommandResult { success: true, message: status, ap_spent: 0 }
    }

    fn fleet_line(&self, ship_id: &str) -> (line: String)
        ensures
            line@ == self@.fleet_line(ship_id@),
    {
        match self.find_ship(ship_id) {
            Some(ship) => {
                assert(self@.ships[ship as int] == self.ships@[ship as int]@);
                let mut line = self.ships[ship].name.clone();
                line.append(" (");
                line.append(self.ships[ship].ship_type.name());
                line.append(") - Location: ");
                line.append(self.sector_name_of(self.ships[ship].current_sector.as_str()).as_str());
                line.append(" - HP: ");
                append_signed(&mut line, self.ships[ship].hp as i64);
                line.append("/");
                append_signed(&mut line, self.ships[ship].max_hp as i64);
                line.append("\n");
                line
            },
            None => String::new(),
        }
    }

    fn fleet_status(&self, player: usize) -> (result: CommandResult)
        requires
            player < self.players.len(),
        ensures
            result@ == CommandResultView::done(self@.fleet_text(player as int), 0),
    {
        assert(self@.players[player as int] == self.players@[player as int]@);
        let owned = &self.players[player].owned_ships;
        let mut report = String::from_str("=== Fleet Status ===\n");
        let mut i: usize = 0;
        while i < owned.len()
            invariant
                0 <= i <= owned.len(),
                report@ == self@.fleet_lines(texts(owned@), i as nat),
            decreases owned.len() - i,
        {
            assert(texts(owned@)[i as int] == owned@[i as int]@);
            report.append(self.fleet_line(owned[i].as_str()).as_str());
            i += 1;
        }
        CommandResult { success: true, message: report, ap_spent: 0 }
    }

    fn declare_control(&mut self, player: usize, sector_id: &str, command_ship_id: &str) -> (result:
        CommandResult)
        requires
            old(self)@.wf(),
            player < old(self).players.len(),
        ensures
            (result@, final(self)@) == old(self)@.declare_answer(
                player as int,
                sector_id@,
                command_ship_id@,
            ),
            final(self)@.wf(),
    {
        let ship = match self.find_ship(command_ship_id) {
            Some(index) => index,
            None => {
                return CommandResult::failure("Command ship not found");
            },
        };
        assert(self@.ships[ship as int] == self.ships@[ship as int]@);
        assert(self@.players[player as int] == self.players@[player as int]@);
        if !same_text(self.ships[ship].owner.as_str(), self.players[player].id.as_str()) {
            return CommandResult::failure("That's not your command ship!");
        }
        if self.ships[ship].ship_type != ShipType::CommandShip {
            return CommandResult::failure("Only command ships can declare control");
        }
        if !same_text(self.ships[ship].current_sector.as_str(), sector_id) {
            return CommandResult::failure("Command ship must be in the sector to declare control");
        }
        if self.players[player].current_ap < DECLARE_COST {
            return CommandResult {
                success: false,
                message: Self::short_of_points(DECLARE_COST, self.players[player].current_ap),
                ap_spent: 0,
            };
        }
        match self.find_sector(sector_id) {
            Some(sector) => {
                assert(self@.sectors[sector as int] == self.sectors@[sector as int]@);
                self.sectors[sector].controlled_by = Some(self.players[player].id.clone());
            },
            None => {},
        }
        self.players[player].current_ap -= DECLARE_COST;
        let mut message = String::from_str("Control declared over sector ");
        message.append(sector_id);
        proof {
            let expected = old(self)@.control_declared(player as int, sector_id@);
            assert(self@.sectors =~= expected.sectors);
            assert(self@.players =~= expected.players);
            assert(player_ids(self@.players) =~= player_ids(old(self)@.players));
        }
        CommandResult { success: true, message, ap_spent: DECLARE_COST }
    }

    fn set_garrison(&mut self, player: usize, sector_id: &str, garrison_ship_id: &str) -> (result:
        CommandResult)
        requires
            old(self)@.wf(),
            player < old(self).players.len(),
        ensures
            (result@, final(self)@) == old(self)@.garrison_answer(
                player as int,
                sector_id@,
                garrison_ship_id@,
            ),
            final(self)@.wf(),
    {
        let ship = match self.find_ship(garrison_ship_id) {
            Some(index) => index,
            None => {
                return CommandResult::failure("Invalid garrison ship");
            },
        };
        assert(self@.ships[ship as int] == self.ships@[ship as int]@);
        assert(self@.players[player as int] == self.players@[player as int]@);
        if !same_text(self.ships[ship].owner.as_str(), self.players[player].id.as_str())
            || self.ships[ship].ship_type != ShipType::GarrisonShip {
            return CommandResult::failure("Invalid garrison ship");
        }
        let sector = match self.find_sector(sector_id) {
            Some(index) => index,
            None => {
                return CommandResult::failure("You don't control this sector");
            },
        };
        assert(self@.sectors[sector as int] == self.sectors@[sector as int]@);
        let held = match &self.sectors[sector].controlled_by {
            Some(holder) => same_text(holder.as_str(), self.players[player].id.as_str()),
            None => false,
        };
        if !held {
            return CommandResult::failure("You don't control this sector");
        }
        if !same_text(self.ships[ship].current_sector.as_str(), sector_id) {
            return CommandResult::failure("Garrison ship must be in the sector");
        }
        self.sectors[sector].garrison_ship = Some(String::from_str(garrison_ship_id));
        let mut message = String::from_str("Garrison established in ");
        message.append(self.sectors[sector].name.as_str());
        proof {
            let expected = old(self)@.garrison_answer(player as int, sector_id@, garrison_ship_id@).1;
            assert(self@.sectors =~= expected.sectors);
        }
        CommandResult { success: true, message, ap_spent: 0 }
    }

    /// Answers a command of the player with the given id. Only moving a
    /// ship, scanning, declaring control and setting a garrison change the
    /// game, and only where they are not refused.
    pub fn execute_command(&mut self, player_id: &str, command: Command) -> (result: CommandResult)
        requires
            old(self)@.wf(),
        ensures
            (result@, final(self)@) == old(self)@.answer(player_id@, command@),
            final(self)@.wf(),
    {
        let player = match self.find_player(player_id) {
            Some(index) => index,
            None => {
                return CommandResult::failure("Player not found");
            },
        };
        match command {
            Command::Move { ship_id, sector_id } => self.move_ship(
                player,
                ship_id.as_str(),
                sector_id.as_str(),
            ),
            Command::Scan { sector_id } => self.scan_sector(player, sector_id.as_str()),
            Command::Status => self.player_status(player),
            Command::Fleet => self.fleet_status(player),
            Command::DeclareControl { sector_id, command_ship_id } => self.declare_control(
                player,
                sector_id.as_str(),
                command_ship_id.as_str(),
            ),
            Command::SetGarrison { sector_id, garrison_ship_id } => self.set_garrison(
                player,
                sector_id.as_str(),
                garrison_ship_id.as_str(),
            ),
            Command::Attack { .. } => CommandResult::failure("Command not implemented yet"),
        }
    }
}

impl GameView {
    /// The players once `player` has joined: in the place of the player who
    /// had the same id, or else behind all others.
    pub open spec fn with_player(self, player: PlayerView) -> GameView {
        GameView {
            players: match self.find_player(player.id) {
                Some(index) => self.players.update(index, player),
                None => self.players.push(player),
            },
            ..self
        }
    }

    /// The ships once `ship` has joined: in the place of the ship that had
    /// the same id, or else behind all others.
    pub open spec fn with_ship(self, ship: ShipView) -> GameView {
        GameView {
            ships: match self.find_ship(ship.id) {
                Some(index) => self.ships.update(index, ship),
                None => self.ships.push(ship),
            },
            ..self
        }
    }
}

impl GameState {
    /// Registers a player under the player's id. A player who was known
    /// under that id is replaced.
    pub fn insert_player(&mut self, player: Player)
        requires
            old(self)@.wf(),
        ensures
            final(self)@ == old(self)@.with_player(player@),
            final(self)@.wf(),
    {
        let ghost joined = player@;
        match self.find_player(player.id.as_str()) {
            Some(index) => {
                self.players[index] = player;
                proof {
                    assert(self@.players =~= old(self)@.players.update(index as int, joined));
                    assert(player_ids(self@.players) =~= player_ids(old(self)@.players));
                }
            },
            None => {
                self.players.push(player);
                proof {
                    assert(self@.players =~= old(self)@.players.push(joined));
                    let before = player_ids(old(self)@.players);
                    let after = player_ids(self@.players);
                    assert(after =~= before.push(joined.id));
                    assert forall|i: int, j: int| 0 <= i < j < after.len() implies after[i]
                        != after[j] by {
                        if j == before.len() {
                            if after[i] == after[j] {
                                lemma_position_exists(before, joined.id, i);
                            }
                        } else {
                            assert(before[i] != before[j]);
                        }
                    }
                }
            },
        }
    }

    /// Puts a ship on record under its id. A ship that was known under that
    /// id is replaced.
    pub fn insert_ship(&mut self, ship: Ship)
        requires
            old(self)@.wf(),
            ship.ap_cost >= 0,
        ensures
            final(self)@ == old(self)@.with_ship(ship@),
            final(self)@.wf(),
    {
        let ghost joined = ship@;
        match self.find_ship(ship.id.as_str()) {
            Some(index) => {
                self.ships[index] = ship;
                proof {
                    assert(self@.ships =~= old(self)@.ships.update(index as int, joined));
                    assert(ship_ids(self@.ships) =~= ship_ids(old(self)@.ships));
                    assert forall|i: int| 0 <= i < self@.ships.len() implies (
                    #[trigger] self@.ships[i]).ap_cost >= 0 by {
                        if i != index {
                            assert(self@.ships[i] == old(self)@.ships[i]);
                        }
                    }
                }
            },
            None => {
                self.ships.push(ship);
                proof {
                    assert(self@.ships =~= old(self)@.ships.push(joined));
                    let before = ship_ids(old(self)@.ships);
                    let after = ship_ids(self@.ships);
                    assert(after =~= before.push(joined.id));
                    assert forall|i: int, j: int| 0 <= i < j < after.len() implies after[i]
                        != after[j] by {
                        if j == before.len() {
                            if after[i] == after[j] {
                                lemma_position_exists(before, joined.id, i);
                            }
                        } else {
                            assert(before[i] != before[j]);
                        }
                    }
                    assert forall|i: int| 0 <= i < self@.ships.len() implies (
                    #[trigger] self@.ships[i]).ap_cost >= 0 by {
                        if i < old(self)@.ships.len() {
                            assert(self@.ships[i] == old(self)@.ships[i]);
                        }
                    }
                }
            },
        }
    }
}

/// An id that stands in a list has a first place there.
pub proof fn lemma_position_exists(ids: Seq<Seq<char>>, id: Seq<char>, index: int)
    requires
        0 <= index < ids.len(),
        ids[index] == id,
    ensures
        position(ids, id) is Some,
    decreases index,
{
    if forall|earlier: int| 0 <= earlier < index ==> ids[earlier] != id {
        assert(is_first(ids, id, index));
    } else {
        let earlier = choose|earlier: int| 0 <= earlier < index && ids[earlier] == id;
        lemma_position_exists(ids, id, earlier);
    }
}

impl GameState {
    /// Whether the game meets its invariant.
    pub fn is_well_formed(&self) -> (sound: bool)
        ensures
            sound == self@.wf(),
    {
        let ghost pids = player_ids(self@.players);
        let ghost sids = ship_ids(self@.ships);
        let mut j: usize = 0;
        while j < self.players.len()
            invariant
                0 <= j <= self.players.len(),
                pids == player_ids(self@.players),
                forall|a: int, b: int| 0 <= a < b < j ==> pids[a] != pids[b],
            decreases self.players.len() - j,
        {
            let mut i: usize = 0;
            while i < j
                invariant
                    0 <= i <= j < self.players.len(),
                    pids == player_ids(self@.players),
                    forall|a: int| 0 <= a < i ==> pids[a] != pids[j as int],
                decreases j - i,
            {
                if same_text(self.players[i].id.as_str(), self.players[j].id.as_str()) {
                    assert(pids[i as int] == pids[j as int]);
                    return false;
                }
                i += 1;
            }
            j += 1;
        }
        let mut j: usize = 0;
        while j < self.ships.len()
            invariant
                0 <= j <= self.ships.len(),
                distinct(pids),
                pids == player_ids(self@.players),
                sids == ship_ids(self@.ships),
                forall|a: int, b: int| 0 <= a < b < j ==> sids[a] != sids[b],
                forall|a: int| 0 <= a < j ==> (#[trigger] self@.ships[a]).ap_cost >= 0,
            decreases self.ships.len() - j,
        {
            assert(self@.ships[j as int] == self.ships@[j as int]@);
            if self.ships[j].ap_cost < 0 {
                return false;
            }
            let mut i: usize = 0;
            while i < j
                invariant
                    0 <= i <= j < self.ships.len(),
                    sids == ship_ids(self@.ships),
                    forall|a: int| 0 <= a < i ==> sids[a] != sids[j as int],
                decreases j - i,
            {
                if same_text(self.ships[i].id.as_str(), self.ships[j].id.as_str()) {
                    assert(sids[i as int] == sids[j as int]);
                    return false;
                }
                i += 1;
            }
            j += 1;
        }
        true
    }

    /// Whether a regeneration cycle can be processed without any number
    /// leaving its range.
    pub fn can_cycle(&self) -> (able: bool)
        ensures
            able == self@.can_cycle(),
    {
        if self.cycle_number == u32::MAX {
            return false;
        }
        let mut i: usize = 0;
        while i < self.players.len()
            invariant
                0 <= i <= self.players.len(),
                forall|k: int|
                    0 <= k < i ==> (#[trigger] self@.players[k]).current_ap + CYCLE_AP <= i32::MAX,
            decreases self.players.len() - i,
        {
            assert(self@.players[i as int] == self.players@[i as int]@);
            if self.players[i].current_ap > i32::MAX - CYCLE_AP {
                return false;
            }
            i += 1;
        }
        true
    }
}

/// A player of the development game: registered, with one ship.
pub open spec fn starter_player(id: Seq<char>, name: Seq<char>, ship_id: Seq<char>) -> PlayerView {
    PlayerView { owned_ships: seq![ship_id], ..PlayerView::registered(id, name) }
}

/// A frigate at full strength.
pub open spec fn starter_frigate(
    id: Seq<char>,
    name: Seq<char>,
    owner: Seq<char>,
    sector: Seq<char>,
) -> ShipView {
    ShipView {
        id,
        name,
        ship_type: ShipType::Frigate,
        owner,
        current_sector: sector,
        hp: ShipType::Frigate.stats().0 as int,
        max_hp: ShipType::Frigate.stats().0 as int,
        damage: ShipType::Frigate.stats().1 as int,
        ap_cost: ShipType::Frigate.stats().2 as int,
    }
}

/// A sector with one more ship present.
pub open spec fn hosting(sector: SectorView, ship_id: Seq<char>) -> SectorView {
    SectorView { ships_present: sector.ships_present.push(ship_id), ..sector }
}

/// The game that a server starts with when it finds none saved: two
/// commanders, each with a frigate, in opposite corners of the grid.
pub open spec fn development_game(now: u64) -> GameView {
    GameView {
        players: seq![
            starter_player("test-player-1"@, "Commander Alpha"@, "ship-1"@),
            starter_player("test-player-2"@, "Commander Beta"@, "ship-2"@),
        ],
        sectors: earth_map().update(0, hosting(earth_map()[0], "ship-1"@)).update(
            15,
            hosting(earth_map()[15], "ship-2"@),
        ),
        ships: seq![
            starter_frigate("ship-1"@, "Pioneer"@, "test-player-1"@, "earth-1"@),
            starter_frigate("ship-2"@, "Voyager"@, "test-player-2"@, "earth-16"@),
        ],
        last_cycle: now,
        cycle_number: 0,
    }
}

fn frigate(id: &str, name: &str, owner: &str, sector: &str) -> (ship: Ship)
    ensures
        ship@ == starter_frigate(id@, name@, owner@, sector@),
{
    let (hp, damage, ap_cost) = ShipType::Frigate.get_stats();
    Ship {
        id: String::from_str(id),
        name: String::from_str(name),
        ship_type: ShipType::Frigate,
        owner: String::from_str(owner),
        current_sector: String::from_str(sector),
        hp,
        max_hp: hp,
        damage,
        ap_cost,
    }
}

fn commander(id: &str, name: &str, ship_id: &str) -> (player: Player)
    ensures
        player@ == starter_player(id@, name@, ship_id@),
{
    let mut player = Player::registered(String::from_str(id), String::from_str(name));
    player.owned_ships.push(String::from_str(ship_id));
    assert(player@.owned_ships =~= seq![ship_id@]);
    assert(player@.command_ships =~= Seq::empty());
    player
}

/// Sets up the game that a server starts with when it finds none saved.
pub fn create_new_game_state() -> (state: GameState)
    ensures
        state@ == development_game(state.last_cycle),
        state@.wf(),
{
    let mut state = GameState::new();
    assert(state.sectors@.len() == state@.sectors.len() == 17);
    state.players.push(commander("test-player-1", "Commander Alpha", "ship-1"));
    state.players.push(commander("test-player-2", "Commander Beta", "ship-2"));
    state.ships.push(frigate("ship-1", "Pioneer", "test-player-1", "earth-1"));
    state.ships.push(frigate("ship-2", "Voyager", "test-player-2", "earth-16"));
    let ghost map = state@.sectors;
    assert(map == earth_map());
    assert(map[0] == state.sectors@[0]@ && map[15] == state.sectors@[15]@);
    state.sectors[0].ships_present.push(String::from_str("ship-1"));
    assert(state.sectors@[0]@.ships_present =~= map[0].ships_present.push("ship-1"@));
    state.sectors[15].ships_present.push(String::from_str("ship-2"));
    assert(state.sectors@[15]@.ships_present =~= map[15].ships_present.push("ship-2"@));
    proof {
        let expected = development_game(state.last_cycle);
        reveal_strlit("test-player-1");
        reveal_strlit("test-player-2");
        reveal_strlit("ship-1");
        reveal_strlit("ship-2");
        assert("test-player-1"@[12] != "test-player-2"@[12]);
        assert("ship-1"@[5] != "ship-2"@[5]);
        assert(state@.players =~= expected.players);
        assert(state@.ships =~= expected.ships);
        assert(state@.sectors[0].ships_present =~= map[0].ships_present.push("ship-1"@));
        assert(state@.sectors[15].ships_present =~= map[15].ships_present.push("ship-2"@));
        assert(state@.sectors =~= expected.sectors);
    }
    state
}

impl GameState {
    /// What listeners are told once a cycle is complete.
    pub fn cycle_notice(&self) -> (notice: String)
        ensures
            notice@ == "Cycle "@ + decimal(self.cycle_number as nat) + " complete! +50 AP added"@,
    {
        let mut notice = String::from_str("Cycle ");
        append_decimal(&mut notice, self.cycle_number as u64);
        notice.append(" complete! +50 AP added");
        notice
    }
}

} // verus!
