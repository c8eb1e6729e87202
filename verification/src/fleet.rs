use crate::text::decimal;
use crate::text::decimal_string;
use vstd::prelude::*;
use vstd::string::StringExecFns;
use vstd::string::StrSliceExecFns;

verus! {

/// The archetypes of ships.
#[derive(Debug, Clone, Copy, PartialEq, Eq, Structural)]
pub enum ShipType {
    Scout,
    Fighter,
    Cruiser,
    CommandCenter,
    Battleship,
    Dreadnought,
}

/// One ship of a fleet.
#[derive(Debug, Clone, Copy)]
pub struct Ship {
    pub ship_type: ShipType,
    pub health: i32,
    pub max_health: i32,
    pub damage: i32,
    pub movement_range: u8,
    pub can_capture: bool,
}

/// A group of ships under one owner, in one sector.
#[derive(Debug, Clone)]
pub struct Fleet {
    pub id: u32,
    pub name: String,
    pub owner: u8,
    pub location: u8,
    pub ships: Vec<Ship>,
    pub is_stationed: bool,
}

/// A fleet as plain values.
pub struct FleetView {
    pub id: u32,
    pub name: Seq<char>,
    pub owner: u8,
    pub location: u8,
    pub ships: Seq<Ship>,
    pub is_stationed: bool,
}

impl View for Fleet {
    type V = FleetView;

    open spec fn view(&self) -> FleetView {
        FleetView {
            id: self.id,
            name: self.name@,
            owner: self.owner,
            location: self.location,
            ships: self.ships@,
            is_stationed: self.is_stationed,
        }
    }
}

impl ShipType {
    /// A ship of this archetype as it leaves the yard, at full health.
    pub open spec fn blueprint(self) -> Ship {
        match self {
            ShipType::Scout => Ship {
                ship_type: self,
                health: 20,
                max_health: 20,
                damage: 5,
                movement_range: 2,
                can_capture: false,
            },
            ShipType::Fighter => Ship {
                ship_type: self,
                health: 40,
                max_health: 40,
                damage: 15,
                movement_range: 1,
                can_capture: false,
            },
            ShipType::Cruiser => Ship {
                ship_type: self,
                health: 60,
                max_health: 60,
                damage: 25,
                movement_range: 1,
                can_capture: false,
            },
            ShipType::CommandCenter => Ship {
                ship_type: self,
                health: 100,
                max_health: 100,
                damage: 10,
                movement_range: 1,
                can_capture: true,
            },
            ShipType::Battleship => Ship {
                ship_type: self,
                health: 80,
                max_health: 80,
                damage: 40,
                movement_range: 1,
                can_capture: false,
            },
            ShipType::Dreadnought => Ship {
                ship_type: self,
                health: 150,
                max_health: 150,
                damage: 60,
                movement_range: 1,
                can_capture: false,
            },
        }
    }

    /// The level from which a player may build the archetype.
    pub open spec fn rank_needed(self) -> u8 {
        match self {
            ShipType::Scout => 1,
            ShipType::Fighter => 2,
            ShipType::Cruiser => 3,
            ShipType::CommandCenter => 4,
            ShipType::Battleship => 5,
            ShipType::Dreadnought => 7,
        }
    }

    /// Action points that building the archetype costs.
    pub open spec fn price(self) -> u8 {
        match self {
            ShipType::Scout => 5,
            ShipType::Fighter => 8,
            ShipType::Cruiser => 12,
            ShipType::CommandCenter => 15,
            ShipType::Battleship => 20,
            ShipType::Dreadnought => 25,
        }
    }

    /// The plural by which a summary names the archetype.
    pub open spec fn plural(self) -> Seq<char> {
        match self {
            ShipType::Scout => "Scouts"@,
            ShipType::Fighter => "Fighters"@,
            ShipType::Cruiser => "Cruisers"@,
            ShipType::CommandCenter => "Command Centers"@,
            ShipType::Battleship => "Battleships"@,
            ShipType::Dreadnought => "Dreadnoughts"@,
        }
    }

    pub fn create_ship(&self) -> (ship: Ship)
        ensures
            ship == self.blueprint(),
    {
        match self {
            ShipType::Scout => Ship {
                ship_type: ShipType::Scout,
                health: 20,
                max_health: 20,
                damage: 5,
                movement_range: 2,
                can_capture: false,
            },
            ShipType::Fighter => Ship {
                ship_type: ShipType::Fighter,
                health: 40,
                max_health: 40,
                damage: 15,
                movement_range: 1,
                can_capture: false,
            },
            ShipType::Cruiser => Ship {
                ship_type: ShipType::Cruiser,
                health: 60,
                max_health: 60,
                damage: 25,
                movement_range: 1,
                can_capture: false,
            },
            ShipType::CommandCenter => Ship {
                ship_type: ShipType::CommandCenter,
                health: 100,
                max_health: 100,
                damage: 10,
                movement_range: 1,
                can_capture: true,
            },
            ShipType::Battleship => Ship {
                ship_type: ShipType::Battleship,
                health: 80,
                max_health: 80,
                damage: 40,
                movement_range: 1,
                can_capture: false,
            },
            ShipType::Dreadnought => Ship {
                ship_type: ShipType::Dreadnought,
                health: 150,
                max_health: 150,
                damage: 60,
                movement_range: 1,
                can_capture: false,
            },
        }
    }

    pub fn required_rank(&self) -> (level: u8)
        ensures
            level == self.rank_needed(),
    {
        match self {
            ShipType::Scout => 1,
            ShipType::Fighter => 2,
            ShipType::Cruiser => 3,
            ShipType::CommandCenter => 4,
            ShipType::Battleship => 5,
            ShipType::Dreadnought => 7,
        }
    }

    pub fn build_cost(&self) -> (cost: u8)
        ensures
            cost == self.price(),
    {
        match self {
            ShipType::Scout => 5,
            ShipType::Fighter => 8,
            ShipType::Cruiser => 12,
            ShipType::CommandCenter => 15,
            ShipType::Battleship => 20,
            ShipType::Dreadnought => 25,
        }
    }

    fn plural_name(&self) -> (name: &'static str)
        ensures
            name@ == self.plural(),
    {
        match self {
            ShipType::Scout => "Scouts",
            ShipType::Fighter => "Fighters",
            ShipType::Cruiser => "Cruisers",
            ShipType::CommandCenter => "Command Centers",
            ShipType::Battleship => "Battleships",
            ShipType::Dreadnought => "Dreadnoughts",
        }
    }
}

/// The health of all ships together.
pub open spec fn health_sum(ships: Seq<Ship>) -> int
    decreases ships.len(),
{
    if ships.len() == 0 {
        0
    } else {
        health_sum(ships.drop_last()) + ships.last().health
    }
}

/// The damage of all ships together.
pub open spec fn damage_sum(ships: Seq<Ship>) -> int
    decreases ships.len(),
{
    if ships.len() == 0 {
        0
    } else {
        damage_sum(ships.drop_last()) + ships.last().damage
    }
}

/// How many ships are of the given archetype.
pub open spec fn count_of(ships: Seq<Ship>, kind: ShipType) -> nat
    decreases ships.len(),
{
    if ships.len() == 0 {
        0
    } else {
        count_of(ships.drop_last(), kind) + if ships.last().ship_type == kind {
            1nat
        } else {
            0nat
        }
    }
}

/// The ships that are still afloat, in their order.
pub open spec fn afloat(ships: Seq<Ship>) -> Seq<Ship> {
    ships.filter(|ship: Ship| ship.health > 0)
}

/// The archetypes in the order in which a summary lists them.
pub open spec fn listed_types() -> Seq<ShipType> {
    seq![
        ShipType::Scout,
        ShipType::Fighter,
        ShipType::Cruiser,
        ShipType::CommandCenter,
        ShipType::Battleship,
        ShipType::Dreadnought,
    ]
}

/// The count of each archetype, in the order of [`listed_types`].
pub open spec fn census(ships: Seq<Ship>) -> Seq<(ShipType, usize)> {
    Seq::new(6, |i: int| (listed_types()[i], count_of(ships, listed_types()[i]) as usize))
}

/// What a summary says of one archetype: nothing where the fleet has none,
/// else the count, the plural and a separator.
pub open spec fn summary_entry(kind: ShipType, count: nat) -> Seq<char> {
    if count > 0 {
        decimal(count) + " "@ + kind.plural() + ", "@
    } else {
        Seq::empty()
    }
}

/// The entries of the first `upto` archetypes, one after the other.
pub open spec fn summary_listing(counts: Seq<(ShipType, usize)>, upto: nat) -> Seq<char>
    decreases upto,
{
    if upto == 0 {
        Seq::empty()
    } else {
        summary_listing(counts, (upto - 1) as nat) + summary_entry(
            counts[upto - 1].0,
            counts[upto - 1].1 as nat,
        )
    }
}

/// The summary of a fleet: the entries of the archetypes it holds, without
/// the last separator; a fixed text for a fleet without ships.
pub open spec fn summary_text(ships: Seq<Ship>) -> Seq<char> {
    let listing = summary_listing(census(ships), 6);
    if listing.len() == 0 {
        "Empty fleet"@
    } else {
        listing.subrange(0, listing.len() - 2)
    }
}

/// A listing that is not empty ends with a separator.
proof fn lemma_listing_ends_with_separator(counts: Seq<(ShipType, usize)>, upto: nat)
    ensures
        summary_listing(counts, upto).len() == 0 || summary_listing(counts, upto).len() >= 2,
    decreases upto,
{
    if upto > 0 {
        lemma_listing_ends_with_separator(counts, (upto - 1) as nat);
        reveal_strlit(", ");
    }
}

impl Fleet {
    pub fn new(id: u32, name: String, owner: u8, location: u8) -> (fleet: Fleet)
        ensures
            fleet@ == (FleetView {
                id,
                name: name@,
                owner,
                location,
                ships: Seq::empty(),
                is_stationed: false,
            }),
    {
        Fleet { id, name, owner, location, ships: Vec::new(), is_stationed: false }
    }

    /// A new ship of the given archetype joins the fleet.
    pub fn add_ship(&mut self, ship_type: ShipType)
        ensures
            final(self)@ == (FleetView {
                ships: old(self)@.ships.push(ship_type.blueprint()),
                ..old(self)@
            }),
    {
        self.ships.push(ship_type.create_ship());
    }

    pub fn total_health(&self) -> (total: i32)
        requires
            forall|k: int|
                0 <= k <= self@.ships.len() ==> i32::MIN <= #[trigger] health_sum(
                    self@.ships.take(k),
                ) <= i32::MAX,
        ensures
            total == health_sum(self@.ships),
    {
        let mut total: i32 = 0;
        let mut i: usize = 0;
        while i < self.ships.len()
            invariant
                0 <= i <= self.ships.len(),
                total == health_sum(self@.ships.take(i as int)),
                forall|k: int|
                    0 <= k <= self@.ships.len() ==> i32::MIN <= #[trigger] health_sum(
                        self@.ships.take(k),
                    ) <= i32::MAX,
            decreases self.ships.len() - i,
        {
            proof {
                assert(self@.ships.take(i + 1).drop_last() =~= self@.ships.take(i as int));
                assert(i32::MIN <= health_sum(self@.ships.take(i + 1)) <= i32::MAX);
            }
            total = total + self.ships[i].health;
            i += 1;
        }
        proof {
            assert(self@.ships.take(i as int) =~= self@.ships);
        }
        total
    }

    pub fn total_damage(&self) -> (total: i32)
        requires
            forall|k: int|
                0 <= k <= self@.ships.len() ==> i32::MIN <= #[trigger] damage_sum(
                    self@.ships.take(k),
                ) <= i32::MAX,
        ensures
            total == damage_sum(self@.ships),
    {
        let mut total: i32 = 0;
        let mut i: usize = 0;
        while i < self.ships.len()
            invariant
                0 <= i <= self.ships.len(),
                total == damage_sum(self@.ships.take(i as int)),
                forall|k: int|
                    0 <= k <= self@.ships.len() ==> i32::MIN <= #[trigger] damage_sum(
                        self@.ships.take(k),
                    ) <= i32::MAX,
            decreases self.ships.len() - i,
        {
            proof {
                assert(self@.ships.take(i + 1).drop_last() =~= self@.ships.take(i as int));
                assert(i32::MIN <= damage_sum(self@.ships.take(i + 1)) <= i32::MAX);
            }
            total = total + self.ships[i].damage;
            i += 1;
        }
        proof {
            assert(self@.ships.take(i as int) =~= self@.ships);
        }
        total
    }

    /// Whether some ship of the fleet can capture a sector.
    pub fn has_command_center(&self) -> (found: bool)
        ensures
            found == exists|i: int| 0 <= i < self@.ships.len() && self@.ships[i].can_capture,
    {
        let mut i: usize = 0;
        while i < self.ships.len()
            invariant
                0 <= i <= self.ships.len(),
                forall|k: int| 0 <= k < i ==> !self@.ships[k].can_capture,
            decreases self.ships.len() - i,
        {
            if self.ships[i].can_capture {
                return true;
            }
            i += 1;
        }
        false
    }

    /// Ships without health leave the fleet; the others keep their order.
    pub fn remove_destroyed_ships(&mut self)
        ensures
            final(self)@ == (FleetView { ships: afloat(old(self)@.ships), ..old(self)@ }),
    {
        let mut kept: Vec<Ship> = Vec::new();
        let mut i: usize = 0;
        proof {
            reveal(Seq::filter);
            assert(self@.ships.take(0) =~= Seq::empty());
        }
        while i < self.ships.len()
            invariant
                0 <= i <= self.ships.len(),
                *self == *old(self),
                kept@ == afloat(self@.ships.take(i as int)),
            decreases self.ships.len() - i,
        {
            let ship = self.ships[i];
            proof {
                reveal(Seq::filter);
                assert(self@.ships.take(i + 1).drop_last() =~= self@.ships.take(i as int));
            }
            if ship.health > 0 {
                kept.push(ship);
            }
            i += 1;
        }
        proof {
            assert(self@.ships.take(i as int) =~= self@.ships);
        }
        self.ships = kept;
    }

    /// Names the ships of the fleet by archetype and count.
    pub fn ship_summary(&self) -> (summary: String)
        ensures
            summary@ == summary_text(self@.ships),
    {
        let counts = self.count_ships();
        let mut listing = String::new();
        let mut i: usize = 0;
        while i < counts.len()
            invariant
                0 <= i <= counts.len(),
                counts@ == census(self@.ships),
                counts.len() == 6,
                listing@ == summary_listing(counts@, i as nat),
            decreases counts.len() - i,
        {
            let (kind, count) = counts[i];
            if count > 0 {
                let mut entry = decimal_string(count as u64);
                entry.append(" ");
                entry.append(kind.plural_name());
                entry.append(", ");
                listing.append(entry.as_str());
            } else {
                assert(listing@ + Seq::<char>::empty() =~= listing@);
            }
            i += 1;
        }
        proof {
            lemma_listing_ends_with_separator(counts@, 6);
        }
        let length = listing.as_str().unicode_len();
        if length == 0 {
            String::from_str("Empty fleet")
        } else {
            String::from_str(listing.as_str().substring_char(0, length - 2))
        }
    }

    /// Counts the ships of each archetype.
    pub fn count_ships(&self) -> (counts: Vec<(ShipType, usize)>)
        ensures
            counts@ == census(self@.ships),
    {
        let mut counts: Vec<(ShipType, usize)> = Vec::new();
        counts.push((ShipType::Scout, self.count_type(ShipType::Scout)));
        counts.push((ShipType::Fighter, self.count_type(ShipType::Fighter)));
        counts.push((ShipType::Cruiser, self.count_type(ShipType::Cruiser)));
        counts.push((ShipType::CommandCenter, self.count_type(ShipType::CommandCenter)));
        counts.push((ShipType::Battleship, self.count_type(ShipType::Battleship)));
        counts.push((ShipType::Dreadnought, self.count_type(ShipType::Dreadnought)));
        assert(counts@ =~= census(self@.ships));
        counts
    }

    fn count_type(&self, kind: ShipType) -> (count: usize)
        ensures
            count == count_of(self@.ships, kind),
    {
        let mut count: usize = 0;
        let mut i: usize = 0;
        while i < self.ships.len()
            invariant
                0 <= i <= self.ships.len(),
                count == count_of(self@.ships.take(i as int), kind),
                count <= i,
            decreases self.ships.len() - i,
        {
            proof {
                assert(self@.ships.take(i + 1).drop_last() =~= self@.ships.take(i as int));
            }
            if self.ships[i].ship_type == kind {
                count += 1;
            }
            i += 1;
        }
        proof {
            assert(self@.ships.take(i as int) =~= self@.ships);
        }
        count
    }
}

} // verus!
