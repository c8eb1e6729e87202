use crate::text::contains_id;
use vstd::prelude::*;

verus! {

/// A node of the sector graph.
#[derive(Debug, Clone)]
pub struct Sector {
    pub id: u8,
    pub name: String,
    pub owner: Option<u8>,
    pub adjacent: Vec<u8>,
    pub visible_to: Vec<u8>,
    pub has_outpost: bool,
}

/// What a sector holds, as plain values.
pub struct SectorView {
    pub id: u8,
    pub name: Seq<char>,
    pub owner: Option<u8>,
    pub adjacent: Seq<u8>,
    pub visible_to: Seq<u8>,
    pub has_outpost: bool,
}

impl View for Sector {
    type V = SectorView;

    open spec fn view(&self) -> SectorView {
        SectorView {
            id: self.id,
            name: self.name@,
            owner: self.owner,
            adjacent: self.adjacent@,
            visible_to: self.visible_to@,
            has_outpost: self.has_outpost,
        }
    }
}

impl SectorView {
    /// Whether `other_id` is a neighbour of this sector.
    pub open spec fn is_adjacent(self, other_id: u8) -> bool {
        self.adjacent.contains(other_id)
    }

    /// Whether the player has scanned or entered this sector.
    pub open spec fn is_visible_to(self, player_id: u8) -> bool {
        self.visible_to.contains(player_id)
    }

    /// The sector with `player_id` as its owner.
    pub open spec fn captured_by(self, player_id: u8) -> SectorView {
        SectorView { owner: Some(player_id), ..self }
    }

    /// The sector once `player_id` has seen it: the player joins the
    /// visibility list unless already on it.
    pub open spec fn revealed_to(self, player_id: u8) -> SectorView {
        if self.is_visible_to(player_id) {
            self
        } else {
            SectorView { visible_to: self.visible_to.push(player_id), ..self }
        }
    }

    /// The sector with its outpost flag set to `present`.
    pub open spec fn with_outpost(self, present: bool) -> SectorView {
        SectorView { has_outpost: present, ..self }
    }
}

impl Sector {
    /// A fresh sector: unowned, seen by nobody, without an outpost.
    pub fn new(id: u8, name: String, adjacent: Vec<u8>) -> (s: Sector)
        ensures
            s@ == (SectorView {
                id,
                name: name@,
                owner: None,
                adjacent: adjacent@,
                visible_to: Seq::empty(),
                has_outpost: false,
            }),
    {
        Sector { id, name, owner: None, adjacent, visible_to: Vec::new(), has_outpost: false }
    }

    pub fn is_adjacent(&self, other_id: u8) -> (b: bool)
        ensures
            b == self@.is_adjacent(other_id),
    {
        contains_id(&self.adjacent, other_id)
    }

    /// Hands the sector to `player_id`, whoever held it before.
    pub fn capture(&mut self, player_id: u8)
        ensures
            final(self)@ == old(self)@.captured_by(player_id),
    {
        self.owner = Some(player_id);
    }

    pub fn is_visible_to(&self, player_id: u8) -> (b: bool)
        ensures
            b == self@.is_visible_to(player_id),
    {
        contains_id(&self.visible_to, player_id)
    }

    /// Records that `player_id` has seen the sector.
    pub fn reveal_to(&mut self, player_id: u8)
        ensures
            final(self)@ == old(self)@.revealed_to(player_id),
    {
        if !contains_id(&self.visible_to, player_id) {
            self.visible_to.push(player_id);
        }
    }
}

} // verus!
