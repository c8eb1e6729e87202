use crate::map::graph::graph_wf;
use crate::map::graph::linked;
use crate::map::graph::sector_views;
use crate::map::graph::symmetric;
use crate::map::sector::Sector;
use crate::map::sector::SectorView;
use vstd::prelude::*;
use vstd::string::StringExecFns;

verus! {

/// The two maps a game can be played on.
pub struct Galaxy;

/// A sector as a game finds it: unowned, unseen, without an outpost.
pub open spec fn untouched_sector(id: int, name: Seq<char>, adjacent: Seq<u8>) -> SectorView {
    SectorView {
        id: id as u8,
        name,
        owner: None,
        adjacent,
        visible_to: Seq::empty(),
        has_outpost: false,
    }
}

/// Names of the sectors of the strategic map.
pub open spec fn strategic_name(id: int) -> Seq<char> {
    if id == 0 {
        "Sol System"@
    } else if id == 1 {
        "Alpha Centauri"@
    } else if id == 2 {
        "Sirius"@
    } else if id == 3 {
        "Vega"@
    } else if id == 4 {
        "Proxima Station"@
    } else if id == 5 {
        "Wolf 359"@
    } else if id == 6 {
        "Tau Ceti"@
    } else if id == 7 {
        "Epsilon Eridani"@
    } else if id == 8 {
        "Altair"@
    } else if id == 9 {
        "Barnard's Star"@
    } else if id == 10 {
        "Ross 128"@
    } else if id == 11 {
        "Lacaille"@
    } else if id == 12 {
        "Gliese 667C"@
    } else if id == 13 {
        "Kepler Station"@
    } else if id == 14 {
        "Asteroid Belt Omega"@
    } else if id == 15 {
        "Nebula Outpost"@
    } else if id == 16 {
        "Deep Space Relay"@
    } else {
        ""@
    }
}

/// Neighbours of each sector of the strategic map.
pub open spec fn strategic_links(id: int) -> Seq<u8> {
    if id == 0 {
        seq![1u8, 2u8, 3u8]
    } else if id == 1 {
        seq![0u8, 4u8, 5u8]
    } else if id == 2 {
        seq![0u8, 6u8, 7u8]
    } else if id == 3 {
        seq![0u8, 8u8]
    } else if id == 4 {
        seq![1u8, 9u8]
    } else if id == 5 {
        seq![1u8, 6u8, 10u8]
    } else if id == 6 {
        seq![2u8, 5u8, 11u8]
    } else if id == 7 {
        seq![2u8, 12u8]
    } else if id == 8 {
        seq![3u8, 13u8]
    } else if id == 9 {
        seq![4u8, 14u8]
    } else if id == 10 {
        seq![5u8, 11u8, 14u8]
    } else if id == 11 {
        seq![6u8, 10u8, 15u8]
    } else if id == 12 {
        seq![7u8, 15u8]
    } else if id == 13 {
        seq![8u8, 16u8]
    } else if id == 14 {
        seq![9u8, 10u8]
    } else if id == 15 {
        seq![11u8, 12u8]
    } else if id == 16 {
        seq![13u8]
    } else {
        Seq::empty()
    }
}

/// Whether the map links sector `a` to sector `b`.
pub open spec fn strategic_links_to(a: int, b: int) -> bool {
    (a == 0 && (b == 1 || b == 2 || b == 3))
    || (a == 1 && (b == 0 || b == 4 || b == 5))
    || (a == 2 && (b == 0 || b == 6 || b == 7))
    || (a == 3 && (b == 0 || b == 8))
    || (a == 4 && (b == 1 || b == 9))
    || (a == 5 && (b == 1 || b == 6 || b == 10))
    || (a == 6 && (b == 2 || b == 5 || b == 11))
    || (a == 7 && (b == 2 || b == 12))
    || (a == 8 && (b == 3 || b == 13))
    || (a == 9 && (b == 4 || b == 14))
    || (a == 10 && (b == 5 || b == 11 || b == 14))
    || (a == 11 && (b == 6 || b == 10 || b == 15))
    || (a == 12 && (b == 7 || b == 15))
    || (a == 13 && (b == 8 || b == 16))
    || (a == 14 && (b == 9 || b == 10))
    || (a == 15 && (b == 11 || b == 12))
    || (a == 16 && (b == 13))
}

/// Names of the sectors of the tactical map.
pub open spec fn tactical_name(id: int) -> Seq<char> {
    if id == 0 {
        "Command Base Alpha"@
    } else if id == 1 {
        "Orbital Platform"@
    } else if id == 2 {
        "Asteroid Field"@
    } else if id == 3 {
        "Supply Depot"@
    } else if id == 4 {
        "Central Nexus"@
    } else if id == 5 {
        "Mining Colony"@
    } else if id == 6 {
        "Defense Grid"@
    } else if id == 7 {
        "Command Base Beta"@
    } else {
        ""@
    }
}

/// Neighbours of each sector of the tactical map.
pub open spec fn tactical_links(id: int) -> Seq<u8> {
    if id == 0 {
        seq![1u8, 2u8]
    } else if id == 1 {
        seq![0u8, 2u8, 3u8]
    } else if id == 2 {
        seq![0u8, 1u8, 4u8]
    } else if id == 3 {
        seq![1u8, 4u8, 5u8]
    } else if id == 4 {
        seq![2u8, 3u8, 5u8, 6u8]
    } else if id == 5 {
        seq![3u8, 4u8, 7u8]
    } else if id == 6 {
        seq![4u8, 7u8]
    } else if id == 7 {
        seq![5u8, 6u8]
    } else {
        Seq::empty()
    }
}

/// Whether the map links sector `a` to sector `b`.
pub open spec fn tactical_links_to(a: int, b: int) -> bool {
    (a == 0 && (b == 1 || b == 2))
    || (a == 1 && (b == 0 || b == 2 || b == 3))
    || (a == 2 && (b == 0 || b == 1 || b == 4))
    || (a == 3 && (b == 1 || b == 4 || b == 5))
    || (a == 4 && (b == 2 || b == 3 || b == 5 || b == 6))
    || (a == 5 && (b == 3 || b == 4 || b == 7))
    || (a == 6 && (b == 4 || b == 7))
    || (a == 7 && (b == 5 || b == 6))
}

/// The strategic map: seventeen sectors with chokepoints and several paths.
pub open spec fn strategic_map() -> Seq<SectorView> {
    Seq::new(17, |i: int| untouched_sector(i, strategic_name(i), strategic_links(i)))
}

/// The tactical map: eight sectors for a quick game.
pub open spec fn tactical_map() -> Seq<SectorView> {
    Seq::new(8, |i: int| untouched_sector(i, tactical_name(i), tactical_links(i)))
}

proof fn lemma_links_1(x0: u8, b: u8)
    ensures
        seq![x0].contains(b) <==> (b == x0),
{
    let s = seq![x0];
    assert(s[0] == x0);
}

proof fn lemma_links_2(x0: u8, x1: u8, b: u8)
    ensures
        seq![x0, x1].contains(b) <==> (b == x0 || b == x1),
{
    let s = seq![x0, x1];
    assert(s[0] == x0);
    assert(s[1] == x1);
}

proof fn lemma_links_3(x0: u8, x1: u8, x2: u8, b: u8)
    ensures
        seq![x0, x1, x2].contains(b) <==> (b == x0 || b == x1 || b == x2),
{
    let s = seq![x0, x1, x2];
    assert(s[0] == x0);
    assert(s[1] == x1);
    assert(s[2] == x2);
}

proof fn lemma_links_4(x0: u8, x1: u8, x2: u8, x3: u8, b: u8)
    ensures
        seq![x0, x1, x2, x3].contains(b) <==> (b == x0 || b == x1 || b == x2 || b == x3),
{
    let s = seq![x0, x1, x2, x3];
    assert(s[0] == x0);
    assert(s[1] == x1);
    assert(s[2] == x2);
    assert(s[3] == x3);
}

/// The map is a graph whose links all run both ways.
pub proof fn lemma_strategic_map_sound()
    ensures
        graph_wf(strategic_map()),
        symmetric(strategic_map()),
{
    let map = strategic_map();
    assert forall|a: u8, b: u8| (a as int) < 17 implies (#[trigger] linked(map, a, b)
        <==> strategic_links_to(a as int, b as int)) by {
        if a == 0 {
            lemma_links_3(1, 2, 3, b);
        }
        if a == 1 {
            lemma_links_3(0, 4, 5, b);
        }
        if a == 2 {
            lemma_links_3(0, 6, 7, b);
        }
        if a == 3 {
            lemma_links_2(0, 8, b);
        }
        if a == 4 {
            lemma_links_2(1, 9, b);
        }
        if a == 5 {
            lemma_links_3(1, 6, 10, b);
        }
        if a == 6 {
            lemma_links_3(2, 5, 11, b);
        }
        if a == 7 {
            lemma_links_2(2, 12, b);
        }
        if a == 8 {
            lemma_links_2(3, 13, b);
        }
        if a == 9 {
            lemma_links_2(4, 14, b);
        }
        if a == 10 {
            lemma_links_3(5, 11, 14, b);
        }
        if a == 11 {
            lemma_links_3(6, 10, 15, b);
        }
        if a == 12 {
            lemma_links_2(7, 15, b);
        }
        if a == 13 {
            lemma_links_2(8, 16, b);
        }
        if a == 14 {
            lemma_links_2(9, 10, b);
        }
        if a == 15 {
            lemma_links_2(11, 12, b);
        }
        if a == 16 {
            lemma_links_1(13, b);
        }
    }
    assert forall|i: int, j: int|
        0 <= i < map.len() && 0 <= j < map[i].adjacent.len() implies (
    #[trigger] map[i].adjacent[j]) < map.len() by {
        let b = map[i].adjacent[j];
        assert(map[i].adjacent.contains(b));
        assert(linked(map, i as u8, b));
    }
}

/// The map is a graph whose links all run both ways.
pub proof fn lemma_tactical_map_sound()
    ensures
        graph_wf(tactical_map()),
        symmetric(tactical_map()),
{
    let map = tactical_map();
    assert forall|a: u8, b: u8| (a as int) < 8 implies (#[trigger] linked(map, a, b)
        <==> tactical_links_to(a as int, b as int)) by {
        if a == 0 {
            lemma_links_2(1, 2, b);
        }
        if a == 1 {
            lemma_links_3(0, 2, 3, b);
        }
        if a == 2 {
            lemma_links_3(0, 1, 4, b);
        }
        if a == 3 {
            lemma_links_3(1, 4, 5, b);
        }
        if a == 4 {
            lemma_links_4(2, 3, 5, 6, b);
        }
        if a == 5 {
            lemma_links_3(3, 4, 7, b);
        }
        if a == 6 {
            lemma_links_2(4, 7, b);
        }
        if a == 7 {
            lemma_links_2(5, 6, b);
        }
    }
    assert forall|i: int, j: int|
        0 <= i < map.len() && 0 <= j < map[i].adjacent.len() implies (
    #[trigger] map[i].adjacent[j]) < map.len() by {
        let b = map[i].adjacent[j];
        assert(map[i].adjacent.contains(b));
        assert(linked(map, i as u8, b));
    }
}

impl Galaxy {
    /// Builds the strategic map.
    pub fn create_default_map() -> (map: Vec<Sector>)
        ensures
            sector_views(map@) == strategic_map(),
            graph_wf(sector_views(map@)),
            symmetric(sector_views(map@)),
    {
        let mut map: Vec<Sector> = Vec::new();
        map.push(Sector::new(0, String::from_str("Sol System"), vec![1, 2, 3]));
        map.push(Sector::new(1, String::from_str("Alpha Centauri"), vec![0, 4, 5]));
        map.push(Sector::new(2, String::from_str("Sirius"), vec![0, 6, 7]));
        map.push(Sector::new(3, String::from_str("Vega"), vec![0, 8]));
        map.push(Sector::new(4, String::from_str("Proxima Station"), vec![1, 9]));
        map.push(Sector::new(5, String::from_str("Wolf 359"), vec![1, 6, 10]));
        map.push(Sector::new(6, String::from_str("Tau Ceti"), vec![2, 5, 11]));
        map.push(Sector::new(7, String::from_str("Epsilon Eridani"), vec![2, 12]));
        map.push(Sector::new(8, String::from_str("Altair"), vec![3, 13]));
        map.push(Sector::new(9, String::from_str("Barnard's Star"), vec![4, 14]));
        map.push(Sector::new(10, String::from_str("Ross 128"), vec![5, 11, 14]));
        map.push(Sector::new(11, String::from_str("Lacaille"), vec![6, 10, 15]));
        map.push(Sector::new(12, String::from_str("Gliese 667C"), vec![7, 15]));
        map.push(Sector::new(13, String::from_str("Kepler Station"), vec![8, 16]));
        map.push(Sector::new(14, String::from_str("Asteroid Belt Omega"), vec![9, 10]));
        map.push(Sector::new(15, String::from_str("Nebula Outpost"), vec![11, 12]));
        map.push(Sector::new(16, String::from_str("Deep Space Relay"), vec![13]));
        proof {
            assert(map@[0]@ == strategic_map()[0]);
            assert(map@[1]@ == strategic_map()[1]);
            assert(map@[2]@ == strategic_map()[2]);
            assert(map@[3]@ == strategic_map()[3]);
            assert(map@[4]@ == strategic_map()[4]);
            assert(map@[5]@ == strategic_map()[5]);
            assert(map@[6]@ == strategic_map()[6]);
            assert(map@[7]@ == strategic_map()[7]);
            assert(map@[8]@ == strategic_map()[8]);
            assert(map@[9]@ == strategic_map()[9]);
            assert(map@[10]@ == strategic_map()[10]);
            assert(map@[11]@ == strategic_map()[11]);
            assert(map@[12]@ == strategic_map()[12]);
            assert(map@[13]@ == strategic_map()[13]);
            assert(map@[14]@ == strategic_map()[14]);
            assert(map@[15]@ == strategic_map()[15]);
            assert(map@[16]@.adjacent =~= seq![13u8]);
            assert(map@[16]@ == strategic_map()[16]);
            assert(sector_views(map@) =~= strategic_map());
            lemma_strategic_map_sound();
        }
        map
    }

    /// Builds the tactical map.
    pub fn create_tactical_map() -> (map: Vec<Sector>)
        ensures
            sector_views(map@) == tactical_map(),
            graph_wf(sector_views(map@)),
            symmetric(sector_views(map@)),
    {
        let mut map: Vec<Sector> = Vec::new();
        map.push(Sector::new(0, String::from_str("Command Base Alpha"), vec![1, 2]));
        map.push(Sector::new(1, String::from_str("Orbital Platform"), vec![0, 2, 3]));
        map.push(Sector::new(2, String::from_str("Asteroid Field"), vec![0, 1, 4]));
        map.push(Sector::new(3, String::from_str("Supply Depot"), vec![1, 4, 5]));
        map.push(Sector::new(4, String::from_str("Central Nexus"), vec![2, 3, 5, 6]));
        map.push(Sector::new(5, String::from_str("Mining Colony"), vec![3, 4, 7]));
        map.push(Sector::new(6, String::from_str("Defense Grid"), vec![4, 7]));
        map.push(Sector::new(7, String::from_str("Command Base Beta"), vec![5, 6]));
        proof {
            assert(sector_views(map@) =~= tactical_map());
            lemma_tactical_map_sound();
        }
        map
    }
}

} // verus!
