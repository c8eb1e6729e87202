use interstellar_command::map::galaxy::Galaxy;
use interstellar_command::map::graph::hop_count;
use interstellar_command::map::graph::is_graph;
use interstellar_command::map::graph::UNREACHABLE;
use interstellar_command::map::sector::Sector;

fn sector(id: u8, adjacent: Vec<u8>) -> Sector {
    Sector::new(id, format!("S{}", id), adjacent)
}

#[test]
fn new_sector_is_untouched() {
    let s = Sector::new(4, "Vega".to_string(), vec![0, 8]);
    assert_eq!(s.id, 4);
    assert_eq!(s.name, "Vega");
    assert_eq!(s.owner, None);
    assert_eq!(s.adjacent, vec![0, 8]);
    assert!(s.visible_to.is_empty());
    assert!(!s.has_outpost);
}

#[test]
fn adjacency_is_membership_in_the_list() {
    let s = sector(0, vec![1, 2, 3]);
    assert!(s.is_adjacent(1));
    assert!(s.is_adjacent(3));
    assert!(!s.is_adjacent(0));
    assert!(!s.is_adjacent(4));
}

#[test]
fn capture_sets_the_owner_unconditionally() {
    let mut s = sector(0, vec![1]);
    s.capture(1);
    assert_eq!(s.owner, Some(1));
    s.capture(0);
    assert_eq!(s.owner, Some(0));
}

#[test]
fn reveal_adds_each_player_once() {
    let mut s = sector(0, vec![1]);
    assert!(!s.is_visible_to(0));
    s.reveal_to(0);
    s.reveal_to(0);
    s.reveal_to(1);
    assert!(s.is_visible_to(0));
    assert!(s.is_visible_to(1));
    assert_eq!(s.visible_to, vec![0, 1]);
}

#[test]
fn strategic_map_has_seventeen_linked_sectors() {
    let map = Galaxy::create_default_map();
    assert_eq!(map.len(), 17);
    assert_eq!(map[0].name, "Sol System");
    assert_eq!(map[0].adjacent, vec![1, 2, 3]);
    assert_eq!(map[9].name, "Barnard's Star");
    assert_eq!(map[12].name, "Gliese 667C");
    assert_eq!(map[16].name, "Deep Space Relay");
    assert_eq!(map[16].adjacent, vec![13]);
    assert!(is_graph(&map));
    for (i, s) in map.iter().enumerate() {
        assert_eq!(s.id as usize, i);
        assert_eq!(s.owner, None);
        assert!(!s.has_outpost);
        for &n in &s.adjacent {
            assert!(map[n as usize].is_adjacent(s.id));
        }
    }
}

#[test]
fn tactical_map_has_eight_linked_sectors() {
    let map = Galaxy::create_tactical_map();
    assert_eq!(map.len(), 8);
    assert_eq!(map[0].name, "Command Base Alpha");
    assert_eq!(map[4].name, "Central Nexus");
    assert_eq!(map[4].adjacent, vec![2, 3, 5, 6]);
    assert_eq!(map[7].name, "Command Base Beta");
    assert!(is_graph(&map));
    for s in &map {
        for &n in &s.adjacent {
            assert!(map[n as usize].is_adjacent(s.id));
        }
    }
}

#[test]
fn hop_count_is_the_shortest_path() {
    let map = Galaxy::create_tactical_map();
    assert_eq!(hop_count(&map, 0, 0), 0);
    assert_eq!(hop_count(&map, 0, 1), 1);
    assert_eq!(hop_count(&map, 0, 4), 2);
    assert_eq!(hop_count(&map, 0, 3), 2);
    assert_eq!(hop_count(&map, 0, 5), 3);
    assert_eq!(hop_count(&map, 0, 7), 4);
    assert_eq!(hop_count(&map, 7, 0), 4);
    let map = Galaxy::create_default_map();
    assert_eq!(hop_count(&map, 0, 16), 4);
    assert_eq!(hop_count(&map, 16, 15), 8);
    assert_eq!(hop_count(&map, 14, 12), 4);
}

#[test]
fn hop_count_is_symmetric_on_the_shipped_maps() {
    let map = Galaxy::create_default_map();
    for a in 0..17u8 {
        for b in 0..17u8 {
            assert_eq!(hop_count(&map, a, b), hop_count(&map, b, a));
            assert!(hop_count(&map, a, b) < UNREACHABLE);
        }
    }
}

#[test]
fn hop_count_reports_unreachable_sectors() {
    let map = vec![sector(0, vec![1]), sector(1, vec![0]), sector(2, vec![])];
    assert_eq!(UNREACHABLE, 255);
    assert_eq!(hop_count(&map, 0, 1), 1);
    assert_eq!(hop_count(&map, 0, 2), UNREACHABLE);
    assert_eq!(hop_count(&map, 2, 0), UNREACHABLE);
    assert_eq!(hop_count(&map, 2, 2), 0);
    assert_eq!(hop_count(&map, 0, 9), UNREACHABLE);
    assert_eq!(hop_count(&map, 9, 0), UNREACHABLE);
    assert_eq!(hop_count(&map, 9, 9), 0);
}

#[test]
fn hop_count_follows_one_way_links() {
    let map = vec![sector(0, vec![1]), sector(1, vec![2]), sector(2, vec![])];
    assert_eq!(hop_count(&map, 0, 2), 2);
    assert_eq!(hop_count(&map, 2, 0), UNREACHABLE);
}

#[test]
fn hop_count_walks_a_long_chain() {
    let mut map = Vec::new();
    for i in 0..255u16 {
        let mut adjacent = Vec::new();
        if i > 0 {
            adjacent.push((i - 1) as u8);
        }
        if i < 254 {
            adjacent.push((i + 1) as u8);
        }
        map.push(sector(i as u8, adjacent));
    }
    assert!(is_graph(&map));
    assert_eq!(hop_count(&map, 0, 254), 254);
    assert_eq!(hop_count(&map, 100, 3), 97);
}

#[test]
fn is_graph_rejects_bad_ids_and_links() {
    assert!(is_graph(&Vec::new()));
    assert!(!is_graph(&vec![sector(1, vec![])]));
    assert!(!is_graph(&vec![sector(0, vec![1])]));
    assert!(is_graph(&vec![sector(0, vec![0])]));
}
