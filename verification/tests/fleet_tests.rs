use interstellar_command::fleet::Fleet;
use interstellar_command::fleet::ShipType;

fn fleet() -> Fleet {
    Fleet::new(7, "Vanguard".to_string(), 1, 4)
}

#[test]
fn blueprints_give_each_archetype_its_stats() {
    let expected = [
        (ShipType::Scout, 20, 5, 2, false, 1, 5),
        (ShipType::Fighter, 40, 15, 1, false, 2, 8),
        (ShipType::Cruiser, 60, 25, 1, false, 3, 12),
        (ShipType::CommandCenter, 100, 10, 1, true, 4, 15),
        (ShipType::Battleship, 80, 40, 1, false, 5, 20),
        (ShipType::Dreadnought, 150, 60, 1, false, 7, 25),
    ];
    for (kind, health, damage, range, capture, rank, cost) in expected {
        let ship = kind.create_ship();
        assert_eq!(ship.ship_type, kind);
        assert_eq!(ship.health, health);
        assert_eq!(ship.max_health, health);
        assert_eq!(ship.damage, damage);
        assert_eq!(ship.movement_range, range);
        assert_eq!(ship.can_capture, capture);
        assert_eq!(kind.required_rank(), rank);
        assert_eq!(kind.build_cost(), cost);
    }
}

#[test]
fn new_fleet_is_empty_and_mobile() {
    let f = fleet();
    assert_eq!(f.id, 7);
    assert_eq!(f.name, "Vanguard");
    assert_eq!(f.owner, 1);
    assert_eq!(f.location, 4);
    assert!(f.ships.is_empty());
    assert!(!f.is_stationed);
    assert_eq!(f.total_health(), 0);
    assert_eq!(f.total_damage(), 0);
    assert!(!f.has_command_center());
    assert_eq!(f.ship_summary(), "Empty fleet");
}

#[test]
fn totals_add_up_over_the_ships() {
    let mut f = fleet();
    f.add_ship(ShipType::Scout);
    f.add_ship(ShipType::Cruiser);
    f.add_ship(ShipType::Scout);
    assert_eq!(f.ships.len(), 3);
    assert_eq!(f.total_health(), 100);
    assert_eq!(f.total_damage(), 35);
    assert!(!f.has_command_center());
    f.add_ship(ShipType::CommandCenter);
    assert!(f.has_command_center());
    assert_eq!(f.total_health(), 200);
    assert_eq!(f.total_damage(), 45);
}

#[test]
fn summary_lists_archetypes_in_fixed_order() {
    let mut f = fleet();
    f.add_ship(ShipType::CommandCenter);
    f.add_ship(ShipType::Scout);
    f.add_ship(ShipType::Dreadnought);
    f.add_ship(ShipType::Scout);
    assert_eq!(f.ship_summary(), "2 Scouts, 1 Command Centers, 1 Dreadnoughts");
    let mut g = fleet();
    g.add_ship(ShipType::Fighter);
    assert_eq!(g.ship_summary(), "1 Fighters");
    for _ in 0..11 {
        g.add_ship(ShipType::Battleship);
    }
    g.add_ship(ShipType::Cruiser);
    assert_eq!(g.ship_summary(), "1 Fighters, 1 Cruisers, 11 Battleships");
}

#[test]
fn count_ships_counts_each_archetype() {
    let mut f = fleet();
    f.add_ship(ShipType::Fighter);
    f.add_ship(ShipType::Fighter);
    f.add_ship(ShipType::Battleship);
    let counts = f.count_ships();
    assert_eq!(
        counts,
        vec![
            (ShipType::Scout, 0),
            (ShipType::Fighter, 2),
            (ShipType::Cruiser, 0),
            (ShipType::CommandCenter, 0),
            (ShipType::Battleship, 1),
            (ShipType::Dreadnought, 0),
        ]
    );
}

#[test]
fn destroyed_ships_are_removed_in_order() {
    let mut f = fleet();
    f.add_ship(ShipType::Scout);
    f.add_ship(ShipType::Fighter);
    f.add_ship(ShipType::Cruiser);
    f.add_ship(ShipType::Battleship);
    f.ships[0].health = 0;
    f.ships[2].health = -5;
    f.remove_destroyed_ships();
    assert_eq!(f.ships.len(), 2);
    assert_eq!(f.ships[0].ship_type, ShipType::Fighter);
    assert_eq!(f.ships[1].ship_type, ShipType::Battleship);
    assert_eq!(f.name, "Vanguard");
    assert_eq!(f.total_health(), 120);
    f.remove_destroyed_ships();
    assert_eq!(f.ships.len(), 2);
}
