use sailing::dir::{Dir, LEFT, RIGHT};
use sailing::sail::{Heading, Maneuver, PointOfSail, Wind};
use sailing::ship::{move_ship, Action, Position};
use sailing::vector::V;

#[test]
fn point_of_sail_by_offset() {
    let w = Wind(Dir(0));
    let expected = [
        PointOfSail::Running,
        PointOfSail::BroadReach,
        PointOfSail::BeamReach,
        PointOfSail::CloseHauled,
        PointOfSail::InIrons,
        PointOfSail::CloseHauled,
        PointOfSail::BeamReach,
        PointOfSail::BroadReach,
    ];
    for off in 0..8u8 {
        let h = Heading(Dir((8 - off) % 8));
        assert_eq!(PointOfSail::pos(h, w), expected[off as usize]);
    }
}

#[test]
fn point_of_sail_is_symmetric() {
    for w in 0..8u8 {
        for off in 0..8u8 {
            let h1 = Heading(Dir((w + 8 - off) % 8));
            let h2 = Heading(Dir((w + off) % 8));
            assert_eq!(PointOfSail::pos(h1, Wind(Dir(w))), PointOfSail::pos(h2, Wind(Dir(w))));
        }
    }
    assert_eq!(PointOfSail::pos(Heading(Dir(1)), Wind(Dir(0))), PointOfSail::BroadReach);
    assert_eq!(PointOfSail::pos(Heading(Dir(7)), Wind(Dir(0))), PointOfSail::BroadReach);
}

#[test]
fn point_of_sail_costs_and_ranks() {
    let all = [
        PointOfSail::Running,
        PointOfSail::BroadReach,
        PointOfSail::BeamReach,
        PointOfSail::CloseHauled,
        PointOfSail::InIrons,
    ];
    let costs: Vec<u8> = all.iter().map(|p| p.cost()).collect();
    assert_eq!(costs, vec![0, 1, 2, 4, 8]);
    let ranks: Vec<u8> = all.iter().map(|p| p.rank()).collect();
    assert_eq!(ranks, vec![0, 1, 2, 3, 4]);
    assert_eq!(PointOfSail::CloseHauled.name(), "close hauled");
    assert_eq!(PointOfSail::Running.name(), "running");
}

#[test]
fn heading_interpolate() {
    assert_eq!(
        Heading(Dir(0)).interpolate(Heading(Dir(2))),
        Some(vec![Heading(Dir(0)), Heading(Dir(1)), Heading(Dir(2))])
    );
    assert_eq!(Heading(Dir(3)).interpolate(Heading(Dir(7))), None);
}

#[test]
fn turning_upwind_costs_three() {
    assert_eq!(Maneuver::cost(Wind(Dir(0)), Heading(Dir(0)), Heading(Dir(2))), 3);
}

#[test]
fn easing_downwind_costs_two() {
    assert_eq!(Maneuver::cost(Wind(Dir(0)), Heading(Dir(2)), Heading(Dir(0))), 2);
}

#[test]
fn worsening_costs_target_not_difference() {
    // BeamReach -> CloseHauled -> InIrons: 4 + 8
    assert_eq!(Maneuver::cost(Wind(Dir(0)), Heading(Dir(2)), Heading(Dir(4))), 12);
}

#[test]
fn holding_heading_is_free() {
    for w in 0..8u8 {
        for h in 0..8u8 {
            assert_eq!(Maneuver::cost(Wind(Dir(w)), Heading(Dir(h)), Heading(Dir(h))), 0);
        }
    }
}

#[test]
fn reversal_is_impossible() {
    for w in 0..8u8 {
        for h in 0..8u8 {
            let r = Heading(Dir(h).reverse());
            assert_eq!(Maneuver::cost(Wind(Dir(w)), Heading(Dir(h)), r), u8::MAX);
        }
    }
}

#[test]
fn budget_spent_then_recovered() {
    let wind = Wind(Dir(0));
    let mut p = Position(V { x: 0, y: 0 });
    let mut h = Heading(Dir(0));
    let mut m = Maneuver(10);
    move_ship(&mut p, &mut h, &mut m, wind, Action::Move(Dir(2)));
    assert_eq!(m, Maneuver(7));
    assert_eq!(h, Heading(Dir(2)));
    assert_eq!(p, Position(V { x: 0, y: 1 }));
    move_ship(&mut p, &mut h, &mut m, wind, Action::Wait);
    assert_eq!(m, Maneuver(8));
    assert_eq!(h, Heading(Dir(2)));
    assert_eq!(p, Position(V { x: 0, y: 2 }));
}

#[test]
fn recovery_capped_at_max() {
    let mut p = Position(V { x: 0, y: 0 });
    let mut h = Heading(Dir(0));
    let mut m = Maneuver(10);
    move_ship(&mut p, &mut h, &mut m, Wind(Dir(0)), Action::Wait);
    assert_eq!(m, Maneuver(10));
    assert_eq!(p, Position(V { x: 1, y: 0 }));
}

#[test]
fn unaffordable_action_changes_nothing() {
    let mut p = Position(V { x: 4, y: -3 });
    let mut h = Heading(Dir(0));
    let mut m = Maneuver(2);
    move_ship(&mut p, &mut h, &mut m, Wind(Dir(0)), Action::Move(Dir(2)));
    assert_eq!((p, h, m), (Position(V { x: 4, y: -3 }), Heading(Dir(0)), Maneuver(2)));
    move_ship(&mut p, &mut h, &mut m, Wind(Dir(0)), Action::Move(Dir(4)));
    assert_eq!((p, h, m), (Position(V { x: 4, y: -3 }), Heading(Dir(0)), Maneuver(2)));
}

#[test]
fn in_irons_does_not_advance() {
    let mut p = Position(V { x: 0, y: 0 });
    let mut h = Heading(Dir(4));
    let mut m = Maneuver(5);
    move_ship(&mut p, &mut h, &mut m, Wind(Dir(0)), Action::Wait);
    assert_eq!(p, Position(V { x: 0, y: 0 }));
    assert_eq!(m, Maneuver(6));
    assert_eq!(h, Heading(Dir(4)));
}

#[test]
fn edge_of_grid_rejected_action() {
    let mut p = Position(V { x: 127, y: -128 });
    let mut h = Heading(Dir(0));
    let mut m = Maneuver(1);
    move_ship(&mut p, &mut h, &mut m, Wind(Dir(0)), Action::Move(Dir(2)));
    assert_eq!((p, h, m), (Position(V { x: 127, y: -128 }), Heading(Dir(0)), Maneuver(1)));
}

#[test]
fn edge_of_grid_in_irons() {
    let mut p = Position(V { x: -128, y: 0 });
    let mut h = Heading(Dir(LEFT));
    let mut m = Maneuver(3);
    move_ship(&mut p, &mut h, &mut m, Wind(Dir(RIGHT)), Action::Wait);
    assert_eq!((p, h, m), (Position(V { x: -128, y: 0 }), Heading(Dir(4)), Maneuver(4)));
}

#[test]
fn edge_of_grid_step_inward() {
    let mut p = Position(V { x: 127, y: 5 });
    let mut h = Heading(Dir(LEFT));
    let mut m = Maneuver(0);
    move_ship(&mut p, &mut h, &mut m, Wind(Dir(LEFT)), Action::Wait);
    assert_eq!((p, h, m), (Position(V { x: 126, y: 5 }), Heading(Dir(4)), Maneuver(1)));
}
