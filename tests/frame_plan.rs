use orbital::body::{select, single, Layout, Query, Role};
use orbital::schedule::plan_frame;

fn player() -> Layout {
    Layout { position: true, velocity: true, thrust: true, role: Some(Role::Movable), player: true }
}

fn planet() -> Layout {
    Layout { position: true, velocity: false, thrust: false, role: Some(Role::Immovable), player: false }
}

fn drifter() -> Layout {
    Layout { position: true, velocity: true, thrust: false, role: Some(Role::Movable), player: false }
}

#[test]
fn standard_world_plan() {
    // player at index 0, planet at index 1, as the world is set up
    let p = plan_frame(&vec![player(), planet()]);
    assert_eq!(p.player, Some(0));
    assert_eq!(p.propelled, vec![0]);
    assert_eq!(p.source, Some(1));
    assert_eq!(p.attracted, vec![0]);
    assert_eq!(p.moved, vec![0]);
}

#[test]
fn planet_first_world_plan() {
    let p = plan_frame(&vec![planet(), drifter(), player(), drifter()]);
    assert_eq!(p.player, Some(2));
    assert_eq!(p.propelled, vec![2]);
    assert_eq!(p.source, Some(0));
    assert_eq!(p.attracted, vec![1, 2, 3]);
    assert_eq!(p.moved, vec![1, 2, 3]);
}

#[test]
fn no_source_means_no_gravity() {
    let p = plan_frame(&vec![player(), drifter()]);
    assert_eq!(p.source, None);
    assert!(p.attracted.is_empty());
    assert_eq!(p.moved, vec![0, 1]);
}

#[test]
fn two_sources_means_no_gravity() {
    let p = plan_frame(&vec![planet(), player(), planet()]);
    assert_eq!(p.source, None);
    assert!(p.attracted.is_empty());
    assert_eq!(p.player, Some(1));
}

#[test]
fn no_player_means_no_input() {
    let p = plan_frame(&vec![planet(), drifter()]);
    assert_eq!(p.player, None);
    assert!(p.propelled.is_empty());
    assert_eq!(p.attracted, vec![1]);
}

#[test]
fn two_players_means_no_input() {
    let p = plan_frame(&vec![player(), planet(), player()]);
    assert_eq!(p.player, None);
    assert_eq!(p.propelled, vec![0, 2]);
}

#[test]
fn empty_world_plan() {
    let p = plan_frame(&Vec::new());
    assert_eq!(p.player, None);
    assert_eq!(p.source, None);
    assert!(p.propelled.is_empty());
    assert!(p.attracted.is_empty());
    assert!(p.moved.is_empty());
}

#[test]
fn source_is_never_attracted() {
    let p = plan_frame(&vec![drifter(), planet(), player()]);
    let s = p.source.unwrap();
    assert!(!p.attracted.contains(&s));
    for i in &p.attracted {
        assert!(p.moved.contains(i));
    }
}

#[test]
fn immovable_without_position_is_no_source() {
    let mut ghost_planet = planet();
    ghost_planet.position = false;
    assert!(!Query::Attracts.accepts(&ghost_planet));
    assert_eq!(single(&vec![ghost_planet, player()], Query::Attracts), None);
}

#[test]
fn queries_select_by_components() {
    let thrust_only =
        Layout { position: false, velocity: false, thrust: true, role: None, player: true };
    let bodies = vec![thrust_only, player(), planet(), drifter()];
    assert_eq!(select(&bodies, Query::Steered), vec![0, 1]);
    assert_eq!(select(&bodies, Query::Propelled), vec![1]);
    assert_eq!(select(&bodies, Query::Attracts), vec![2]);
    assert_eq!(select(&bodies, Query::Attracted), vec![1, 3]);
    assert_eq!(select(&bodies, Query::Moves), vec![1, 3]);
    assert_eq!(single(&bodies, Query::Steered), None);
    assert_eq!(single(&bodies, Query::Propelled), Some(1));
}

#[test]
fn movable_without_velocity_is_not_attracted() {
    let mut stuck = drifter();
    stuck.velocity = false;
    assert!(!Query::Attracted.accepts(&stuck));
    assert!(!Query::Moves.accepts(&stuck));
    let p = plan_frame(&vec![planet(), stuck]);
    assert!(p.attracted.is_empty());
}
