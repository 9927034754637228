use arena::atlas::{Direction, Point, SizedPoint};
use arena::clash::ai::{
    any_ally_without_buff_in_range, can_act, move_towards_player, player_move, tick_next_action,
    use_skill_at_player_if_in_range, TurnDecision,
};

#[test]
fn move_towards_player_steps_one_tile_closer() {
    let next = move_towards_player(&SizedPoint::init(2, 4), &SizedPoint::init(2, 2));
    assert_eq!(SizedPoint::init(2, 3), next);
}

#[test]
fn only_the_ready_player_acts() {
    assert!(can_act(Some(1), 1, 100));
    assert!(!can_act(Some(1), 1, 90));
    assert!(!can_act(Some(2), 1, 100));
    assert!(!can_act(None, 1, 100));
}

#[test]
fn player_move_needs_a_turn() {
    assert_eq!(None, player_move(false, &SizedPoint::init(2, 2), Direction::North));
    assert_eq!(Some(SizedPoint::init(2, 1)), player_move(true, &SizedPoint::init(2, 2), Direction::North));
    assert_eq!(None, player_move(true, &SizedPoint::init(2, 0), Direction::North));
}

#[test]
fn next_turn_goes_to_the_next_actor() {
    assert!(matches!(tick_next_action(Some(1), 1), TurnDecision::Player));
    assert!(matches!(tick_next_action(Some(4), 1), TurnDecision::Enemy(4)));
    assert!(matches!(tick_next_action(None, 1), TurnDecision::NoOne));
}

#[test]
fn first_unbuffed_ally_in_range_is_chosen() {
    let allies = vec![(SizedPoint::init(2, 3), true), (SizedPoint::init(8, 8), false), (SizedPoint::init(3, 3), false)];
    assert_eq!(Some(2), any_ally_without_buff_in_range(&SizedPoint::init(2, 2), &allies, 3));
    assert_eq!(None, any_ally_without_buff_in_range(&SizedPoint::init(2, 2), &allies, 1));
}

#[test]
fn skill_aims_at_nearest_player_tile_in_range() {
    let enemy = SizedPoint::init_multi(1, 2, 2, 2);
    let player = SizedPoint::init_multi(4, 6, 2, 2);
    assert_eq!(Some(Point::init(4, 5)), use_skill_at_player_if_in_range(&enemy, &player, 5));
    assert_eq!(None, use_skill_at_player_if_in_range(&enemy, &player, 4));
}
