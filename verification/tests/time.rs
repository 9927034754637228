use arena::clash::time::{add_ticks, get_next_actor, spend_time, wait_for_next};
use arena::clash::{TimeComponent, BASE_ACTION_COST};

#[test]
fn get_next_with_no_actors() {
    let times: Vec<(u32, i32)> = vec![];
    assert_eq!(true, get_next_actor(&times).is_none());
}

#[test]
fn get_next_two_disjoint() {
    let times: Vec<(u32, i32)> = vec![(0, 0), (1, 10)];
    let next = get_next_actor(&times).unwrap();
    assert_eq!(10, times[next as usize].1);
}

#[test]
fn get_next_two_same() {
    let mut times: Vec<(u32, i32)> = vec![(0, 10), (1, 10)];
    let first = times[0].0;
    let second = times[1].0;
    let next = get_next_actor(&times).unwrap();
    assert_eq!(next, second);
    times[next as usize].1 = 0;
    let next = get_next_actor(&times).unwrap();
    assert_eq!(next, first);
}

#[test]
fn add_some_ticks() {
    let mut times: Vec<(u32, i32)> = vec![(0, 10)];
    add_ticks(&mut times, 50);
    assert_eq!(60, times[0].1);
}

#[test]
fn wait_for() {
    let mut times: Vec<(u32, i32)> = vec![(0, 10), (1, 20)];
    let next = wait_for_next(&mut times).unwrap();
    assert_eq!(next, 1);
    assert_eq!(90, times[0].1);
    assert_eq!(100, times[1].1);
}

#[test]
fn wait_for_next_with_none() {
    let mut times: Vec<(u32, i32)> = vec![];
    let next = wait_for_next(&mut times);
    assert_eq!(true, next.is_none());
}

#[test]
fn spent() {
    assert_eq!(10, spend_time(110, BASE_ACTION_COST));
}

#[test]
fn wait_for_ready_actor_adds_nothing() {
    let mut times: Vec<(u32, i32)> = vec![(0, 150), (1, 20)];
    let next = wait_for_next(&mut times).unwrap();
    assert_eq!(0, next);
    assert_eq!(150, times[0].1);
    assert_eq!(20, times[1].1);
}

#[test]
fn time_component_holds_ticks() {
    assert_eq!(42, TimeComponent::init(42).ticks);
}
