use arena::clash::temperature::{TEMPERATURE_BURN_POINT, TEMPERATURE_FREEZE_POINT, TEMPERATURE_MIDPOINT};
use arena::clash::{Temperature, TemperatureDirection};

#[test]
fn apply_temperature_based_upon_damage_dice() {
    let mut temperature = Temperature::init();
    temperature.change_from_incoming_damage(50, TemperatureDirection::Heat);
    assert!(temperature.current_temperature() > TEMPERATURE_MIDPOINT);
}

#[test]
fn apply_temperature_can_reverse_others() {
    let mut temperature = Temperature::init();
    temperature.change_from_incoming_damage(50, TemperatureDirection::Heat);
    temperature.change_from_incoming_damage(100, TemperatureDirection::Cool);
    assert!(temperature.current_temperature() < TEMPERATURE_MIDPOINT);
}

#[test]
fn temperature_reduction_towards_average() {
    let mut temperature = Temperature::init();
    temperature.change_from_incoming_damage(50, TemperatureDirection::Heat);
    let initial = temperature.current_temperature();
    temperature.reduce_temperature();
    assert!(temperature.current_temperature() < initial);
}

#[test]
fn temperature_reduction_does_not_overshoot() {
    let mut temperature = Temperature::init();
    temperature.set_temperature(5);
    temperature.reduce_temperature();
    assert_eq!(0, temperature.current_temperature());
}

#[test]
fn heat_per_die() {
    let mut temperature = Temperature::init();
    // 50 points of damage are 25 dice, 5 degrees each
    temperature.change_from_incoming_damage(50, TemperatureDirection::Heat);
    assert_eq!(125, temperature.current_temperature());
    assert!(temperature.is_burning());
    assert!(!temperature.is_freezing());
}

#[test]
fn cold_reduction_moves_up() {
    let mut temperature = Temperature::init();
    temperature.set_temperature(-30);
    temperature.reduce_temperature();
    assert_eq!(-17, temperature.current_temperature());
    temperature.set_temperature(TEMPERATURE_FREEZE_POINT - 1);
    assert!(temperature.is_freezing());
    temperature.set_temperature(TEMPERATURE_BURN_POINT);
    assert!(!temperature.is_burning());
}

#[test]
fn drift_is_paced_by_timer() {
    let mut temperature = Temperature::init();
    assert!(!temperature.is_ready(50));
    assert!(temperature.is_ready(50));
}
