use std::collections::HashMap;

use bevy::color::Color;
use bevy_simple_stat_bars::components::{
    Offset, StatBarColor, StatBarSize, StatBarSubject, StatBarValue, TICKS_PER_UNIT, VALUE_ONE,
};
use bevy_simple_stat_bars::observers::{
    buffer_observations, component_observer, observe_components, write_buffered, Observation,
};
use bevy_simple_stat_bars::render::BarSnapshot;

struct Hp {
    current: i32,
    max: i32,
}

fn hp_share(hp: &Hp) -> i32 {
    hp.current * VALUE_ONE / hp.max
}

fn values(pairs: &[(u64, i32)]) -> HashMap<u64, StatBarValue> {
    pairs.iter().map(|&(bar, value)| (bar, StatBarValue(value))).collect()
}

#[test]
fn observer_gives_what_its_function_gives() {
    let observer = component_observer(hp_share);
    assert_eq!(observer.observe(Some(&Hp { current: 30, max: 30 })), Some(1000));
    assert_eq!(observer.observe(Some(&Hp { current: 29, max: 30 })), Some(966));
    assert_eq!(observer.observe(Some(&Hp { current: 0, max: 30 })), Some(0));
    assert_eq!(observer.observe(Some(&Hp { current: -3, max: 30 })), Some(-100));
}

#[test]
fn observer_gives_nothing_without_data() {
    let observer = component_observer(hp_share);
    assert_eq!(observer.observe(None), None);
}

#[test]
fn observer_may_capture() {
    let scale = 3;
    let observer = component_observer(move |level: &i32| *level * scale);
    assert_eq!(observer.observe(Some(&7)), Some(21));
}

#[test]
fn only_observations_with_a_value_are_buffered() {
    let mut buffer = vec![(9, 9)];
    let observations = vec![
        Observation { bar: 1, value: Some(500) },
        Observation { bar: 2, value: None },
        Observation { bar: 3, value: Some(-20) },
    ];
    buffer_observations(&mut buffer, &observations);
    assert_eq!(buffer, vec![(9, 9), (1, 500), (3, -20)]);
}

#[test]
fn buffered_values_are_written_and_the_buffer_emptied() {
    let mut bars = values(&[(1, 1000), (2, 1000), (3, 250)]);
    let mut buffer = vec![(1, 500), (3, 1750)];
    write_buffered(&mut bars, &mut buffer);
    assert_eq!(bars, values(&[(1, 500), (2, 1000), (3, 1750)]));
    assert_eq!(buffer, vec![]);
}

#[test]
fn later_write_to_a_bar_wins() {
    let mut bars = values(&[(1, 1000)]);
    let mut buffer = vec![(1, 500), (1, 600)];
    write_buffered(&mut bars, &mut buffer);
    assert_eq!(bars, values(&[(1, 600)]));
}

#[test]
fn write_to_a_bar_without_value_is_dropped() {
    let mut bars = values(&[(1, 1000)]);
    let mut buffer = vec![(7, 500)];
    write_buffered(&mut bars, &mut buffer);
    assert_eq!(bars, values(&[(1, 1000)]));
    assert_eq!(buffer, vec![]);
}

#[test]
fn synchronization_overwrites_what_was_set_by_hand() {
    let mut bars = values(&[(1, 123), (2, 456), (3, 789)]);
    let mut buffer = Vec::new();
    let observations = vec![
        Observation { bar: 1, value: Some(1000) },
        Observation { bar: 2, value: None },
    ];
    observe_components(&mut bars, &mut buffer, &observations);
    assert_eq!(bars, values(&[(1, 1000), (2, 456), (3, 789)]));
    assert_eq!(buffer, vec![]);
}

#[test]
fn synchronization_writes_what_was_left_in_the_buffer_first() {
    let mut bars = values(&[(1, 0), (2, 0)]);
    let mut buffer = vec![(1, 100), (2, 200)];
    let observations = vec![Observation { bar: 1, value: Some(300) }];
    observe_components(&mut bars, &mut buffer, &observations);
    assert_eq!(bars, values(&[(1, 300), (2, 200)]));
    assert_eq!(buffer, vec![]);
}

#[test]
fn bar_follows_its_subjects_hit_points() {
    let bar: u64 = 1;
    let observer = component_observer(hp_share);
    let mut bars = values(&[(bar, StatBarValue::default().0)]);
    let mut buffer = Vec::new();
    let mut hp = Hp { current: 30, max: 30 };

    let seen = vec![Observation { bar, value: observer.observe(Some(&hp)) }];
    observe_components(&mut bars, &mut buffer, &seen);
    assert_eq!(bars[&bar], StatBarValue(1000));

    hp.current = 29;
    let seen = vec![Observation { bar, value: observer.observe(Some(&hp)) }];
    observe_components(&mut bars, &mut buffer, &seen);
    assert_eq!(bars[&bar], StatBarValue(29 * 1000 / 30));
    assert_eq!(bars[&bar], StatBarValue(966));

    let snapshot = BarSnapshot {
        color: StatBarColor(Color::WHITE),
        empty_color: None,
        border: None,
        value: bars[&bar],
        size: StatBarSize { full_length: 50, thickness: 6 },
        subject: StatBarSubject(10),
        position: None,
        z_depth: None,
        visibility: None,
    };
    let mut drawn = Vec::new();
    snapshot.extract(&mut drawn, Some(Offset { x: 0, y: 0 }));
    assert_eq!(drawn.len(), 1);
    assert_eq!(drawn[0].width, 2 * 966 * 50);
    assert!(drawn[0].width < 50 * TICKS_PER_UNIT);
    assert_eq!(2 * drawn[0].center_x - drawn[0].width, -50 * TICKS_PER_UNIT);
}

#[test]
fn bar_keeps_its_value_while_the_data_is_missing() {
    let observer = component_observer(hp_share);
    let mut bars = values(&[(1, 640)]);
    let mut buffer = Vec::new();
    let seen = vec![Observation { bar: 1, value: observer.observe(None) }];
    observe_components(&mut bars, &mut buffer, &seen);
    assert_eq!(bars, values(&[(1, 640)]));
}
