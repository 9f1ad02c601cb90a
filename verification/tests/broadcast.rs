use track_relay::broadcast::{Cursor, LatestValue};
use track_relay::coordinate::Coordinate;
use track_relay::point::TrackPoint;

fn point(id: &str, latitude: f32, longitude: f32) -> TrackPoint {
    TrackPoint::new(
        id,
        Coordinate::from_bits(latitude.to_bits()),
        Coordinate::from_bits(longitude.to_bits()),
    )
    .unwrap()
}

fn plain(point: Option<TrackPoint>) -> Option<(String, f32, f32)> {
    point.map(|p| {
        (
            p.id().to_string(),
            f32::from_bits(p.latitude().to_bits()),
            f32::from_bits(p.longitude().to_bits()),
        )
    })
}

fn poll(cell: &LatestValue, cursor: &mut Cursor) -> Option<(String, f32, f32)> {
    plain(cell.poll_change(cursor))
}

#[test]
fn fresh_cell_has_nothing_to_deliver() {
    let cell = LatestValue::new();
    assert_eq!(cell.version(), 0);
    assert!(cell.latest().is_none());
    let mut cursor = cell.subscribe();
    assert_eq!(cursor.last_seen(), 0);
    assert_eq!(poll(&cell, &mut cursor), None);
    assert_eq!(cursor.last_seen(), 0);
}

#[test]
fn publish_replaces_the_value_and_moves_the_version() {
    let mut cell = LatestValue::new();
    cell.publish(point("A", 1.0, 2.0));
    assert_eq!(cell.version(), 1);
    assert_eq!(plain(cell.latest()), Some(("A".to_string(), 1.0f32, 2.0f32)));
    cell.publish(point("B", 3.0, 4.0));
    assert_eq!(cell.version(), 2);
    assert_eq!(plain(cell.latest()), Some(("B".to_string(), 3.0f32, 4.0f32)));
}

#[test]
fn change_is_delivered_once() {
    let mut cell = LatestValue::new();
    let mut cursor = cell.subscribe();
    cell.publish(point("A", 1.0, 2.0));
    assert_eq!(poll(&cell, &mut cursor), Some(("A".to_string(), 1.0f32, 2.0f32)));
    assert_eq!(cursor.last_seen(), 1);
    assert_eq!(poll(&cell, &mut cursor), None);
    assert_eq!(poll(&cell, &mut cursor), None);
    assert_eq!(cursor.last_seen(), 1);
}

#[test]
fn slow_reader_sees_only_the_latest_of_many() {
    let mut cell = LatestValue::new();
    let mut cursor = cell.subscribe();
    cell.publish(point("K1", 1.0, 1.0));
    cell.publish(point("K2", 2.0, 2.0));
    cell.publish(point("K3", 3.0, 3.0));
    assert_eq!(poll(&cell, &mut cursor), Some(("K3".to_string(), 3.0f32, 3.0f32)));
    assert_eq!(cursor.last_seen(), 3);
    assert_eq!(poll(&cell, &mut cursor), None);
}

#[test]
fn readers_do_not_affect_each_other() {
    let mut cell = LatestValue::new();
    let mut fast = cell.subscribe();
    let mut slow = cell.subscribe();
    let mut fast_saw = Vec::new();
    for i in 1..=5 {
        cell.publish(point(&format!("S{i}"), i as f32, 0.0));
        if let Some(seen) = poll(&cell, &mut fast) {
            fast_saw.push(seen.0);
        }
    }
    assert_eq!(fast_saw, vec!["S1", "S2", "S3", "S4", "S5"]);
    assert_eq!(poll(&cell, &mut slow), Some(("S5".to_string(), 5.0f32, 0.0f32)));
    assert_eq!(poll(&cell, &mut fast), None);
    assert_eq!(poll(&cell, &mut slow), None);
    assert_eq!(cell.version(), 5);
}

#[test]
fn late_reader_is_not_told_of_earlier_points() {
    let mut cell = LatestValue::new();
    cell.publish(point("A1", 1.0, 1.0));
    let mut late = cell.subscribe();
    assert_eq!(late.last_seen(), 1);
    assert_eq!(poll(&cell, &mut late), None);
    cell.publish(point("A2", 2.0, 2.0));
    assert_eq!(poll(&cell, &mut late), Some(("A2".to_string(), 2.0f32, 2.0f32)));
    assert_eq!(poll(&cell, &mut late), None);
}

#[test]
fn delivered_point_is_a_copy() {
    let mut cell = LatestValue::new();
    let mut cursor = cell.subscribe();
    cell.publish(point("A", 1.0, 2.0));
    let delivered = cell.poll_change(&mut cursor).unwrap();
    cell.publish(point("B", 3.0, 4.0));
    assert_eq!(delivered.id(), "A");
    assert_eq!(plain(cell.latest()), Some(("B".to_string(), 3.0f32, 4.0f32)));
}
