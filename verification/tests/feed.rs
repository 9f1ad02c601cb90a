use csv::StringRecord;
use track_relay::coordinate::Coordinate;
use track_relay::feed::{
    empty_report, point_from_report, read_report, report_from_record, Report, ID_FIELD,
    LATITUDE_FIELD, LONGITUDE_FIELD,
};
use track_relay::point::TrackPoint;

fn number(text: &Option<String>) -> Option<Coordinate> {
    let value: f32 = text.as_deref()?.parse().ok()?;
    Some(Coordinate::from_bits(value.to_bits()))
}

fn parse(line: &str) -> Option<TrackPoint> {
    let report = read_report(line);
    let latitude = number(&report.latitude);
    let longitude = number(&report.longitude);
    point_from_report(&report, latitude, longitude)
}

fn concat_line(parts: &[&str]) -> String {
    parts.concat()
}

fn plain(point: Option<TrackPoint>) -> Option<(String, f32, f32)> {
    point.map(|p| {
        (
            p.id().to_string(),
            f32::from_bits(p.latitude().to_bits()),
            f32::from_bits(p.longitude().to_bits()),
        )
    })
}

#[test]
fn field_positions() {
    assert_eq!(ID_FIELD, 4);
    assert_eq!(LATITUDE_FIELD, 14);
    assert_eq!(LONGITUDE_FIELD, 15);
}

#[test]
fn report_picks_fields_by_position() {
    let report = read_report("f0,f1,f2,f3,f4,f5,f6,f7,f8,f9,f10,f11,f12,f13,f14,f15,f16");
    assert_eq!(report.id, "f4");
    assert_eq!(report.latitude.as_deref(), Some("f14"));
    assert_eq!(report.longitude.as_deref(), Some("f15"));
}

#[test]
fn valid_line_yields_the_point_with_exact_values() {
    let line = concat_line(&[
        "MSG,3,1,1,4CA2D6,1,2024/01/01,00:00:00.000,",
        "2024/01/01,00:00:00.000,,37000,,,51.5,-0.12,,,0,0,0,0",
    ]);
    let line = line.as_str();
    assert_eq!(plain(parse(line)), Some(("4CA2D6".to_string(), 51.5f32, -0.12f32)));
}

#[test]
fn line_with_text_for_latitude_yields_nothing() {
    let line = ",,,,X1,,,,,,,,,,abc,-0.5";
    let report = read_report(line);
    assert_eq!(report.id, "X1");
    assert_eq!(report.latitude.as_deref(), Some("abc"));
    assert_eq!(report.longitude.as_deref(), Some("-0.5"));
    assert!(parse(line).is_none());
}

#[test]
fn line_with_text_for_longitude_yields_nothing() {
    assert!(parse(",,,,X1,,,,,,,,,,51.5,east").is_none());
}

#[test]
fn line_with_empty_coordinates_yields_nothing() {
    assert!(parse(",,,,X1,,,,,,,,,,,").is_none());
    assert!(parse(",,,,X1,,,,,,,,,,51.5,").is_none());
    assert!(parse(",,,,X1,,,,,,,,,,,-0.5").is_none());
}

#[test]
fn short_line_has_absent_coordinates() {
    let report = read_report("a,b,c,d,ID7");
    assert_eq!(report.id, "ID7");
    assert_eq!(report.latitude, None);
    assert_eq!(report.longitude, None);
    assert!(parse("a,b,c,d,ID7").is_none());
}

#[test]
fn line_that_ends_after_the_latitude_yields_nothing() {
    let line = ",,,,X1,,,,,,,,,,51.5";
    let report = read_report(line);
    assert_eq!(report.latitude.as_deref(), Some("51.5"));
    assert_eq!(report.longitude, None);
    assert!(parse(line).is_none());
}

#[test]
fn line_without_id_field_has_empty_id() {
    let report = read_report("a,b");
    assert_eq!(report.id, "");
    assert_eq!(report.latitude, None);
    assert_eq!(report.longitude, None);
}

#[test]
fn empty_id_is_a_valid_point() {
    assert_eq!(
        plain(parse(",,,,,,,,,,,,,,1.25,-2.5")),
        Some(("".to_string(), 1.25f32, -2.5f32))
    );
}

#[test]
fn extra_fields_are_ignored() {
    assert_eq!(
        plain(parse("0,1,2,3,ABC,5,6,7,8,9,10,11,12,13,10,20,16,17,18,19,20,21,22,23")),
        Some(("ABC".to_string(), 10.0f32, 20.0f32))
    );
}

#[test]
fn empty_line_makes_the_empty_report() {
    let report = read_report("");
    assert_eq!(report.id, "");
    assert_eq!(report.latitude, None);
    assert_eq!(report.longitude, None);
    assert!(parse("").is_none());
    let empty = empty_report();
    assert_eq!(empty.id, "");
    assert_eq!(empty.latitude, None);
    assert_eq!(empty.longitude, None);
}

#[test]
fn quoted_field_may_hold_the_delimiter() {
    let report = read_report("0,1,2,3,\"A,B\",5,6,7,8,9,10,11,12,13,1.5,2.5");
    assert_eq!(report.id, "A,B");
    assert_eq!(report.latitude.as_deref(), Some("1.5"));
    assert_eq!(report.longitude.as_deref(), Some("2.5"));
}

#[test]
fn line_end_is_not_part_of_the_last_field() {
    let report = read_report(",,,,X1,,,,,,,,,,1.5,2.5\r\n");
    assert_eq!(report.longitude.as_deref(), Some("2.5"));
    assert_eq!(
        plain(parse(",,,,X1,,,,,,,,,,1.5,2.5\n")),
        Some(("X1".to_string(), 1.5f32, 2.5f32))
    );
}

#[test]
fn only_the_first_record_of_a_text_counts() {
    let report = read_report(",,,,FIRST,,,,,,,,,,1,2\n,,,,SECOND,,,,,,,,,,3,4\n");
    assert_eq!(report.id, "FIRST");
    assert_eq!(report.latitude.as_deref(), Some("1"));
}

#[test]
fn first_line_is_data_not_a_header() {
    assert_eq!(
        plain(parse(",,,,ONLY,,,,,,,,,,7,8")),
        Some(("ONLY".to_string(), 7.0f32, 8.0f32))
    );
}

#[test]
fn coordinates_that_are_not_finite_yield_nothing() {
    assert!(parse(",,,,X1,,,,,,,,,,inf,1").is_none());
    assert!(parse(",,,,X1,,,,,,,,,,1,-inf").is_none());
    assert!(parse(",,,,X1,,,,,,,,,,NaN,1").is_none());
    assert!(parse(",,,,X1,,,,,,,,,,1,nan").is_none());
    assert!(parse(",,,,X1,,,,,,,,,,1e39,1").is_none());
}

#[test]
fn record_fields_are_read_by_index() {
    let mut fields = vec![""; 16];
    fields[4] = "R1";
    fields[14] = "12.5";
    fields[15] = "-7.25";
    let report = report_from_record(&StringRecord::from(fields));
    assert_eq!(report.id, "R1");
    assert_eq!(report.latitude.as_deref(), Some("12.5"));
    assert_eq!(report.longitude.as_deref(), Some("-7.25"));
    let short = report_from_record(&StringRecord::from(vec!["a", "b", "c", "d", "e", "f"]));
    assert_eq!(short.id, "e");
    assert_eq!(short.latitude, None);
    assert_eq!(short.longitude, None);
    let none = report_from_record(&StringRecord::new());
    assert_eq!(none.id, "");
}

#[test]
fn point_needs_both_texts_and_both_numbers() {
    let one = Some(Coordinate::from_bits(1.0f32.to_bits()));
    let two = Some(Coordinate::from_bits(2.0f32.to_bits()));
    let full = Report {
        id: "K".to_string(),
        latitude: Some("1".to_string()),
        longitude: Some("2".to_string()),
    };
    assert_eq!(
        plain(point_from_report(&full, one, two)),
        Some(("K".to_string(), 1.0f32, 2.0f32))
    );
    assert!(point_from_report(&full, None, two).is_none());
    assert!(point_from_report(&full, one, None).is_none());
    assert!(point_from_report(&full, None, None).is_none());
    assert!(point_from_report(&full, Some(Coordinate::not_a_number()), two).is_none());
    let no_latitude = Report {
        id: "K".to_string(),
        latitude: None,
        longitude: Some("2".to_string()),
    };
    assert!(point_from_report(&no_latitude, one, two).is_none());
    let no_longitude = Report {
        id: "K".to_string(),
        latitude: Some("1".to_string()),
        longitude: None,
    };
    assert!(point_from_report(&no_longitude, one, two).is_none());
}
