//! The feed parser: from one line of the comma-delimited feed to the fields
//! of a position report, and from a report to a track point.
//!
//! A line is split into fields by the `csv` crate. The parser then picks the
//! identifier and the two coordinate texts by their positions. Reading a
//! decimal number is left to the caller, who hands back what it read; the
//! parser decides from that whether the line yields a point.

use csv::StringRecord;
use vstd::prelude::*;

use crate::coordinate::Coordinate;
use crate::point::{PointView, TrackPoint};

verus! {

/// The position of the object identifier among the fields of a line.
pub const ID_FIELD: usize = 4;

/// The position of the latitude among the fields of a line.
pub const LATITUDE_FIELD: usize = 14;

/// The position of the longitude among the fields of a line.
pub const LONGITUDE_FIELD: usize = 15;

/// `csv::StringRecord`, one record of text fields, taken as an opaque value.
#[verifier::external_type_specification]
#[verifier::external_body]
pub struct ExStringRecord(StringRecord);

/// `csv::Error`, what a reader reports when it fails, taken as an opaque
/// value.
#[verifier::external_type_specification]
#[verifier::external_body]
pub struct ExCsvError(csv::Error);

/// The fields that a record holds, in order, as `StringRecord::get` returns
/// them one by one.
pub uninterp spec fn record_fields(record: StringRecord) -> Seq<Seq<char>>;

/// The fields of the first record that the `csv` reader finds in `text`, or
/// nothing where it finds no record.
pub uninterp spec fn first_record(text: Seq<char>) -> Option<Seq<Seq<char>>>;

/// `StringRecord::get`: the field at index `i`, or nothing where the record
/// has no field at that index.
pub assume_specification[ StringRecord::get ](record: &StringRecord, i: usize) -> (field: Option<
    &str,
>)
    ensures
        match field {
            Some(text) => {
                &&& i < record_fields(*record).len()
                &&& text@ == record_fields(*record)[i as int]
            },
            None => i >= record_fields(*record).len(),
        },
;

/// A `csv` reader over the bytes of `text`, built without a header row and
/// with records of any number of fields, asked for its first record
/// (`ReaderBuilder::from_reader`, then `Reader::records` and `next`). What it
/// yields depends on the text alone. Where it yields a record, the fields of
/// that record are the ones named by `first_record`; where it yields none,
/// or fails, `first_record` names nothing.
#[verifier::external_body]
fn read_first_record(text: &str) -> (read: Option<Result<StringRecord, csv::Error>>)
    ensures
        match read {
            Some(Ok(record)) => first_record(text@) == Some(record_fields(record)),
            Some(Err(_)) => first_record(text@) is None,
            None => first_record(text@) is None,
        },
{
    let mut reader = csv::ReaderBuilder::new().has_headers(false).flexible(true).from_reader(
        text.as_bytes(),
    );
    reader.records().next()
}

/// What a report says: the identifier, and the texts of the two
/// coordinates where the line had them.
pub struct ReportView {
    pub id: Seq<char>,
    pub latitude: Option<Seq<char>>,
    pub longitude: Option<Seq<char>>,
}

/// The relevant fields of one line of the feed. The identifier is empty
/// where the line had none; a coordinate is absent where the line had too
/// few fields.
#[derive(Debug)]
pub struct Report {
    pub id: String,
    pub latitude: Option<String>,
    pub longitude: Option<String>,
}

impl View for Report {
    type V = ReportView;

    open spec fn view(&self) -> ReportView {
        ReportView {
            id: self.id@,
            latitude: match self.latitude {
                Some(text) => Some(text@),
                None => None,
            },
            longitude: match self.longitude {
                Some(text) => Some(text@),
                None => None,
            },
        }
    }
}

/// The field of `fields` at `index`, where there is one.
pub open spec fn field_at(fields: Seq<Seq<char>>, index: int) -> Option<Seq<char>> {
    if 0 <= index < fields.len() {
        Some(fields[index])
    } else {
        None
    }
}

/// The report that the fields of a line make.
pub open spec fn report_of(fields: Seq<Seq<char>>) -> ReportView {
    ReportView {
        id: match field_at(fields, ID_FIELD as int) {
            Some(text) => text,
            None => Seq::<char>::empty(),
        },
        latitude: field_at(fields, LATITUDE_FIELD as int),
        longitude: field_at(fields, LONGITUDE_FIELD as int),
    }
}

/// The report that a line of the feed makes: that of its fields, or that of
/// no fields at all where the line holds no record.
pub open spec fn line_report(line: Seq<char>) -> ReportView {
    match first_record(line) {
        Some(fields) => report_of(fields),
        None => report_of(Seq::<Seq<char>>::empty()),
    }
}

/// The point that a report and the numbers read from its coordinate texts
/// make. There is one only if both texts are present, both were read as
/// numbers, and both numbers are finite.
pub open spec fn point_of(
    report: ReportView,
    latitude: Option<Coordinate>,
    longitude: Option<Coordinate>,
) -> Option<PointView> {
    if report.latitude is Some && report.longitude is Some && latitude is Some && longitude is Some
        && latitude->0.finite() && longitude->0.finite() {
        Some(PointView { id: report.id, latitude: latitude->0, longitude: longitude->0 })
    } else {
        None
    }
}

/// An owned copy of the field at `index`, where the record has one.
fn owned_field(record: &StringRecord, index: usize) -> (field: Option<String>)
    ensures
        match field {
            Some(text) => field_at(record_fields(*record), index as int) == Some(text@),
            None => field_at(record_fields(*record), index as int) is None,
        },
{
    match record.get(index) {
        Some(text) => Some(text.to_owned()),
        None => None,
    }
}

/// The report with no identifier and no coordinates, which a line without
/// any field makes.
pub fn empty_report() -> (report: Report)
    ensures
        report@ == report_of(Seq::<Seq<char>>::empty()),
{
    Report { id: String::new(), latitude: None, longitude: None }
}

/// Picks the identifier and the coordinate texts out of a record.
pub fn report_from_record(record: &StringRecord) -> (report: Report)
    ensures
        report@ == report_of(record_fields(*record)),
{
    let id = match owned_field(record, ID_FIELD) {
        Some(text) => text,
        None => String::new(),
    };
    let latitude = owned_field(record, LATITUDE_FIELD);
    let longitude = owned_field(record, LONGITUDE_FIELD);
    Report { id, latitude, longitude }
}

/// Splits one line of the feed into fields and picks the identifier and
/// the coordinate texts out of them. A line from which no record can be read
/// makes the empty report.
pub fn read_report(line: &str) -> (report: Report)
    ensures
        report@ == line_report(line@),
{
    match read_first_record(line) {
        Some(Ok(record)) => report_from_record(&record),
        Some(Err(_)) => empty_report(),
        None => empty_report(),
    }
}

/// Makes the track point of a report, given what was read from its two
/// coordinate texts: `None` for a text that is not a number. The line
/// yields a point only if both coordinates were present, were numbers and
/// are finite; otherwise it yields nothing.
pub fn point_from_report(
    report: &Report,
    latitude: Option<Coordinate>,
    longitude: Option<Coordinate>,
) -> (point: Option<TrackPoint>)
    ensures
        match point {
            Some(p) => point_of(report@, latitude, longitude) == Some(p@),
            None => point_of(report@, latitude, longitude) is None,
        },
{
    if report.latitude.is_none() || report.longitude.is_none() {
        return None;
    }
    match (latitude, longitude) {
        (Some(lat), Some(long)) => TrackPoint::new(report.id.as_str(), lat, long),
        _ => None,
    }
}

/// Parse correctness: a line with an identifier and two coordinate fields
/// that read as finite numbers yields the point with exactly those values;
/// a line of which a coordinate is missing or does not read as a number
/// yields nothing.
pub proof fn lemma_parse_correctness(
    fields: Seq<Seq<char>>,
    latitude: Option<Coordinate>,
    longitude: Option<Coordinate>,
)
    ensures
        fields.len() > LONGITUDE_FIELD && latitude is Some && longitude is Some
            && latitude->0.finite() && longitude->0.finite() ==> point_of(
            report_of(fields),
            latitude,
            longitude,
        ) == Some(
            PointView {
                id: fields[ID_FIELD as int],
                latitude: latitude->0,
                longitude: longitude->0,
            },
        ),
        fields.len() <= LONGITUDE_FIELD ==> point_of(report_of(fields), latitude, longitude)
            is None,
        latitude is None || longitude is None ==> point_of(report_of(fields), latitude, longitude)
            is None,
        latitude is Some && !latitude->0.finite() ==> point_of(
            report_of(fields),
            latitude,
            longitude,
        ) is None,
        longitude is Some && !longitude->0.finite() ==> point_of(
            report_of(fields),
            latitude,
            longitude,
        ) is None,
{
}

} // verus!
