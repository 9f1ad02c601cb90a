//! Track points: one observation of a tracked object.

use smol_str::SmolStr;
use vstd::prelude::*;

use crate::coordinate::Coordinate;

verus! {

/// `smol_str::SmolStr`, an immutable string that is cheap to clone, taken as
/// an opaque value.
#[verifier::external_type_specification]
#[verifier::external_body]
pub struct ExSmolStr(SmolStr);

/// The text that a `SmolStr` holds, as `SmolStr::as_str` returns it.
pub uninterp spec fn smol_text(s: SmolStr) -> Seq<char>;

/// `SmolStr::new`: the new string holds exactly the text it was built from.
#[verifier::external_body]
fn smol_from_str(text: &str) -> (s: SmolStr)
    ensures
        smol_text(s) == text@,
{
    SmolStr::new(text)
}

/// `SmolStr::as_str`: the slice returned is the text that the string holds.
#[verifier::external_body]
fn smol_as_str(s: &SmolStr) -> (text: &str)
    ensures
        text@ == smol_text(*s),
{
    s.as_str()
}

/// `SmolStr::clone`: the copy holds the same text as the string it was made
/// from.
#[verifier::external_body]
fn smol_clone(s: &SmolStr) -> (copy: SmolStr)
    ensures
        smol_text(copy) == smol_text(*s),
{
    s.clone()
}

/// What a track point says: the identifier's characters and the two
/// coordinates.
pub struct PointView {
    pub id: Seq<char>,
    pub latitude: Coordinate,
    pub longitude: Coordinate,
}

impl PointView {
    /// Both coordinates are finite numbers.
    pub open spec fn finite(self) -> bool {
        self.latitude.finite() && self.longitude.finite()
    }
}

/// One observation of a tracked object: its identifier (possibly empty) and
/// its position. Both coordinates of a track point are finite.
#[derive(Debug)]
pub struct TrackPoint {
    id: SmolStr,
    latitude: Coordinate,
    longitude: Coordinate,
}

impl View for TrackPoint {
    type V = PointView;

    closed spec fn view(&self) -> PointView {
        PointView { id: smol_text(self.id), latitude: self.latitude, longitude: self.longitude }
    }
}

impl TrackPoint {
    #[verifier::type_invariant]
    spec fn coordinates_finite(self) -> bool {
        self.latitude.finite() && self.longitude.finite()
    }

    /// Builds a track point, provided both coordinates are finite.
    pub fn new(id: &str, latitude: Coordinate, longitude: Coordinate) -> (point: Option<
        TrackPoint,
    >)
        ensures
            point is Some <==> latitude.finite() && longitude.finite(),
            point matches Some(p) ==> p@ == (PointView { id: id@, latitude, longitude }),
    {
        if latitude.is_finite() && longitude.is_finite() {
            Some(TrackPoint { id: smol_from_str(id), latitude, longitude })
        } else {
            None
        }
    }

    /// The identifier of the tracked object; it may be empty.
    pub fn id(&self) -> (text: &str)
        ensures
            text@ == self@.id,
    {
        smol_as_str(&self.id)
    }

    /// The latitude, a finite number.
    pub fn latitude(&self) -> (c: Coordinate)
        ensures
            c == self@.latitude,
            c.finite(),
    {
        proof {
            use_type_invariant(self);
        }
        self.latitude
    }

    /// The longitude, a finite number.
    pub fn longitude(&self) -> (c: Coordinate)
        ensures
            c == self@.longitude,
            c.finite(),
    {
        proof {
            use_type_invariant(self);
        }
        self.longitude
    }
}

impl Clone for TrackPoint {
    fn clone(&self) -> (copy: TrackPoint)
        ensures
            copy@ == self@,
    {
        proof {
            use_type_invariant(self);
        }
        TrackPoint {
            id: smol_clone(&self.id),
            latitude: self.latitude,
            longitude: self.longitude,
        }
    }
}

} // verus!
