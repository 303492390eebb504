//! The elevation of a point, and its reading from the elevation provider's reply.

use crate::error::ElevationError;
use crate::error::ElevationErrorView;
use crate::json::Binary64;
use crate::json::Json;
use crate::json::JsonView;
use vstd::prelude::*;

verus! {

/// The elevation of one point, as the provider reports it.
#[derive(Debug, PartialEq, Eq)]
pub struct Elevation {
    /// The latitude of the point that the elevation is given for.
    pub latitude: Binary64,
    /// Its longitude.
    pub longitude: Binary64,
    /// The elevation there, in the provider's unit.
    pub elevation: Binary64,
    /// The provider's name for the resolution of its data.
    pub resolution: String,
}

/// An `Elevation` with its resolution as a sequence of characters.
pub struct ElevationView {
    pub latitude: Binary64,
    pub longitude: Binary64,
    pub elevation: Binary64,
    pub resolution: Seq<char>,
}

impl View for Elevation {
    type V = ElevationView;

    open spec fn view(&self) -> ElevationView {
        ElevationView {
            latitude: self.latitude,
            longitude: self.longitude,
            elevation: self.elevation,
            resolution: self.resolution@,
        }
    }
}

/// The number that a record holds under `key`. Where the record holds a
/// number there that reads as no 64-bit float, the failure carries the message
/// `invalid`; where it holds anything else there or nothing, the message
/// `missing`.
pub open spec fn number_at(
    record: JsonView,
    key: Seq<char>,
    missing: Seq<char>,
    invalid: Seq<char>,
) -> Result<Binary64, ElevationErrorView> {
    match record.at_key(key) {
        JsonView::Number(Some(number)) => Ok(number),
        JsonView::Number(None) => Err(ElevationErrorView::Json(invalid)),
        _ => Err(ElevationErrorView::Json(missing)),
    }
}

/// The latitude, longitude and elevation of a record, which holds them as the
/// numbers `lat`, `lon` and `elevation`; or the failure of the first of them,
/// in that order, that is not to be had.
pub open spec fn record_of(record: JsonView) -> Result<
    (Binary64, Binary64, Binary64),
    ElevationErrorView,
> {
    match number_at(record, "lat"@, "couldn't find the latitude"@, "latitude isn't a number"@) {
        Err(e) => Err(e),
        Ok(latitude) => match number_at(
            record,
            "lon"@,
            "couldn't find the longitude"@,
            "longitude isn't a number"@,
        ) {
            Err(e) => Err(e),
            Ok(longitude) => match number_at(
                record,
                "elevation"@,
                "couldn't find the elevation"@,
                "elevation isn't a number"@,
            ) {
                Err(e) => Err(e),
                Ok(elevation) => Ok((latitude, longitude, elevation)),
            },
        },
    }
}

/// The elevation of the point at position `index` of a reply: the record there
/// in the array that the document holds as `elevations`, with the string that
/// the document holds as `resolution`. The record is read first.
pub open spec fn point_at(document: JsonView, index: int) -> Result<
    ElevationView,
    ElevationErrorView,
> {
    match record_of(document.at_key("elevations"@).at_index(index)) {
        Err(e) => Err(e),
        Ok((latitude, longitude, elevation)) => match document.at_key("resolution"@) {
            JsonView::String(resolution) => Ok(
                ElevationView { latitude, longitude, elevation, resolution },
            ),
            _ => Err(ElevationErrorView::Json("couldn't find the resolution"@)),
        },
    }
}

/// The elevations of the first `count` points of a reply, in their order, or
/// the failure of the first point among them that cannot be read.
pub open spec fn points(document: JsonView, count: nat) -> Result<
    Seq<ElevationView>,
    ElevationErrorView,
>
    decreases count,
{
    if count == 0 {
        Ok(Seq::empty())
    } else {
        match points(document, (count - 1) as nat) {
            Err(e) => Err(e),
            Ok(before) => match point_at(document, count - 1) {
                Err(e) => Err(e),
                Ok(point) => Ok(before.push(point)),
            },
        }
    }
}

/// The views of a sequence of elevations.
pub open spec fn views(points: Seq<Elevation>) -> Seq<ElevationView> {
    points.map_values(|point: Elevation| point@)
}

fn number_of(record: &Json, key: &str, missing: &str, invalid: &str) -> (number: Result<
    Binary64,
    ElevationError,
>)
    ensures
        match number {
            Ok(n) => number_at(record@, key@, missing@, invalid@) == Ok::<
                Binary64,
                ElevationErrorView,
            >(n),
            Err(e) => number_at(record@, key@, missing@, invalid@) == Err::<
                Binary64,
                ElevationErrorView,
            >(e@),
        },
{
    match record.member(key) {
        Some(Json::Number(Some(number))) => Ok(*number),
        Some(Json::Number(None)) => Err(ElevationError::Json(String::from_str(invalid))),
        _ => Err(ElevationError::Json(String::from_str(missing))),
    }
}

impl Elevation {
    /// Reads one record of the elevation provider's reply: its latitude,
    /// longitude and elevation, each of which the record holds as a number.
    pub fn parse_json(json: &Json) -> (triple: Result<(Binary64, Binary64, Binary64), ElevationError>)
        ensures
            match triple {
                Ok(t) => record_of(json@) == Ok::<(Binary64, Binary64, Binary64), ElevationErrorView>(t),
                Err(e) => record_of(json@) == Err::<(Binary64, Binary64, Binary64), ElevationErrorView>(e@),
            },
    {
        let latitude = match number_of(
            json,
            "lat",
            "couldn't find the latitude",
            "latitude isn't a number",
        ) {
            Ok(number) => number,
            Err(error) => return Err(error),
        };
        let longitude = match number_of(
            json,
            "lon",
            "couldn't find the longitude",
            "longitude isn't a number",
        ) {
            Ok(number) => number,
            Err(error) => return Err(error),
        };
        let elevation = match number_of(
            json,
            "elevation",
            "couldn't find the elevation",
            "elevation isn't a number",
        ) {
            Ok(number) => number,
            Err(error) => return Err(error),
        };
        Ok((latitude, longitude, elevation))
    }

    /// Reads the elevation of the point at position `index` from the document
    /// that the elevation provider replied with.
    pub fn from_document(document: &Json, index: usize) -> (point: Result<
        Elevation,
        ElevationError,
    >)
        ensures
            match point {
                Ok(p) => point_at(document@, index as int) == Ok::<
                    ElevationView,
                    ElevationErrorView,
                >(p@),
                Err(e) => point_at(document@, index as int) == Err::<
                    ElevationView,
                    ElevationErrorView,
                >(e@),
            },
    {
        let record = match document.member("elevations") {
            Some(list) => list.element(index),
            None => None,
        };
        let read = match record {
            Some(json) => Elevation::parse_json(json),
            None => Elevation::parse_json(&Json::Null),
        };
        let (latitude, longitude, elevation) = match read {
            Ok(triple) => triple,
            Err(error) => return Err(error),
        };
        let resolution = match document.member("resolution") {
            Some(Json::String(text)) => text.clone(),
            _ => return Err(
                ElevationError::Json(String::from_str("couldn't find the resolution")),
            ),
        };
        Ok(Elevation { latitude, longitude, elevation, resolution })
    }

    /// Reads the elevations of the first `count` points from the document that
    /// the elevation provider replied with. One point that cannot be read fails
    /// the whole.
    pub fn all_from_document(document: &Json, count: usize) -> (list: Result<
        Vec<Elevation>,
        ElevationError,
    >)
        ensures
            match list {
                Ok(l) => points(document@, count as nat) == Ok::<
                    Seq<ElevationView>,
                    ElevationErrorView,
                >(views(l@)),
                Err(e) => points(document@, count as nat) == Err::<
                    Seq<ElevationView>,
                    ElevationErrorView,
                >(e@),
            },
            list matches Ok(l) ==> l@.len() == count && forall|i: int|
                0 <= i < count ==> point_at(document@, i) == Ok::<
                    ElevationView,
                    ElevationErrorView,
                >(#[trigger] l@[i]@),
    {
        let mut results: Vec<Elevation> = Vec::new();
        let mut i: usize = 0;
        assert(views(results@) == Seq::<ElevationView>::empty());
        while i < count
            invariant
                i <= count,
                results@.len() == i,
                points(document@, i as nat) == Ok::<Seq<ElevationView>, ElevationErrorView>(
                    views(results@),
                ),
            decreases count - i,
        {
            let ghost before = results@;
            match Elevation::from_document(document, i) {
                Ok(point) => {
                    results.push(point);
                    assert(views(results@) == views(before).push(point@));
                },
                Err(error) => {
                    proof {
                        lemma_points_fail_on(document@, i as nat, count as nat);
                    }
                    return Err(error);
                },
            }
            i += 1;
        }
        proof {
            lemma_points_in_order(document@, count as nat);
            assert forall|i: int| 0 <= i < count implies point_at(document@, i) == Ok::<
                ElevationView,
                ElevationErrorView,
            >(#[trigger] results@[i]@) by {
                assert(views(results@)[i] == results@[i]@);
            }
        }
        Ok(results)
    }
}

/// Once the points before `index` were read and the point at `index` cannot be,
/// every longer reading fails as that point does.
proof fn lemma_points_fail_on(document: JsonView, index: nat, count: nat)
    requires
        index < count,
        points(document, index) is Ok,
        point_at(document, index as int) is Err,
    ensures
        points(document, count) == Err::<Seq<ElevationView>, ElevationErrorView>(
            point_at(document, index as int)->Err_0,
        ),
    decreases count,
{
    if count > index + 1 {
        lemma_points_fail_on(document, index, (count - 1) as nat);
    }
}

/// An elevation that was read holds what the reply holds for its point: the
/// three numbers of the record at its position, and the reply's resolution.
/// What the request asked for plays no part.
pub proof fn lemma_point_is_its_record(document: JsonView, index: int)
    requires
        point_at(document, index) is Ok,
    ensures
        ({
            let record = document.at_key("elevations"@).at_index(index);
            let point = point_at(document, index)->Ok_0;
            &&& record.at_key("lat"@) == JsonView::Number(Some(point.latitude))
            &&& record.at_key("lon"@) == JsonView::Number(Some(point.longitude))
            &&& record.at_key("elevation"@) == JsonView::Number(Some(point.elevation))
            &&& document.at_key("resolution"@) == JsonView::String(point.resolution)
        }),
{
}

/// The elevations of `count` points are `count` elevations, and the one at
/// each position is that of the point at the same position of the reply.
pub proof fn lemma_points_in_order(document: JsonView, count: nat)
    requires
        points(document, count) is Ok,
    ensures
        points(document, count)->Ok_0.len() == count,
        forall|i: int|
            0 <= i < count ==> point_at(document, i) == Ok::<ElevationView, ElevationErrorView>(
                #[trigger] points(document, count)->Ok_0[i],
            ),
    decreases count,
{
    if count > 0 {
        lemma_points_in_order(document, (count - 1) as nat);
    }
}

/// The elevations of `count` points are read if and only if each of the points
/// can be read; the failure is that of the first point that cannot.
pub proof fn lemma_points_fail_first(document: JsonView, count: nat)
    ensures
        points(document, count) is Ok <==> forall|i: int|
            0 <= i < count ==> #[trigger] point_at(document, i) is Ok,
        points(document, count) is Err ==> exists|i: int|
            0 <= i < count && #[trigger] point_at(document, i) == Err::<
                ElevationView,
                ElevationErrorView,
            >(points(document, count)->Err_0) && points(document, i as nat) is Ok,
    decreases count,
{
    if count > 0 {
        lemma_points_fail_first(document, (count - 1) as nat);
    }
}

/// No point asked for, no elevation: the reading of no points succeeds on
/// every document, whatever it holds.
pub proof fn lemma_no_points(document: JsonView)
    ensures
        points(document, 0) == Ok::<Seq<ElevationView>, ElevationErrorView>(Seq::empty()),
{
}

} // verus!
