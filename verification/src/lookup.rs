//! The course of a lookup: which request is sent, what is made of each reply,
//! and what follows from it.
//!
//! The library sends nothing itself. A lookup of one point is a `Step`: it
//! names the next thing for the caller to do, and the `Pending` in it takes
//! what came of that and gives the step after. A lookup of several points is a
//! `Batch`: one request, and the reading of its reply.

use crate::error::ElevationError;
use crate::error::ElevationErrorView;
use crate::json::json_document;
use crate::json::Json;
use crate::json::JsonView;
use crate::point::point_at;
use crate::point::lemma_points_fail_first;
use crate::point::points;
use crate::point::views;
use crate::point::Elevation;
use crate::point::ElevationView;
use crate::request::coords_query;
use crate::request::coords_url;
use crate::request::coords_view;
use crate::request::location_query;
use crate::request::location_url;
use crate::request::multiple_coords_query;
use crate::request::multiple_coords_url;
use vstd::prelude::*;

verus! {

/// What came of a request or of a reading, with its texts as sequences of
/// characters: the text that it gave, or the message of its failure.
pub open spec fn outcome_view(outcome: Result<String, String>) -> Result<Seq<char>, Seq<char>> {
    match outcome {
        Ok(text) => Ok(text@),
        Err(message) => Err(message@),
    }
}

/// The document of a reply. A request that failed gives an `Http` failure with
/// the transport's message; a body that is no JSON gives a `Json` failure with
/// the message of the reader.
pub open spec fn document_of(reply: Result<Seq<char>, Seq<char>>) -> Result<
    JsonView,
    ElevationErrorView,
> {
    match reply {
        Err(message) => Err(ElevationErrorView::Http(message)),
        Ok(body) => match json_document(body) {
            Ok(document) => Ok(document),
            Err(message) => Err(ElevationErrorView::Json(message)),
        },
    }
}

/// The elevation that the elevation provider's reply gives for one point.
pub open spec fn point_of_reply(reply: Result<Seq<char>, Seq<char>>) -> Result<
    ElevationView,
    ElevationErrorView,
> {
    match document_of(reply) {
        Err(e) => Err(e),
        Ok(document) => point_at(document, 0),
    }
}

/// The elevations that the elevation provider's reply gives for `count` points.
pub open spec fn points_of_reply(reply: Result<Seq<char>, Seq<char>>, count: nat) -> Result<
    Seq<ElevationView>,
    ElevationErrorView,
> {
    match document_of(reply) {
        Err(e) => Err(e),
        Ok(document) => points(document, count),
    }
}

/// The place that the geocoding provider found: the latitude and the longitude
/// of the first entry of the array that it replied with, each of which the
/// entry holds as a string. The latitude is looked for first.
pub open spec fn position_in(document: JsonView) -> Result<
    (Seq<char>, Seq<char>),
    ElevationErrorView,
> {
    let place = document.at_index(0);
    match place.at_key("lat"@) {
        JsonView::String(latitude) => match place.at_key("lon"@) {
            JsonView::String(longitude) => Ok((latitude, longitude)),
            _ => Err(ElevationErrorView::Json("couldn't find the geocoded longitude"@)),
        },
        _ => Err(ElevationErrorView::Json("couldn't find the geocoded latitude"@)),
    }
}

/// Reads a reply as a JSON document.
pub fn read_reply(reply: Result<String, String>) -> (document: Result<Json, ElevationError>)
    ensures
        match document {
            Ok(d) => document_of(outcome_view(reply)) == Ok::<JsonView, ElevationErrorView>(d@),
            Err(e) => document_of(outcome_view(reply)) == Err::<JsonView, ElevationErrorView>(e@),
        },
{
    match reply {
        Err(message) => Err(ElevationError::Http(message)),
        Ok(body) => match Json::parse(body.as_str()) {
            Ok(document) => Ok(document),
            Err(message) => Err(ElevationError::Json(message)),
        },
    }
}

/// Reads the place that the geocoding provider found from the document that
/// it replied with.
pub fn position(document: &Json) -> (place: Result<(String, String), ElevationError>)
    ensures
        match place {
            Ok((latitude, longitude)) => position_in(document@) == Ok::<
                (Seq<char>, Seq<char>),
                ElevationErrorView,
            >((latitude@, longitude@)),
            Err(e) => position_in(document@) == Err::<(Seq<char>, Seq<char>), ElevationErrorView>(
                e@,
            ),
        },
{
    let first = document.element(0);
    let latitude = match first {
        Some(place) => place.member("lat"),
        None => None,
    };
    let latitude = match latitude {
        Some(Json::String(text)) => text.clone(),
        _ => return Err(
            ElevationError::Json(String::from_str("couldn't find the geocoded latitude")),
        ),
    };
    let longitude = match first {
        Some(place) => place.member("lon"),
        None => None,
    };
    let longitude = match longitude {
        Some(Json::String(text)) => text.clone(),
        _ => return Err(
            ElevationError::Json(String::from_str("couldn't find the geocoded longitude")),
        ),
    };
    Ok((latitude, longitude))
}

/// What a lookup of one point waits for.
#[derive(Debug, PartialEq, Eq)]
pub enum Pending {
    /// The geocoding provider's reply to the search for a name.
    Geocode,
    /// The reading of the latitude that the geocoding provider gave. The
    /// longitude is kept as the provider gave it.
    Latitude { longitude: String },
    /// The reading of the longitude that the geocoding provider gave. The
    /// latitude is kept in decimal, as its reading gave it.
    Longitude { latitude: String },
    /// The elevation provider's reply for the point.
    Point,
}

/// What is to be done next for a lookup of one point.
#[derive(Debug, PartialEq, Eq)]
pub enum Step {
    /// Send a GET request to `url`, then advance `then` with the body of the
    /// reply, or with the transport's message where no body came.
    Get { url: String, then: Pending },
    /// Read `text` as a 64-bit float, then advance `then` with that float in
    /// decimal, or with the message of the failure where `text` is no float.
    Read { text: String, then: Pending },
    /// Nothing: the lookup has ended, with the elevation or with a failure.
    Done(Result<Elevation, ElevationError>),
}

/// A `Pending` with its texts as sequences of characters.
pub enum PendingView {
    Geocode,
    Latitude { longitude: Seq<char> },
    Longitude { latitude: Seq<char> },
    Point,
}

/// A `Step` with its texts as sequences of characters.
pub enum StepView {
    Get { url: Seq<char>, then: PendingView },
    Read { text: Seq<char>, then: PendingView },
    Done(Result<ElevationView, ElevationErrorView>),
}

impl View for Pending {
    type V = PendingView;

    open spec fn view(&self) -> PendingView {
        match self {
            Pending::Geocode => PendingView::Geocode,
            Pending::Latitude { longitude } => PendingView::Latitude { longitude: longitude@ },
            Pending::Longitude { latitude } => PendingView::Longitude { latitude: latitude@ },
            Pending::Point => PendingView::Point,
        }
    }
}

impl View for Step {
    type V = StepView;

    open spec fn view(&self) -> StepView {
        match self {
            Step::Get { url, then } => StepView::Get { url: url@, then: then@ },
            Step::Read { text, then } => StepView::Read { text: text@, then: then@ },
            Step::Done(Ok(point)) => StepView::Done(Ok(point@)),
            Step::Done(Err(error)) => StepView::Done(Err(error@)),
        }
    }
}

impl StepView {
    /// A step as the library gives it: a request is waited for as the reply
    /// of one of the two providers, a reading as the latitude or the longitude
    /// of the place that was found.
    pub open spec fn well_formed(self) -> bool {
        match self {
            StepView::Get { url, then } => then is Geocode || then is Point,
            StepView::Read { text, then } => then is Latitude || then is Longitude,
            StepView::Done(result) => true,
        }
    }
}

/// The first step of the lookup of a point by its coordinates: the request to
/// the elevation provider.
pub open spec fn coords_step(latitude: Seq<char>, longitude: Seq<char>) -> StepView {
    StepView::Get { url: coords_query(latitude, longitude), then: PendingView::Point }
}

/// The first step of the lookup of a place by its name: the request to the
/// geocoding provider.
pub open spec fn location_step(name: Seq<char>) -> StepView {
    StepView::Get { url: location_query(name), then: PendingView::Geocode }
}

/// The step that follows the geocoding provider's reply, read as a document
/// or not to be had: the reading of the latitude of the place that the
/// provider found, or the end of the lookup with the failure.
pub open spec fn step_after_search(found: Result<JsonView, ElevationErrorView>) -> StepView {
    match found {
        Err(e) => StepView::Done(Err(e)),
        Ok(document) => match position_in(document) {
            Err(e) => StepView::Done(Err(e)),
            Ok((latitude, longitude)) => StepView::Read {
                text: latitude,
                then: PendingView::Latitude { longitude },
            },
        },
    }
}

/// The step that follows the elevation provider's reply, read as a document
/// or not to be had: the end of the lookup, with the elevation of the first
/// point of the reply or with the failure.
pub open spec fn step_after_reply(found: Result<JsonView, ElevationErrorView>) -> StepView {
    match found {
        Err(e) => StepView::Done(Err(e)),
        Ok(document) => StepView::Done(point_at(document, 0)),
    }
}

/// The step that follows when a lookup waited for `pending` and `outcome` came.
///
/// A failure ends the lookup at once: a request that failed as an `Http`
/// failure, a reply or a reading that cannot be used as a `Json` failure. The
/// place that the geocoding provider found is read latitude first, and once
/// both coordinates are read the lookup goes on as that of a point by its
/// coordinates.
pub open spec fn next_step(pending: PendingView, outcome: Result<Seq<char>, Seq<char>>) -> StepView {
    match pending {
        PendingView::Geocode => step_after_search(document_of(outcome)),
        PendingView::Latitude { longitude } => match outcome {
            Err(message) => StepView::Done(Err(ElevationErrorView::Json(message))),
            Ok(latitude) => StepView::Read {
                text: longitude,
                then: PendingView::Longitude { latitude },
            },
        },
        PendingView::Longitude { latitude } => match outcome {
            Err(message) => StepView::Done(Err(ElevationErrorView::Json(message))),
            Ok(longitude) => coords_step(latitude, longitude),
        },
        PendingView::Point => step_after_reply(document_of(outcome)),
    }
}

/// A document that was read or not, with the document or the failure as its view.
pub open spec fn found_view(found: Result<Json, ElevationError>) -> Result<
    JsonView,
    ElevationErrorView,
> {
    match found {
        Ok(document) => Ok(document@),
        Err(error) => Err(error@),
    }
}

impl Step {
    /// The step that follows the geocoding provider's reply.
    pub fn after_search(found: Result<Json, ElevationError>) -> (step: Step)
        ensures
            step@ == step_after_search(found_view(found)),
            step@.well_formed(),
    {
        let document = match found {
            Ok(document) => document,
            Err(error) => return Step::Done(Err(error)),
        };
        match position(&document) {
            Ok((latitude, longitude)) => Step::Read {
                text: latitude,
                then: Pending::Latitude { longitude },
            },
            Err(error) => Step::Done(Err(error)),
        }
    }

    /// The step that follows the elevation provider's reply.
    pub fn after_reply(found: Result<Json, ElevationError>) -> (step: Step)
        ensures
            step@ == step_after_reply(found_view(found)),
            step@.well_formed(),
    {
        match found {
            Ok(document) => Step::Done(Elevation::from_document(&document, 0)),
            Err(error) => Step::Done(Err(error)),
        }
    }
}

impl Pending {
    /// Takes what came of the step that the lookup waited for, and gives the
    /// step that follows.
    pub fn advance(self, outcome: Result<String, String>) -> (step: Step)
        ensures
            step@ == next_step(self@, outcome_view(outcome)),
            step@.well_formed(),
    {
        match self {
            Pending::Geocode => Step::after_search(read_reply(outcome)),
            Pending::Latitude { longitude } => match outcome {
                Ok(latitude) => Step::Read { text: longitude, then: Pending::Longitude { latitude } },
                Err(message) => Step::Done(Err(ElevationError::Json(message))),
            },
            Pending::Longitude { latitude } => match outcome {
                Ok(longitude) => Elevation::from_coords(latitude.as_str(), longitude.as_str()),
                Err(message) => Step::Done(Err(ElevationError::Json(message))),
            },
            Pending::Point => Step::after_reply(read_reply(outcome)),
        }
    }
}

/// A lookup of several points: the one request that it sends, and the number
/// of points that the reply is read for.
#[derive(Debug, PartialEq, Eq)]
pub struct Batch {
    /// The address to send a GET request to.
    pub url: String,
    /// The number of points asked for.
    pub count: usize,
}

impl Batch {
    /// Reads the elevations from what came of the request: the body of the
    /// reply, or the transport's message where no body came. There is one
    /// elevation for each point asked for, in the order of the points; one
    /// point that cannot be read fails the whole.
    pub fn finish(self, reply: Result<String, String>) -> (list: Result<
        Vec<Elevation>,
        ElevationError,
    >)
        ensures
            match list {
                Ok(l) => points_of_reply(outcome_view(reply), self.count as nat) == Ok::<
                    Seq<ElevationView>,
                    ElevationErrorView,
                >(views(l@)),
                Err(e) => points_of_reply(outcome_view(reply), self.count as nat) == Err::<
                    Seq<ElevationView>,
                    ElevationErrorView,
                >(e@),
            },
            list matches Ok(l) ==> l@.len() == self.count,
    {
        match read_reply(reply) {
            Ok(document) => Elevation::all_from_document(&document, self.count),
            Err(error) => Err(error),
        }
    }
}

impl Elevation {
    /// Begins the lookup of the elevation of one point. The coordinates are
    /// given in decimal, as they are to stand in the request.
    pub fn from_coords(lat: &str, lon: &str) -> (step: Step)
        ensures
            step@ == coords_step(lat@, lon@),
            step@.well_formed(),
    {
        Step::Get { url: coords_url(lat, lon), then: Pending::Point }
    }

    /// Begins the lookup of the elevations of several points with one request.
    /// Each point is given as its latitude and its longitude, in decimal.
    ///
    /// Without points the request carries an empty value. What the provider
    /// replies to that is its own matter: any reply that is JSON then gives
    /// no elevations.
    pub fn from_multiple_coords(coords: Vec<[String; 2]>) -> (batch: Batch)
        ensures
            batch.url@ == multiple_coords_query(coords_view(coords@)),
            batch.count == coords.len(),
    {
        Batch { url: multiple_coords_url(&coords), count: coords.len() }
    }

    /// Begins the lookup of the elevation of the place with that name.
    pub fn from_location(name: &str) -> (step: Step)
        ensures
            step@ == location_step(name@),
            step@.well_formed(),
    {
        Step::Get { url: location_url(name), then: Pending::Geocode }
    }
}

/// Where a lookup stands after its caller has done what each step named, and
/// `outcomes` came of it, one after the other. A lookup that has ended stays
/// as it is.
pub open spec fn run(step: StepView, outcomes: Seq<Result<Seq<char>, Seq<char>>>) -> StepView
    decreases outcomes.len(),
{
    if outcomes.len() == 0 {
        step
    } else {
        match step {
            StepView::Get { url, then } => run(
                next_step(then, outcomes.first()),
                outcomes.drop_first(),
            ),
            StepView::Read { text, then } => run(
                next_step(then, outcomes.first()),
                outcomes.drop_first(),
            ),
            StepView::Done(result) => step,
        }
    }
}

/// The lookup of a point by its coordinates sends one request and ends with
/// what the reply gives for its first point, whatever the coordinates were.
pub proof fn lemma_coords_lookup(
    latitude: Seq<char>,
    longitude: Seq<char>,
    reply: Result<Seq<char>, Seq<char>>,
)
    ensures
        run(coords_step(latitude, longitude), seq![reply]) == StepView::Done(point_of_reply(reply)),
{
    reveal_with_fuel(run, 2);
}

/// The number of requests that a lookup sends from `step` on while `outcomes`
/// come, one after the other.
pub open spec fn requests(step: StepView, outcomes: Seq<Result<Seq<char>, Seq<char>>>) -> nat
    decreases outcomes.len(),
{
    if outcomes.len() == 0 {
        0
    } else {
        match step {
            StepView::Get { url, then } => 1 + requests(
                next_step(then, outcomes.first()),
                outcomes.drop_first(),
            ),
            StepView::Read { text, then } => requests(
                next_step(then, outcomes.first()),
                outcomes.drop_first(),
            ),
            StepView::Done(result) => 0,
        }
    }
}

/// Every lookup of one point ends: by its coordinates with the first outcome,
/// which is the reply to its one request; by name with the fourth outcome at
/// the latest, after two requests at most.
pub proof fn lemma_lookups_end(
    latitude: Seq<char>,
    longitude: Seq<char>,
    name: Seq<char>,
    outcomes: Seq<Result<Seq<char>, Seq<char>>>,
)
    ensures
        outcomes.len() >= 1 ==> run(coords_step(latitude, longitude), outcomes) is Done,
        outcomes.len() >= 4 ==> run(location_step(name), outcomes) is Done,
        requests(coords_step(latitude, longitude), outcomes) <= 1,
        requests(location_step(name), outcomes) <= 2,
{
    reveal_with_fuel(run, 5);
    reveal_with_fuel(requests, 5);
}

/// A lookup by name whose place was found and read goes on as the lookup of
/// that place by its coordinates does: it sends the same request and, on the
/// same reply, ends with the same result.
pub proof fn lemma_location_lookup(
    name: Seq<char>,
    found: Result<Seq<char>, Seq<char>>,
    latitude: Seq<char>,
    longitude: Seq<char>,
    reply: Result<Seq<char>, Seq<char>>,
)
    requires
        document_of(found) is Ok,
        position_in(document_of(found)->Ok_0) is Ok,
    ensures
        run(location_step(name), seq![found, Ok(latitude), Ok(longitude)]) == coords_step(
            latitude,
            longitude,
        ),
        run(location_step(name), seq![found, Ok(latitude), Ok(longitude), reply]) == run(
            coords_step(latitude, longitude),
            seq![reply],
        ),
{
    reveal_with_fuel(run, 5);
    let four = seq![found, Ok(latitude), Ok(longitude), reply];
    assert(four.drop_first().drop_first().drop_first() == seq![reply]);
}

/// Every step of a lookup is well formed: the first step of either kind of
/// lookup, and the step that follows any step on any outcome.
pub proof fn lemma_steps_well_formed(
    latitude: Seq<char>,
    longitude: Seq<char>,
    name: Seq<char>,
    pending: PendingView,
    outcome: Result<Seq<char>, Seq<char>>,
)
    ensures
        coords_step(latitude, longitude).well_formed(),
        location_step(name).well_formed(),
        next_step(pending, outcome).well_formed(),
{
}

/// A request that fails ends a lookup of one point with an `Http` failure
/// that carries the transport's message, whichever provider was asked; a text
/// that cannot be read ends it with a `Json` failure that carries the message
/// of the reading.
pub proof fn lemma_failure_ends_lookup(step: StepView, message: Seq<char>)
    requires
        step.well_formed(),
    ensures
        step matches StepView::Get { url, then } ==> next_step(then, Err(message))
            == StepView::Done(Err(ElevationErrorView::Http(message))),
        step matches StepView::Read { text, then } ==> next_step(then, Err(message))
            == StepView::Done(Err(ElevationErrorView::Json(message))),
{
}

/// A request that fails gives a lookup of several points an `Http` failure
/// that carries the transport's message, however many points were asked for.
pub proof fn lemma_batch_transport_failure(message: Seq<char>, count: nat)
    ensures
        points_of_reply(Err(message), count) == Err::<Seq<ElevationView>, ElevationErrorView>(
            ElevationErrorView::Http(message),
        ),
{
}

/// A lookup of no points gives no elevations on every reply that is JSON,
/// whatever the reply holds; where no reply came, or one that is no JSON, it
/// fails as every other lookup does.
pub proof fn lemma_empty_batch(reply: Result<Seq<char>, Seq<char>>)
    ensures
        points_of_reply(reply, 0) == match document_of(reply) {
            Ok(document) => Ok::<Seq<ElevationView>, ElevationErrorView>(Seq::empty()),
            Err(e) => Err(e),
        },
{
}

/// A failure is an `Http` failure only where a request failed: a reply that
/// came never gives one, whatever it holds.
pub proof fn lemma_http_means_transport(reply: Result<Seq<char>, Seq<char>>, count: nat)
    requires
        reply is Ok,
    ensures
        !(document_of(reply) matches Err(ElevationErrorView::Http(_))),
        !(point_of_reply(reply) matches Err(ElevationErrorView::Http(_))),
        !(points_of_reply(reply, count) matches Err(ElevationErrorView::Http(_))),
{
    if let Ok(document) = document_of(reply) {
        lemma_points_fail_first(document, count);
    }
}

} // verus!
