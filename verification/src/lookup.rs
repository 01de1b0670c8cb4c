//! One lookup from request to answer, as a machine that is told how each
//! upstream call ended and says what to do next. The caller makes the calls.

use vstd::prelude::*;
use crate::forecast::{
    compose, forecast_query, forecast_url, label, report, Report, WeatherReading, WeatherResponse,
};
use crate::geocode::{
    geocode_query, geocode_url, law_selection_first_match_else_first, names_city, select_index,
    selected, GeoCandidate, GeoResult, Place, WeatherRequest,
};

verus! {

/// How one upstream call ended.
#[derive(Debug, PartialEq, Eq)]
pub enum Outcome<T> {
    /// No response arrived.
    Unreachable,
    /// A response arrived with this HTTP status. `body` is what it decoded
    /// to, or `None` where it could not be read or decoded.
    Answered { status: u16, body: Option<T> },
}

/// The status is one of the 2xx codes.
pub open spec fn is_success(status: u16) -> bool {
    200 <= status <= 299
}

impl<T> Outcome<T> {
    /// What a call that went well brought: the decoded body of a response
    /// with a success status. Every other outcome brought nothing.
    pub open spec fn payload(self) -> Option<T> {
        match self {
            Outcome::Answered { status, body: Some(body) } => if is_success(status) {
                Some(body)
            } else {
                None
            },
            _ => None,
        }
    }

    /// Takes out what the call brought.
    pub fn into_payload(self) -> (out: Option<T>)
        ensures
            out == self.payload(),
    {
        match self {
            Outcome::Answered { status, body: Some(body) } => {
                if 200 <= status && status <= 299 {
                    Some(body)
                } else {
                    None
                }
            },
            _ => None,
        }
    }
}

impl<T: DeepView> DeepView for Outcome<T> {
    type V = Outcome<T::V>;

    open spec fn deep_view(&self) -> Outcome<T::V> {
        match self {
            Outcome::Unreachable => Outcome::Unreachable,
            Outcome::Answered { status, body } => Outcome::Answered {
                status: *status,
                body: body.deep_view(),
            },
        }
    }
}

/// What goes back to the client.
#[derive(Debug, PartialEq, Eq)]
pub enum Reply {
    /// The weather at the selected place.
    Found(WeatherResponse),
    /// The lookup failed. Every failure gives this one reply, whichever stage
    /// it came from.
    Failed,
    /// The request named no city; nothing was asked upstream.
    Rejected,
}

/// A [`Reply`] over sequences of characters.
pub ghost enum ReplyModel {
    Found(Report),
    Failed,
    Rejected,
}

impl DeepView for Reply {
    type V = ReplyModel;

    open spec fn deep_view(&self) -> ReplyModel {
        match self {
            Reply::Found(response) => ReplyModel::Found(response@),
            Reply::Failed => ReplyModel::Failed,
            Reply::Rejected => ReplyModel::Rejected,
        }
    }
}

/// The HTTP status of a reply.
pub open spec fn status_of(reply: ReplyModel) -> u16 {
    match reply {
        ReplyModel::Found(_) => 200,
        ReplyModel::Failed => 500,
        ReplyModel::Rejected => 400,
    }
}

/// The plain-text body of a reply: the one fixed message for a failure. The
/// other replies have none.
pub open spec fn message_of(reply: ReplyModel) -> Option<Seq<char>> {
    match reply {
        ReplyModel::Failed => Some("Could not get weather data"@),
        _ => None,
    }
}

impl Reply {
    /// The HTTP status to answer with.
    pub fn status(&self) -> (code: u16)
        ensures
            code == status_of(self.deep_view()),
    {
        match self {
            Reply::Found(_) => 200,
            Reply::Failed => 500,
            Reply::Rejected => 400,
        }
    }

    /// The plain-text body to answer with, if the reply has one.
    pub fn message(&self) -> (text: Option<String>)
        ensures
            text.deep_view() == message_of(self.deep_view()),
    {
        match self {
            Reply::Failed => Some(String::from_str("Could not get weather data")),
            _ => None,
        }
    }
}

/// What the caller is to do next.
#[derive(Debug, PartialEq, Eq)]
pub enum Action {
    /// Get this address from the geocoder and report the outcome.
    AskGeocoder { url: String },
    /// Get this address from the forecast service and report the outcome.
    AskForecast { url: String },
    /// Answer the client. The lookup is over.
    Finish(Reply),
}

/// An [`Action`] over sequences of characters.
pub ghost enum ActionModel {
    AskGeocoder { url: Seq<char> },
    AskForecast { url: Seq<char> },
    Finish(ReplyModel),
}

impl DeepView for Action {
    type V = ActionModel;

    open spec fn deep_view(&self) -> ActionModel {
        match self {
            Action::AskGeocoder { url } => ActionModel::AskGeocoder { url: url@ },
            Action::AskForecast { url } => ActionModel::AskForecast { url: url@ },
            Action::Finish(reply) => ActionModel::Finish(reply.deep_view()),
        }
    }
}

/// How far a lookup has come.
#[derive(Debug, PartialEq, Eq)]
pub enum Stage {
    /// The geocoder has been asked. The request's country waits for the
    /// candidates.
    Geocoding { country: Option<String> },
    /// The forecast service has been asked about the selected place.
    Forecasting { place: GeoCandidate },
    /// The client has its answer.
    Done,
}

/// A [`Stage`] over sequences of characters.
pub ghost enum StageModel {
    Geocoding { country: Option<Seq<char>> },
    Forecasting { place: Place },
    Done,
}

impl DeepView for Stage {
    type V = StageModel;

    open spec fn deep_view(&self) -> StageModel {
        match self {
            Stage::Geocoding { country } => StageModel::Geocoding { country: country.deep_view() },
            Stage::Forecasting { place } => StageModel::Forecasting { place: place@ },
            Stage::Done => StageModel::Done,
        }
    }
}

/// What the caller reports back.
#[derive(Debug, PartialEq, Eq)]
pub enum Event {
    /// The geocoding call ended.
    Geocoded(Outcome<GeoResult>),
    /// The forecast call ended.
    Forecast(Outcome<WeatherReading>),
}

/// An [`Event`] over sequences of characters.
pub ghost enum EventModel {
    Geocoded(Outcome<Option<Seq<Place>>>),
    Forecast(Outcome<WeatherReading>),
}

impl DeepView for Event {
    type V = EventModel;

    open spec fn deep_view(&self) -> EventModel {
        match self {
            Event::Geocoded(outcome) => EventModel::Geocoded(outcome.deep_view()),
            Event::Forecast(outcome) => EventModel::Forecast(outcome.deep_view()),
        }
    }
}

/// The move that ends a lookup in failure.
pub open spec fn failed() -> (StageModel, ActionModel) {
    (StageModel::Done, ActionModel::Finish(ReplyModel::Failed))
}

/// The first move for the two query parameters of a request: ask the
/// geocoder where a city is named, reject the request where none is.
pub open spec fn begin(city: Option<Seq<char>>, country: Option<Seq<char>>) -> (
    StageModel,
    ActionModel,
) {
    if names_city(city) {
        (
            StageModel::Geocoding { country },
            ActionModel::AskGeocoder { url: geocode_query(city->0, country) },
        )
    } else {
        (StageModel::Done, ActionModel::Finish(ReplyModel::Rejected))
    }
}

/// The candidates that a geocoding call brought, where it brought any.
pub open spec fn candidates_of(outcome: Outcome<Option<Seq<Place>>>) -> Option<Seq<Place>> {
    match outcome.payload() {
        Some(Some(places)) if places.len() > 0 => Some(places),
        _ => None,
    }
}

/// The move that follows an event.
///
/// While geocoding, candidates lead to the forecast query for the selected
/// one. While forecasting, a reading leads to the answer for the place that
/// was asked about. Everything else ends the lookup in failure: a call that
/// brought nothing, an empty or absent list of candidates, and an event that
/// the stage was not waiting for.
pub open spec fn transition(stage: StageModel, event: EventModel) -> (StageModel, ActionModel) {
    match (stage, event) {
        (StageModel::Geocoding { country }, EventModel::Geocoded(outcome)) => {
            match candidates_of(outcome) {
                Some(places) => {
                    let place = places[selected(places, country)];
                    (
                        StageModel::Forecasting { place },
                        ActionModel::AskForecast { url: forecast_query(place) },
                    )
                },
                None => failed(),
            }
        },
        (StageModel::Forecasting { place }, EventModel::Forecast(outcome)) => {
            match outcome.payload() {
                Some(reading) => (
                    StageModel::Done,
                    ActionModel::Finish(ReplyModel::Found(report(place, reading))),
                ),
                None => failed(),
            }
        },
        _ => failed(),
    }
}

/// Starts a lookup for the `city` and `country` parameters of a request.
pub fn start(city: Option<String>, country: Option<String>) -> (next: (Stage, Action))
    ensures
        (next.0.deep_view(), next.1.deep_view()) == begin(city.deep_view(), country.deep_view()),
{
    match WeatherRequest::from_query(city, country) {
        Some(request) => {
            let url = geocode_url(&request);
            (Stage::Geocoding { country: request.country }, Action::AskGeocoder { url })
        },
        None => (Stage::Done, Action::Finish(Reply::Rejected)),
    }
}

/// Takes a lookup one step on: from the stage it is in and the event that
/// the caller reports, to the next stage and what to do there.
pub fn step(stage: Stage, event: Event) -> (next: (Stage, Action))
    ensures
        (next.0.deep_view(), next.1.deep_view()) == transition(
            stage.deep_view(),
            event.deep_view(),
        ),
{
    match (stage, event) {
        (Stage::Geocoding { country }, Event::Geocoded(outcome)) => {
            match outcome.into_payload() {
                Some(Some(mut candidates)) => {
                    match select_index(&candidates, &country) {
                        Some(at) => {
                            let place = candidates.swap_remove(at);
                            let url = forecast_url(&place);
                            (Stage::Forecasting { place }, Action::AskForecast { url })
                        },
                        None => (Stage::Done, Action::Finish(Reply::Failed)),
                    }
                },
                _ => (Stage::Done, Action::Finish(Reply::Failed)),
            }
        },
        (Stage::Forecasting { place }, Event::Forecast(outcome)) => {
            match outcome.into_payload() {
                Some(reading) => {
                    let response = compose(&place, reading);
                    (Stage::Done, Action::Finish(Reply::Found(response)))
                },
                None => (Stage::Done, Action::Finish(Reply::Failed)),
            }
        },
        _ => (Stage::Done, Action::Finish(Reply::Failed)),
    }
}

/// The reply that a whole lookup ends with, for the parameters of the request
/// and the outcomes of the two calls. The lookup asks the geocoder only for a
/// request that names a city, and the forecast service only once a place is
/// selected; an outcome that is never asked for does not count.
pub open spec fn reply_of(
    city: Option<Seq<char>>,
    country: Option<Seq<char>>,
    geocoded: Outcome<Option<Seq<Place>>>,
    forecast: Outcome<WeatherReading>,
) -> ReplyModel {
    let (waiting, first) = begin(city, country);
    match first {
        ActionModel::Finish(reply) => reply,
        _ => {
            let (asking, second) = transition(waiting, EventModel::Geocoded(geocoded));
            match second {
                ActionModel::Finish(reply) => reply,
                _ => match transition(asking, EventModel::Forecast(forecast)).1 {
                    ActionModel::Finish(reply) => reply,
                    _ => ReplyModel::Failed,
                },
            }
        },
    }
}

/// A lookup that names a city, gets candidates and gets a reading answers
/// with the label of the selected candidate and that reading; no other lookup
/// gets an answer.
pub proof fn law_answer_when_both_calls_bring(
    city: Option<Seq<char>>,
    country: Option<Seq<char>>,
    geocoded: Outcome<Option<Seq<Place>>>,
    forecast: Outcome<WeatherReading>,
)
    ensures
        reply_of(city, country, geocoded, forecast) is Found <==> names_city(city) && candidates_of(
            geocoded,
        ) is Some && forecast.payload() is Some,
        reply_of(city, country, geocoded, forecast) matches ReplyModel::Found(answer) ==> {
            let places = candidates_of(geocoded)->0;
            answer == report(places[selected(places, country)], forecast.payload()->0)
        },
{
}

/// A request that names no city, because the parameter is missing or empty,
/// is rejected with status 400 before anything is asked upstream: the first
/// action already ends the lookup, whatever the upstream services would say.
pub proof fn law_missing_city_rejected(
    city: Option<Seq<char>>,
    country: Option<Seq<char>>,
    geocoded: Outcome<Option<Seq<Place>>>,
    forecast: Outcome<WeatherReading>,
)
    requires
        city is None || city->0.len() == 0,
    ensures
        begin(city, country) == (StageModel::Done, ActionModel::Finish(ReplyModel::Rejected)),
        reply_of(city, country, geocoded, forecast) == ReplyModel::Rejected,
        status_of(ReplyModel::Rejected) == 400,
{
}

/// Where the geocoder's answer holds no list of candidates, or an empty one,
/// the lookup fails with status 500 and the forecast service is not asked.
pub proof fn law_no_candidates_fails(
    city: Option<Seq<char>>,
    country: Option<Seq<char>>,
    status: u16,
    found: Option<Seq<Place>>,
    forecast: Outcome<WeatherReading>,
)
    requires
        names_city(city),
        found matches Some(places) ==> places.len() == 0,
    ensures
        transition(
            begin(city, country).0,
            EventModel::Geocoded(Outcome::Answered { status, body: Some(found) }),
        ) == failed(),
        reply_of(city, country, Outcome::Answered { status, body: Some(found) }, forecast)
            == ReplyModel::Failed,
        status_of(ReplyModel::Failed) == 500,
{
}

/// Where the forecast service answers with a status that is not a success,
/// the lookup fails with status 500 and the fixed message, though a place was
/// selected and whatever the body holds.
pub proof fn law_forecast_status_fails(
    city: Option<Seq<char>>,
    country: Option<Seq<char>>,
    geocoded: Outcome<Option<Seq<Place>>>,
    status: u16,
    body: Option<WeatherReading>,
)
    requires
        names_city(city),
        candidates_of(geocoded) is Some,
        !is_success(status),
    ensures
        transition(begin(city, country).0, EventModel::Geocoded(geocoded)).0 is Forecasting,
        reply_of(city, country, geocoded, Outcome::Answered { status, body }) == ReplyModel::Failed,
        status_of(ReplyModel::Failed) == 500,
        message_of(ReplyModel::Failed) == Some("Could not get weather data"@),
{
}

/// An answer is only ever about a place that the geocoder returned: its
/// location is the label of one of the candidates, and the forecast service
/// was asked about the coordinates of that same candidate.
pub proof fn law_answer_is_for_a_returned_place(
    city: Option<Seq<char>>,
    country: Option<Seq<char>>,
    geocoded: Outcome<Option<Seq<Place>>>,
    forecast: Outcome<WeatherReading>,
)
    requires
        reply_of(city, country, geocoded, forecast) is Found,
    ensures
        geocoded matches Outcome::Answered { body: Some(Some(places)), .. } && exists|at: int|
            {
                &&& 0 <= at < places.len()
                &&& reply_of(city, country, geocoded, forecast)->Found_0.location == label(
                    #[trigger] places[at],
                )
                &&& transition(begin(city, country).0, EventModel::Geocoded(geocoded)).1
                    == (ActionModel::AskForecast { url: forecast_query(places[at]) })
            },
{
    let places = candidates_of(geocoded)->0;
    let at = selected(places, country);
    match country {
        Some(wanted) => {
            law_selection_first_match_else_first(places, wanted);
        },
        None => {},
    }
    assert(0 <= at < places.len());
}

/// A lookup makes two upstream calls at the most, the geocoder's first and
/// each only once: it starts by asking the geocoder or not at all, an event
/// while geocoding leads to the forecast query or ends the lookup, and an
/// event while forecasting ends it. A stage is `Done` exactly where the
/// action beside it is `Finish`.
pub proof fn law_calls_in_turn_and_never_again(
    city: Option<Seq<char>>,
    country: Option<Seq<char>>,
    stage: StageModel,
    event: EventModel,
)
    ensures
        begin(city, country).0 is Geocoding <==> begin(city, country).1 is AskGeocoder,
        begin(city, country).0 is Done <==> begin(city, country).1 is Finish,
        !(begin(city, country).1 is AskForecast),
        !(transition(stage, event).1 is AskGeocoder),
        transition(stage, event).0 is Forecasting <==> transition(stage, event).1 is AskForecast,
        transition(stage, event).0 is Done <==> transition(stage, event).1 is Finish,
        transition(stage, event).1 is AskForecast ==> stage is Geocoding,
{
}

} // verus!
