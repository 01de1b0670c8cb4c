//! The geocoding stage: the query sent for a city, the places that come back,
//! and the rule that picks one of them.

use vstd::prelude::*;
use crate::text::{contains_chars, contains_ignoring_case, fold_case, lowercase_of};

verus! {

/// One place that the geocoder offers for a city name. The coordinates are
/// held as the decimal text that goes into the forecast query; the library
/// never computes with them.
#[derive(Debug, PartialEq, Eq)]
pub struct GeoCandidate {
    pub latitude: String,
    pub longitude: String,
    pub display_name: String,
    pub country: String,
}

/// What a [`GeoCandidate`] holds, as sequences of characters.
pub ghost struct Place {
    pub latitude: Seq<char>,
    pub longitude: Seq<char>,
    pub display_name: Seq<char>,
    pub country: Seq<char>,
}

impl View for GeoCandidate {
    type V = Place;

    open spec fn view(&self) -> Place {
        Place {
            latitude: self.latitude@,
            longitude: self.longitude@,
            display_name: self.display_name@,
            country: self.country@,
        }
    }
}

impl Clone for GeoCandidate {
    fn clone(&self) -> (out: Self)
        ensures
            out == *self,
    {
        GeoCandidate {
            latitude: self.latitude.clone(),
            longitude: self.longitude.clone(),
            display_name: self.display_name.clone(),
            country: self.country.clone(),
        }
    }
}

impl DeepView for GeoCandidate {
    type V = Place;

    open spec fn deep_view(&self) -> Place {
        self.view()
    }
}

/// The candidates in the order the geocoder gave them, which is taken to be
/// by relevance. `None` where the answer carried no list at all.
pub type GeoResult = Option<Vec<GeoCandidate>>;

/// A lookup request as it arrives: the city to look up, which is not empty,
/// and an optional country, a code or a fragment of a name, to prefer among
/// the places that bear the city's name.
#[derive(Debug, PartialEq, Eq)]
pub struct WeatherRequest {
    pub city: String,
    pub country: Option<String>,
}

impl WeatherRequest {
    /// The city is not empty.
    pub open spec fn well_formed(&self) -> bool {
        self.city@.len() > 0
    }

    /// Makes a request of the two query parameters. There is none where the
    /// city is missing or empty.
    pub fn from_query(city: Option<String>, country: Option<String>) -> (out: Option<Self>)
        ensures
            out is Some <==> names_city(city.deep_view()),
            out matches Some(request) ==> {
                &&& request.well_formed()
                &&& Some(request.city) == city
                &&& request.country == country
            },
    {
        match city {
            Some(name) => {
                if name.as_str().is_empty() {
                    None
                } else {
                    Some(WeatherRequest { city: name, country })
                }
            },
            None => None,
        }
    }
}

/// The `city` parameter is there and not empty.
pub open spec fn names_city(city: Option<Seq<char>>) -> bool {
    city matches Some(name) && name.len() > 0
}

/// The address of the geocoding query for `city`, with the country appended
/// where the request names one. Both are written as they came.
pub open spec fn geocode_query(city: Seq<char>, country: Option<Seq<char>>) -> Seq<char> {
    let base = "https://geocoding-api.open-meteo.com/v1/search?name="@ + city;
    match country {
        Some(code) => base + "&country="@ + code,
        None => base,
    }
}

/// Builds the address of the geocoding query for a request.
pub fn geocode_url(request: &WeatherRequest) -> (url: String)
    ensures
        url@ == geocode_query(request.city@, request.country.deep_view()),
{
    let mut url = String::from_str("https://geocoding-api.open-meteo.com/v1/search?name=");
    url.append(request.city.as_str());
    match &request.country {
        Some(code) => {
            url.append("&country=");
            url.append(code.as_str());
        },
        None => {},
    }
    url
}

/// The place lies in a country that `wanted` names: its country contains
/// `wanted` when case is ignored.
pub open spec fn lies_in(place: Place, wanted: Seq<char>) -> bool {
    contains_ignoring_case(place.country, wanted)
}

/// `at` is the position of the earliest place that lies in `wanted`.
pub open spec fn is_first_match(places: Seq<Place>, wanted: Seq<char>, at: int) -> bool {
    &&& 0 <= at < places.len()
    &&& lies_in(places[at], wanted)
    &&& forall|k: int| 0 <= k < at ==> !lies_in(#[trigger] places[k], wanted)
}

/// Some place lies in `wanted`.
pub open spec fn has_match(places: Seq<Place>, wanted: Seq<char>) -> bool {
    exists|k: int| 0 <= k < places.len() && lies_in(#[trigger] places[k], wanted)
}

/// The position that the selection rule picks in a non-empty list: with a
/// filter, the earliest place that matches it; with no filter, or where no
/// place matches, the first place.
pub open spec fn selected(places: Seq<Place>, filter: Option<Seq<char>>) -> int {
    match filter {
        Some(wanted) => if has_match(places, wanted) {
            choose|at: int| is_first_match(places, wanted, at)
        } else {
            0
        },
        None => 0,
    }
}

/// Two positions that are both the first match are the same position.
pub proof fn lemma_first_match_unique(places: Seq<Place>, wanted: Seq<char>, a: int, b: int)
    requires
        is_first_match(places, wanted, a),
        is_first_match(places, wanted, b),
    ensures
        a == b,
{
    if a < b {
        assert(!lies_in(places[a], wanted));
    } else if b < a {
        assert(!lies_in(places[b], wanted));
    }
}

/// Where the place at position `upto` matches, some position is the first
/// match.
proof fn lemma_first_match_exists(places: Seq<Place>, wanted: Seq<char>, upto: int)
    requires
        0 <= upto < places.len(),
        lies_in(places[upto], wanted),
    ensures
        exists|at: int| is_first_match(places, wanted, at),
    decreases upto,
{
    if exists|k: int| 0 <= k < upto && lies_in(#[trigger] places[k], wanted) {
        let earlier = choose|k: int| 0 <= k < upto && lies_in(#[trigger] places[k], wanted);
        lemma_first_match_exists(places, wanted, earlier);
    } else {
        assert(is_first_match(places, wanted, upto));
    }
}

/// The selection rule: for a non-empty list and a filter, the selected
/// position is the earliest place whose country contains the filter when case
/// is ignored, and the first place where none does. The position depends on
/// the list and the filter alone.
pub proof fn law_selection_first_match_else_first(places: Seq<Place>, wanted: Seq<char>)
    requires
        places.len() > 0,
    ensures
        0 <= selected(places, Some(wanted)) < places.len(),
        has_match(places, wanted) ==> is_first_match(
            places,
            wanted,
            selected(places, Some(wanted)),
        ),
        !has_match(places, wanted) ==> selected(places, Some(wanted)) == 0,
{
    if has_match(places, wanted) {
        let some = choose|k: int| 0 <= k < places.len() && lies_in(#[trigger] places[k], wanted);
        lemma_first_match_exists(places, wanted, some);
    }
}

/// With no filter the first place of a non-empty list is selected.
pub proof fn law_no_filter_selects_first(places: Seq<Place>)
    requires
        places.len() > 0,
    ensures
        selected(places, None) == 0,
{
}

/// Picks a candidate by the selection rule and returns its position; `None`
/// exactly where there is no candidate.
pub fn select_index(
    candidates: &Vec<GeoCandidate>,
    country: &Option<String>,
) -> (out: Option<usize>)
    ensures
        out is None <==> candidates@.len() == 0,
        out matches Some(at) ==> {
            &&& at < candidates@.len()
            &&& at as int == selected(candidates.deep_view(), country.deep_view())
        },
{
    if candidates.len() == 0 {
        return None;
    }
    match country {
        None => Some(0),
        Some(filter) => {
            let ghost places = candidates.deep_view();
            let needle = fold_case(filter.as_str());
            let mut at: usize = 0;
            while at < candidates.len()
                invariant
                    places == candidates.deep_view(),
                    country.deep_view() == Some(filter@),
                    needle@ == lowercase_of(filter@),
                    at <= candidates.len(),
                    forall|k: int| 0 <= k < at ==> !lies_in(#[trigger] places[k], filter@),
                decreases candidates.len() - at,
            {
                let hay = fold_case(candidates[at].country.as_str());
                assert(places[at as int].country == candidates@[at as int].country@);
                if contains_chars(&hay, &needle) {
                    proof {
                        let rule = selected(places, Some(filter@));
                        assert(is_first_match(places, filter@, at as int));
                        lemma_first_match_unique(places, filter@, at as int, rule);
                    }
                    return Some(at);
                }
                at += 1;
            }
            Some(0)
        },
    }
}

} // verus!
