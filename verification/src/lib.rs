//! The decisions of a weather lookup service. A request names a city and
//! perhaps a country; a geocoder offers places of that name; one of them is
//! selected; a forecast service reports the weather there; the answer names
//! the place and carries the reading.
//!
//! The library makes no call itself. [`lookup`] says what to ask next and what
//! to answer, [`geocode`] holds the request and the selection rule,
//! [`forecast`] the reading and the answer, and [`text`] the search on
//! characters that the selection rule rests on.

pub mod forecast;
pub mod geocode;
pub mod lookup;
pub mod text;
