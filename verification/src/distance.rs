use crate::text::decimal_text;
use geo::Distance;
use vstd::prelude::*;

verus! {

/// Whether the great-circle distance in metres between the point written in
/// the first two coordinate texts and the one written in the next two lies
/// strictly below the buffer written in the fifth text. The distance is a
/// function of the coordinate values alone, so this is a function of the
/// five texts alone within any one build; across platforms the mathematical
/// library behind the trigonometry may differ in the last bit.
pub uninterp spec fn within_buffer(
    lon: Seq<char>,
    lat: Seq<char>,
    near_lon: Seq<char>,
    near_lat: Seq<char>,
    buffer: Seq<char>,
) -> bool;

/// Relies on geo's haversine distance (geo::Haversine through geo::Distance):
/// deterministic in the coordinates, measured in metres, compared strictly
/// against the buffer. Every decimal text parses as a coordinate, so the
/// callers' validation keeps the parses from failing.
#[verifier::external_body]
pub fn haversine_within(
    lon: &str,
    lat: &str,
    near_lon: &str,
    near_lat: &str,
    buffer: &str,
) -> (r: bool)
    requires
        decimal_text(lon@),
        decimal_text(lat@),
        decimal_text(near_lon@),
        decimal_text(near_lat@),
        decimal_text(buffer@),
    ensures
        r == within_buffer(lon@, lat@, near_lon@, near_lat@, buffer@),
{
    match (lon.parse(), lat.parse(), near_lon.parse(), near_lat.parse(), buffer.parse()) {
        (Ok(x), Ok(y), Ok(nx), Ok(ny), Ok(b)) => {
            let here: geo::Point = geo::Point::new(x, y);
            let near: geo::Point = geo::Point::new(nx, ny);
            geo::Haversine.distance(near, here) < b
        },
        _ => false,
    }
}

} // verus!
