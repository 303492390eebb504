//! The addresses of the requests that a lookup sends.

use vstd::prelude::*;

verus! {

/// The elevation provider's address, up to the value of its parameter `points`.
pub const ELEVATION_QUERY: &'static str = "https://elevation-api.io/api/elevation?points=";

/// The geocoding provider's address, up to the value of its parameter `q`.
pub const SEARCH_QUERY: &'static str = "https://nominatim.openstreetmap.org/search?q=";

/// What follows the name in a search: the format of the reply.
pub const SEARCH_FORMAT: &'static str = "&format=json";

/// `String::push` appends one character to the end of the string.
pub assume_specification[ std::string::String::push ](text: &mut std::string::String, c: char)
    ensures
        final(text)@ == old(text)@.push(c),
;

/// The address that asks for the elevation of one point: the two coordinates,
/// in decimal, with a comma between them.
pub open spec fn coords_query(latitude: Seq<char>, longitude: Seq<char>) -> Seq<char> {
    ELEVATION_QUERY@ + latitude + seq![','] + longitude
}

/// One point in a request for several: its coordinates in brackets, and a comma.
pub open spec fn pair_text(latitude: Seq<char>, longitude: Seq<char>) -> Seq<char> {
    seq!['('] + latitude + seq![','] + longitude + seq![')', ',']
}

/// The points of a request for several, one after the other in their order.
pub open spec fn pairs_text(coords: Seq<(Seq<char>, Seq<char>)>) -> Seq<char>
    decreases coords.len(),
{
    if coords.len() == 0 {
        Seq::empty()
    } else {
        pairs_text(coords.drop_last()) + pair_text(coords.last().0, coords.last().1)
    }
}

/// The address that asks for the elevations of several points.
pub open spec fn multiple_coords_query(coords: Seq<(Seq<char>, Seq<char>)>) -> Seq<char> {
    ELEVATION_QUERY@ + pairs_text(coords)
}

/// Points as pairs of sequences of characters, latitude first.
pub open spec fn coords_view(coords: Seq<[String; 2]>) -> Seq<(Seq<char>, Seq<char>)> {
    Seq::new(coords.len(), |i: int| (coords[i][0]@, coords[i][1]@))
}

/// A name as a search carries it: each space becomes a plus sign, and every
/// other character stays.
pub open spec fn plus_for_space(name: Seq<char>) -> Seq<char> {
    name.map_values(|c: char| if c == ' ' { '+' } else { c })
}

/// The address that asks the geocoding provider for the places of that name.
pub open spec fn location_query(name: Seq<char>) -> Seq<char> {
    SEARCH_QUERY@ + plus_for_space(name) + SEARCH_FORMAT@
}

/// The address that asks for the elevation of one point.
pub fn coords_url(latitude: &str, longitude: &str) -> (url: String)
    ensures
        url@ == coords_query(latitude@, longitude@),
{
    let mut url = String::from_str(ELEVATION_QUERY);
    url.append(latitude);
    url.push(',');
    url.append(longitude);
    url
}

/// The address that asks for the elevations of several points.
pub fn multiple_coords_url(coords: &Vec<[String; 2]>) -> (url: String)
    ensures
        url@ == multiple_coords_query(coords_view(coords@)),
{
    let mut url = String::from_str(ELEVATION_QUERY);
    let ghost points = coords_view(coords@);
    let mut i: usize = 0;
    while i < coords.len()
        invariant
            i <= coords.len(),
            points == coords_view(coords@),
            url@ == ELEVATION_QUERY@ + pairs_text(points.take(i as int)),
        decreases coords.len() - i,
    {
        let coord = &coords[i];
        url.push('(');
        url.append(coord[0].as_str());
        url.push(',');
        url.append(coord[1].as_str());
        url.push(')');
        url.push(',');
        assert(points.take(i + 1).drop_last() == points.take(i as int));
        i += 1;
    }
    assert(points.take(coords.len() as int) == points);
    url
}

/// The address that asks the geocoding provider for the places of that name.
pub fn location_url(name: &str) -> (url: String)
    ensures
        url@ == location_query(name@),
{
    let mut url = String::from_str(SEARCH_QUERY);
    let ghost start = url@;
    for c in letters: name.chars()
        invariant
            letters.seq() == name@,
            url@ == start + plus_for_space(name@.take(letters.index())),
    {
        if c == ' ' {
            url.push('+');
        } else {
            url.push(c);
        }
        assert(url@ == start + plus_for_space(name@.take(letters.index() + 1))) by {
            let before = name@.take(letters.index());
            let after = name@.take(letters.index() + 1);
            assert(after == before.push(c));
        }
    }
    url.append(SEARCH_FORMAT);
    url
}

} // verus!
