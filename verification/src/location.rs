//! Turning a free-text place query into geocoding inputs and outputs.
//!
//! The query is sanitized into the form the geocoder accepts: characters
//! outside letters, digits, spaces and commas are removed, surrounding
//! spaces are trimmed, and the remaining spaces become `+`.  A list of
//! geocoding results is reduced to a display name and the coordinate
//! pairs, with an empty list reported as a resolution failure rather
//! than crashing.

use vstd::prelude::*;
use vstd::string::StrSliceExecFns;

use crate::error::WeatherError;

verus! {

/// A single geocoding result: a coordinate pair as the decimal texts the
/// geocoder sent, and a display name.
#[derive(Clone, Debug, PartialEq)]
pub struct OSMResponse {
    pub latitude: String,
    pub longitude: String,
    pub name: String,
}

/// One latitude/longitude pair, still as decimal texts.
#[derive(Clone, Debug, PartialEq)]
pub struct Coordinate {
    pub latitude: String,
    pub longitude: String,
}

/// Whether the sanitizer keeps a character: ASCII letters, digits,
/// spaces and commas survive, everything else is removed.
pub open spec fn spec_keep_char(c: char) -> bool {
    ('a' <= c && c <= 'z') || ('A' <= c && c <= 'Z') || ('0' <= c && c <= '9') || c == ' ' || c
        == ','
}

/// `s` without its leading spaces.
pub open spec fn spec_trim_front(s: Seq<char>) -> Seq<char>
    decreases s.len(),
{
    if s.len() > 0 && s[0] == ' ' {
        spec_trim_front(s.drop_first())
    } else {
        s
    }
}

/// `s` without its trailing spaces.
pub open spec fn spec_trim_back(s: Seq<char>) -> Seq<char>
    decreases s.len(),
{
    if s.len() > 0 && s.last() == ' ' {
        spec_trim_back(s.drop_last())
    } else {
        s
    }
}

/// `s` with every space turned into a `+`.
pub open spec fn spec_plus_spaces(s: Seq<char>) -> Seq<char> {
    s.map_values(
        |c: char|
            if c == ' ' {
                '+'
            } else {
                c
            },
    )
}

/// What sanitizing a query yields: keep letters, digits, spaces and
/// commas, trim surrounding spaces, then join words with `+`.
pub open spec fn spec_sanitize(s: Seq<char>) -> Seq<char> {
    spec_plus_spaces(spec_trim_back(spec_trim_front(s.filter(|c: char| spec_keep_char(c)))))
}

/// Trimming the front skips exactly the leading spaces: if everything
/// before `a` is a space and `a` is not (or is the end), the trim is the
/// tail from `a`.
proof fn lemma_trim_front_range(s: Seq<char>, a: int)
    requires
        0 <= a <= s.len(),
        forall|k: int| 0 <= k < a ==> s[k] == ' ',
        a < s.len() ==> s[a] != ' ',
    ensures
        spec_trim_front(s) == s.subrange(a, s.len() as int),
    decreases a,
{
    if a == 0 {
        assert(s.subrange(0, s.len() as int) =~= s);
    } else {
        lemma_trim_front_range(s.drop_first(), a - 1);
        assert(s.drop_first().subrange(a - 1, s.drop_first().len() as int) =~= s.subrange(
            a,
            s.len() as int,
        ));
    }
}

/// Trimming the back drops exactly the trailing spaces: on the slice
/// from `a` to `m`, if everything from `b` on is a space and `b - 1` is
/// not (or the slice is empty there), the trim is the slice to `b`.
proof fn lemma_trim_back_range(s: Seq<char>, a: int, b: int, m: int)
    requires
        0 <= a <= b <= m <= s.len(),
        forall|k: int| b <= k < m ==> s[k] == ' ',
        b > a ==> s[b - 1] != ' ',
    ensures
        spec_trim_back(s.subrange(a, m)) == s.subrange(a, b),
    decreases m - b,
{
    if m == b {
        if b == a {
        } else {
            assert(s.subrange(a, m).last() == s[b - 1]);
        }
    } else {
        assert(s.subrange(a, m).last() == s[m - 1]);
        assert(s.subrange(a, m).drop_last() =~= s.subrange(a, m - 1));
        lemma_trim_back_range(s, a, b, m - 1);
    }
}

/// Tests whether the sanitizer keeps a character.
pub fn keep_char(c: char) -> (b: bool)
    ensures
        b == spec_keep_char(c),
{
    ('a' <= c && c <= 'z') || ('A' <= c && c <= 'Z') || ('0' <= c && c <= '9') || c == ' ' || c
        == ','
}

/// Relies on String::from_iter: builds the string that holds exactly
/// the given characters in order.
#[verifier::external_body]
fn chars_to_string(v: Vec<char>) -> (s: String)
    ensures
        s@ == v@,
{
    String::from_iter(v)
}

/// Sanitizes a search query so it is URL-safe and fit for the geocoder:
/// keeps letters, digits, spaces and commas, trims surrounding spaces,
/// and joins the words with `+`.
pub fn sanitize_input(input: &str) -> (r: String)
    ensures
        r@ == spec_sanitize(input@),
{
    let len = input.unicode_len();
    let mut kept: Vec<char> = Vec::new();
    let mut i: usize = 0;
    while i < len
        invariant
            i <= len,
            len == input@.len(),
            kept@ == input@.subrange(0, i as int).filter(|c: char| spec_keep_char(c)),
        decreases len - i,
    {
        let c = input.get_char(i);
        proof {
            reveal(Seq::filter);
            assert(input@.subrange(0, i + 1).drop_last() =~= input@.subrange(0, i as int));
            assert(input@.subrange(0, i + 1).last() == input@[i as int]);
        }
        if keep_char(c) {
            kept.push(c);
        }
        i = i + 1;
    }
    proof {
        assert(input@.subrange(0, len as int) =~= input@);
    }
    let klen = kept.len();
    let mut a: usize = 0;
    while a < klen && kept[a] == ' '
        invariant
            a <= klen,
            klen == kept@.len(),
            forall|k: int| 0 <= k < a ==> kept@[k] == ' ',
        decreases klen - a,
    {
        a = a + 1;
    }
    let mut b: usize = klen;
    while b > a && kept[b - 1] == ' '
        invariant
            a <= b <= klen,
            klen == kept@.len(),
            forall|k: int| b <= k < klen ==> kept@[k] == ' ',
        decreases b,
    {
        b = b - 1;
    }
    proof {
        lemma_trim_front_range(kept@, a as int);
        lemma_trim_back_range(kept@, a as int, b as int, klen as int);
    }
    let mut out: Vec<char> = Vec::new();
    let mut j: usize = a;
    while j < b
        invariant
            a <= j <= b <= klen,
            klen == kept@.len(),
            out@.len() == j - a,
            forall|k: int|
                0 <= k < j - a ==> out@[k] == (if kept@[a + k] == ' ' {
                    '+'
                } else {
                    kept@[a + k]
                }),
        decreases b - j,
    {
        let c = kept[j];
        if c == ' ' {
            out.push('+');
        } else {
            out.push(c);
        }
        j = j + 1;
    }
    proof {
        assert(out@ =~= spec_plus_spaces(kept@.subrange(a as int, b as int)));
    }
    chars_to_string(out)
}

/// Reduces a list of geocoding results to the display name of the first
/// and all coordinate pairs, in order.  An empty list is a resolution
/// failure: the query named no place.
pub fn resolve_results(results: &Vec<OSMResponse>) -> (r: Result<
    (String, Vec<Coordinate>),
    WeatherError,
>)
    ensures
        match r {
            Ok(p) => {
                &&& results@.len() > 0
                &&& p.0 == results@[0].name
                &&& p.1@.len() == results@.len()
                &&& forall|i: int|
                    0 <= i < results@.len() ==> (#[trigger] p.1@[i]).latitude == results@[i].latitude
                        && p.1@[i].longitude == results@[i].longitude
            },
            Err(e) => e == WeatherError::ResolutionFailure && results@.len() == 0,
        },
{
    if results.len() == 0 {
        return Err(WeatherError::ResolutionFailure);
    }
    let n = results.len();
    let mut coords: Vec<Coordinate> = Vec::new();
    let mut i: usize = 0;
    while i < n
        invariant
            i <= n,
            n == results@.len(),
            coords@.len() == i,
            forall|k: int|
                0 <= k < i ==> (#[trigger] coords@[k]).latitude == results@[k].latitude
                    && coords@[k].longitude == results@[k].longitude,
        decreases n - i,
    {
        let c = Coordinate {
            latitude: results[i].latitude.clone(),
            longitude: results[i].longitude.clone(),
        };
        coords.push(c);
        i = i + 1;
    }
    Ok((results[0].name.clone(), coords))
}

/// Picks the coordinate pair a forecast fetch will use: the first one.
/// An empty list is a resolution failure.
pub fn select_coordinate(coords: &Vec<Coordinate>) -> (r: Result<Coordinate, WeatherError>)
    ensures
        match r {
            Ok(c) => coords@.len() > 0 && c.latitude == coords@[0].latitude && c.longitude
                == coords@[0].longitude,
            Err(e) => e == WeatherError::ResolutionFailure && coords@.len() == 0,
        },
{
    if coords.len() == 0 {
        return Err(WeatherError::ResolutionFailure);
    }
    Ok(
        Coordinate {
            latitude: coords[0].latitude.clone(),
            longitude: coords[0].longitude.clone(),
        },
    )
}

} // verus!
