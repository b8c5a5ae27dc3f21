//! Track identifiers: a base-62 string naming a 128-bit track id.
use vstd::prelude::*;
use vstd::string::StringSliceAdditionalSpecFns;

verus! {

/// A parsed track reference.
#[derive(Clone, Copy, Debug, PartialEq, Eq, Structural)]
pub struct TrackId {
    pub id: u128,
}

/// The identifier was not a base-62 number that fits in 128 bits.
#[derive(Clone, Copy, Debug, PartialEq, Eq, Structural)]
pub struct ParseError;

/// The value of one base-62 digit (ASCII `0-9` are 48..=57, `a-z` 97..=122,
/// `A-Z` 65..=90, valued in that order from 0 to 61), or -1
/// for any other byte.
pub open spec fn base62_digit(c: u8) -> int {
    if 48 <= c <= 57 {
        c - 48
    } else if 97 <= c <= 122 {
        c - 97 + 10
    } else if 65 <= c <= 90 {
        c - 65 + 36
    } else {
        -1
    }
}

/// Every byte is a base-62 digit.
pub open spec fn all_base62(s: Seq<u8>) -> bool {
    forall|i: int| 0 <= i < s.len() ==> base62_digit(#[trigger] s[i]) >= 0
}

/// The number that a string of base-62 digits spells, most significant
/// digit first.
pub open spec fn base62_value(s: Seq<u8>) -> int
    decreases s.len(),
{
    if s.len() == 0 {
        0
    } else {
        base62_value(s.drop_last()) * 62 + base62_digit(s.last())
    }
}

/// What parsing an identifier gives: the track whose id the digits spell,
/// or an error when a byte is no digit or the number exceeds 128 bits.
pub open spec fn parse_track_spec(s: Seq<u8>) -> Result<TrackId, ParseError> {
    if all_base62(s) && base62_value(s) <= u128::MAX {
        Ok(TrackId { id: base62_value(s) as u128 })
    } else {
        Err(ParseError)
    }
}

proof fn lemma_value_nonneg(s: Seq<u8>)
    requires
        all_base62(s),
    ensures
        base62_value(s) >= 0,
    decreases s.len(),
{
    if s.len() > 0 {
        lemma_value_nonneg(s.drop_last());
    }
}

/// A prefix of a digit string never spells more than the whole string.
proof fn lemma_prefix_value_le(s: Seq<u8>, j: int)
    requires
        all_base62(s),
        0 <= j <= s.len(),
    ensures
        base62_value(s.take(j)) <= base62_value(s),
    decreases s.len(),
{
    if j < s.len() {
        let f = s.drop_last();
        assert(f.take(j) == s.take(j));
        lemma_prefix_value_le(f, j);
        lemma_value_nonneg(f);
        assert(base62_digit(s[s.len() - 1]) >= 0);
    } else {
        assert(s.take(j) == s);
    }
}

fn digit_of(c: u8) -> (r: Option<u8>)
    ensures
        match r {
            Some(d) => base62_digit(c) == d as int && d < 62,
            None => base62_digit(c) < 0,
        },
{
    if 48 <= c && c <= 57 {
        Some(c - 48)
    } else if 97 <= c && c <= 122 {
        Some(c - 97 + 10)
    } else if 65 <= c && c <= 90 {
        Some(c - 65 + 36)
    } else {
        None
    }
}

/// Parses a base-62 track identifier.
pub fn parse_track_id(track_id: &str) -> (r: Result<TrackId, ParseError>)
    ensures
        r == parse_track_spec(track_id.spec_bytes()),
{
    let b = track_id.as_bytes();
    let ghost s = b@;
    let mut dst: u128 = 0;
    let mut i: usize = 0;
    while i < b.len()
        invariant
            s == b@,
            s == track_id.spec_bytes(),
            i <= s.len(),
            all_base62(s.take(i as int)),
            dst as int == base62_value(s.take(i as int)),
        decreases s.len() - i,
    {
        let c = b[i];
        proof {
            assert(s.take(i as int + 1).drop_last() == s.take(i as int));
            assert(s.take(i as int + 1).last() == c);
        }
        match digit_of(c) {
            None => {
                proof {
                    assert(!all_base62(s)) by {
                        assert(base62_digit(s[i as int]) < 0);
                    }
                }
                return Err(ParseError);
            },
            Some(d) => {
                let next = match dst.checked_mul(62) {
                    Some(m) => m.checked_add(d as u128),
                    None => None,
                };
                match next {
                    None => {
                        proof {
                            if all_base62(s) {
                                lemma_prefix_value_le(s, i as int + 1);
                            }
                                }
                        return Err(ParseError);
                    },
                    Some(n) => {
                        proof {
                            assert forall|k: int| 0 <= k < i as int + 1 implies base62_digit(
                                #[trigger] s.take(i as int + 1)[k],
                            ) >= 0 by {
                                if k < i as int {
                                    assert(s.take(i as int + 1)[k] == s.take(i as int)[k]);
                                }
                            }
                        }
                        dst = n;
                    },
                }
            },
        }
        i = i + 1;
    }
    proof {
        assert(s.take(i as int) == s);
    }
    Ok(TrackId { id: dst })
}

} // verus!
