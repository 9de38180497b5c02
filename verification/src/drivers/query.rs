use vstd::prelude::*;

use crate::text::{parse_u32_str, spec_parse_u32_str, str_eq};
use super::Direction;

verus! {

/// The value of the last pair with this key, as collecting the pairs into a map keeps it.
pub open spec fn last_value(q: Seq<(Seq<char>, Seq<char>)>, key: Seq<char>) -> Option<Seq<char>>
    decreases q.len(),
{
    if q.len() == 0 {
        None
    } else if q.last().0 == key {
        Some(q.last().1)
    } else {
        last_value(q.drop_last(), key)
    }
}

/// The value of the last pair with this key.
pub fn query_last_value(pairs: &Vec<(String, String)>, key: &str) -> (r: Option<String>)
    ensures
        match r {
            Some(v) => last_value(pairs@.map_values(|p: (String, String)| (p.0@, p.1@)), key@) == Some(v@),
            None => last_value(pairs@.map_values(|p: (String, String)| (p.0@, p.1@)), key@) is None,
        },
{
    let ghost q = pairs@.map_values(|p: (String, String)| (p.0@, p.1@));
    let mut i = pairs.len();
    assert(q.subrange(0, i as int) =~= q);
    while i > 0
        invariant
            0 <= i <= pairs@.len(),
            q == pairs@.map_values(|p: (String, String)| (p.0@, p.1@)),
            last_value(q, key@) == last_value(q.subrange(0, i as int), key@),
        decreases i,
    {
        assert(q.subrange(0, i as int).drop_last() =~= q.subrange(0, i - 1));
        if str_eq(pairs[i - 1].0.as_str(), key) {
            return Some(pairs[i - 1].1.clone());
        }
        i = i - 1;
    }
    None
}

/// The direction that the first `direction` pair with a valid value gives.
pub open spec fn first_direction(q: Seq<(Seq<char>, Seq<char>)>) -> Option<Direction>
    decreases q.len(),
{
    if q.len() == 0 {
        None
    } else if q[0].0 == "direction"@ && Direction::spec_parse(q[0].1) is Some {
        Direction::spec_parse(q[0].1)
    } else {
        first_direction(q.skip(1))
    }
}

/// The direction that the first `direction` pair with a valid value gives.
pub fn query_direction(pairs: &Vec<(String, String)>) -> (r: Option<Direction>)
    ensures
        r == first_direction(pairs@.map_values(|p: (String, String)| (p.0@, p.1@))),
{
    let ghost q = pairs@.map_values(|p: (String, String)| (p.0@, p.1@));
    let mut i: usize = 0;
    assert(q.skip(0) =~= q);
    while i < pairs.len()
        invariant
            0 <= i <= pairs@.len(),
            q == pairs@.map_values(|p: (String, String)| (p.0@, p.1@)),
            first_direction(q) == first_direction(q.skip(i as int)),
        decreases pairs@.len() - i,
    {
        assert(q.skip(i as int).skip(1) =~= q.skip(i + 1));
        assert(q.skip(i as int)[0] == q[i as int]);
        if str_eq(pairs[i].0.as_str(), "direction") {
            match Direction::parse(pairs[i].1.as_str()) {
                Some(d) => return Some(d),
                None => {},
            }
        }
        i = i + 1;
    }
    None
}

/// The baud rate that the first `baudrate` or `arg2` pair with a valid value gives.
pub open spec fn first_baud_rate(q: Seq<(Seq<char>, Seq<char>)>) -> Option<u32>
    decreases q.len(),
{
    if q.len() == 0 {
        None
    } else if (q[0].0 == "baudrate"@ || q[0].0 == "arg2"@) && spec_parse_u32_str(q[0].1) is Some {
        spec_parse_u32_str(q[0].1)
    } else {
        first_baud_rate(q.skip(1))
    }
}

/// The baud rate that the first `baudrate` or `arg2` pair with a valid value gives.
pub fn query_baud_rate(pairs: &Vec<(String, String)>) -> (r: Option<u32>)
    ensures
        r == first_baud_rate(pairs@.map_values(|p: (String, String)| (p.0@, p.1@))),
{
    let ghost q = pairs@.map_values(|p: (String, String)| (p.0@, p.1@));
    let mut i: usize = 0;
    assert(q.skip(0) =~= q);
    while i < pairs.len()
        invariant
            0 <= i <= pairs@.len(),
            q == pairs@.map_values(|p: (String, String)| (p.0@, p.1@)),
            first_baud_rate(q) == first_baud_rate(q.skip(i as int)),
        decreases pairs@.len() - i,
    {
        assert(q.skip(i as int).skip(1) =~= q.skip(i + 1));
        assert(q.skip(i as int)[0] == q[i as int]);
        let key = pairs[i].0.as_str();
        if str_eq(key, "baudrate") || str_eq(key, "arg2") {
            match parse_u32_str(pairs[i].1.as_str()) {
                Some(b) => return Some(b),
                None => {},
            }
        }
        i = i + 1;
    }
    None
}

} // verus!
