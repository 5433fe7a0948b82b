//! Address-list parameter shaping: a tag lookup takes a comma-separated
//! list of addresses and considers at most the first twenty of them.

use vstd::prelude::*;

verus! {

/// At most this many addresses are taken from one request.
pub const MAX_ADDRESSES: usize = 20;

/// The comma-split of what follows `current`: each comma ends a segment,
/// and the end of input ends the last one, so the result is never empty.
pub open spec fn split_from(s: Seq<char>, current: Seq<char>) -> Seq<Seq<char>>
    decreases s.len(),
{
    if s.len() == 0 {
        seq![current]
    } else if s[0] == ',' {
        seq![current] + split_from(s.drop_first(), seq![])
    } else {
        split_from(s.drop_first(), current.push(s[0]))
    }
}

/// The comma-split of a string: what `,` separates, in order, with empty
/// segments kept.
pub open spec fn spec_split_commas(s: Seq<char>) -> Seq<Seq<char>> {
    split_from(s, seq![])
}

/// A sequence capped at the address limit.
pub open spec fn capped(segments: Seq<Seq<char>>) -> Seq<Seq<char>> {
    if segments.len() <= MAX_ADDRESSES {
        segments
    } else {
        segments.subrange(0, MAX_ADDRESSES as int)
    }
}

/// The texts of a vector of strings.
pub open spec fn strings_view(s: Seq<String>) -> Seq<Seq<char>> {
    s.map_values(|t: String| t@)
}

/// Split a comma-separated address list and keep at most the first twenty
/// entries, exactly as the tag lookup uses them.
pub fn split_addresses(s: &str) -> (r: Vec<String>)
    ensures
        strings_view(r@) == capped(spec_split_commas(s@)),
        r@.len() <= MAX_ADDRESSES,
{
    let n = s.unicode_len();
    let mut r: Vec<String> = Vec::new();
    let mut start: usize = 0;
    let mut i: usize = 0;
    proof {
        assert(s@.subrange(0, n as int) =~= s@);
        assert(s@.subrange(0, 0) =~= Seq::<char>::empty());
        assert(strings_view(r@) + split_from(s@, seq![]) =~= split_from(s@, seq![]));
    }
    while i < n
        invariant
            n == s@.len(),
            0 <= start <= i <= n,
            spec_split_commas(s@) == strings_view(r@) + split_from(
                s@.subrange(i as int, n as int),
                s@.subrange(start as int, i as int),
            ),
        decreases n - i,
    {
        let c = s.get_char(i);
        if c == ',' {
            let segment = s.substring_char(start, i).to_owned();
            proof {
                assert(s@.subrange(i as int, n as int)[0] == ',');
                assert(s@.subrange(i as int, n as int).drop_first() =~= s@.subrange(
                    i as int + 1,
                    n as int,
                ));
                assert(s@.subrange(i as int + 1, i as int + 1) =~= Seq::<char>::empty());
                assert(strings_view(r@.push(segment)) =~= strings_view(r@) + seq![segment@]);
            }
            r.push(segment);
            start = i + 1;
        } else {
            proof {
                assert(s@.subrange(i as int, n as int)[0] == s@[i as int]);
                assert(s@.subrange(i as int, n as int).drop_first() =~= s@.subrange(
                    i as int + 1,
                    n as int,
                ));
                assert(s@.subrange(start as int, i as int).push(s@[i as int]) =~= s@.subrange(
                    start as int,
                    i as int + 1,
                ));
            }
        }
        i = i + 1;
    }
    let segment = s.substring_char(start, n).to_owned();
    proof {
        assert(s@.subrange(n as int, n as int).len() == 0);
        assert(strings_view(r@.push(segment)) =~= strings_view(r@) + seq![segment@]);
    }
    r.push(segment);
    let ghost full = strings_view(r@);
    r.truncate(MAX_ADDRESSES);
    proof {
        if full.len() > MAX_ADDRESSES {
            assert(strings_view(r@) =~= full.subrange(0, MAX_ADDRESSES as int));
        }
        assert(strings_view(r@) =~= capped(spec_split_commas(s@)));
    }
    r
}

} // verus!
