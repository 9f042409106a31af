use itertools::Itertools;
use vstd::prelude::*;

use crate::channel::ChannelInfo;

verus! {

/// Some element of `s` has exactly the character content `x`.
pub open spec fn contains_str(s: Seq<String>, x: Seq<char>) -> bool {
    exists|i: int| 0 <= i < s.len() && s[i]@ == x
}

/// The subsequence of `s` that keeps the first occurrence of each value,
/// in order, values compared by their character content.
pub open spec fn first_occurrences(s: Seq<String>) -> Seq<String>
    decreases s.len(),
{
    if s.len() == 0 {
        Seq::empty()
    } else {
        let rest = first_occurrences(s.drop_last());
        if contains_str(rest, s.last()@) {
            rest
        } else {
            rest.push(s.last())
        }
    }
}

/// The counterpart identifiers of a channel list, in list order.
pub open spec fn channel_node_ids(s: Seq<ChannelInfo>) -> Seq<String> {
    s.map_values(|c: ChannelInfo| c.node_id)
}

/// Relies on itertools' `unique` iterator adaptor: it filters out elements
/// already produced once (by hash and equality), so it yields the first
/// occurrence of each distinct string, in input order.
#[verifier::external_body]
fn unique_strings(ids: &Vec<String>) -> (r: Vec<String>)
    ensures
        r@ == first_occurrences(ids@),
{
    ids.iter().unique().cloned().collect()
}

/// The counterpart identifiers to hand to the peer-directory query: each
/// channel's counterpart id, without duplicates, keeping first-appearance
/// order.
pub fn node_ids_to_query(channels: &Vec<ChannelInfo>) -> (r: Vec<String>)
    ensures
        r@ == first_occurrences(channel_node_ids(channels@)),
{
    let mut ids: Vec<String> = Vec::new();
    let mut k: usize = 0;
    proof {
        assert(ids@ =~= channel_node_ids(channels@.take(0)));
    }
    while k < channels.len()
        invariant
            0 <= k <= channels@.len(),
            ids@ == channel_node_ids(channels@.take(k as int)),
        decreases channels@.len() - k,
    {
        ids.push(channels[k].node_id.clone());
        proof {
            assert(ids@ =~= channel_node_ids(channels@.take(k as int + 1)));
        }
        k = k + 1;
    }
    proof {
        assert(channels@.take(channels@.len() as int) =~= channels@);
    }
    unique_strings(&ids)
}

} // verus!
