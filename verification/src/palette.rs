//! Assignment of colours to cells by their attribute: each attribute gets
//! the next colour of a palette when it is first seen, and the palette
//! starts over when it is used up.

use crate::constants::NCOLOR;
use std::collections::HashMap;
use vstd::prelude::*;

verus! {

broadcast use vstd::std_specs::hash::group_hash_axioms;

/// The number of different attributes among the first `n` cells.
pub open spec fn distinct_count(attributes: Seq<usize>, n: nat) -> nat
    decreases n,
{
    if n == 0 {
        0
    } else if ranks(attributes, (n - 1) as nat).contains_key(attributes[n - 1]) {
        distinct_count(attributes, (n - 1) as nat)
    } else {
        distinct_count(attributes, (n - 1) as nat) + 1
    }
}

/// For each attribute among the first `n` cells, how many different
/// attributes were seen before it.
pub open spec fn ranks(attributes: Seq<usize>, n: nat) -> Map<usize, usize>
    decreases n,
{
    if n == 0 {
        Map::empty()
    } else if ranks(attributes, (n - 1) as nat).contains_key(attributes[n - 1]) {
        ranks(attributes, (n - 1) as nat)
    } else {
        ranks(attributes, (n - 1) as nat).insert(
            attributes[n - 1],
            distinct_count(attributes, (n - 1) as nat) as usize,
        )
    }
}

/// The colour of cell `i`, as an index into a palette.
pub open spec fn color_index(attributes: Seq<usize>, i: int) -> usize {
    (ranks(attributes, (i + 1) as nat)[attributes[i]] % NCOLOR) as usize
}

/// There are no more different attributes than cells.
pub proof fn lemma_distinct_count_bound(attributes: Seq<usize>, n: nat)
    ensures
        distinct_count(attributes, n) <= n,
    decreases n,
{
    if n > 0 {
        lemma_distinct_count_bound(attributes, (n - 1) as nat);
    }
}

/// An attribute keeps the rank that it got when it was first seen.
pub proof fn lemma_rank_stays(attributes: Seq<usize>, n: nat, m: nat, attribute: usize)
    requires
        n <= m,
        ranks(attributes, n).contains_key(attribute),
    ensures
        ranks(attributes, m).contains_key(attribute),
        ranks(attributes, m)[attribute] == ranks(attributes, n)[attribute],
    decreases m - n,
{
    if n < m {
        lemma_rank_stays(attributes, n, (m - 1) as nat, attribute);
    }
}

/// Cells with the same attribute get the same colour.
pub proof fn lemma_same_attribute_same_color(attributes: Seq<usize>, i: int, j: int)
    requires
        0 <= i <= j < attributes.len(),
        attributes[i] == attributes[j],
    ensures
        color_index(attributes, i) == color_index(attributes, j),
{
    lemma_rank_stays(attributes, (i + 1) as nat, (j + 1) as nat, attributes[i]);
}

/// An attribute that no earlier cell has gets the colour that follows the
/// colours given so far, and the first colour again after the last.
pub proof fn lemma_new_attribute_next_color(attributes: Seq<usize>, i: int)
    requires
        0 <= i < attributes.len() <= usize::MAX,
        forall|k: int| 0 <= k < i ==> attributes[k] != attributes[i],
    ensures
        color_index(attributes, i) == distinct_count(attributes, i as nat) % (NCOLOR as nat),
        i == 0 ==> color_index(attributes, i) == 0,
{
    lemma_ranks_hold_the_seen(attributes, i as nat);
    lemma_distinct_count_bound(attributes, i as nat);
    let before = ranks(attributes, i as nat);
    assert(!before.contains_key(attributes[i]));
    assert(ranks(attributes, (i + 1) as nat) == before.insert(
        attributes[i],
        distinct_count(attributes, i as nat) as usize,
    ));
}

/// The attributes that have a rank after `n` cells are those of the first
/// `n` cells.
pub proof fn lemma_ranks_hold_the_seen(attributes: Seq<usize>, n: nat)
    requires
        n <= attributes.len(),
    ensures
        forall|a: usize|
            ranks(attributes, n).contains_key(a) <==> exists|k: int|
                0 <= k < n && #[trigger] attributes[k] == a,
    decreases n,
{
    if n > 0 {
        lemma_ranks_hold_the_seen(attributes, (n - 1) as nat);
        assert forall|a: usize| ranks(attributes, n).contains_key(a) implies exists|k: int|
            0 <= k < n && #[trigger] attributes[k] == a by {
            if a == attributes[n - 1] {
                assert(attributes[n - 1] == a);
            } else {
                assert(ranks(attributes, (n - 1) as nat).contains_key(a));
                let k = choose|k: int| 0 <= k < n - 1 && #[trigger] attributes[k] == a;
                assert(attributes[k] == a);
            }
        }
        assert forall|a: usize| (exists|k: int| 0 <= k < n && #[trigger] attributes[k] == a)
            implies ranks(attributes, n).contains_key(a) by {
            let k = choose|k: int| 0 <= k < n && #[trigger] attributes[k] == a;
            if k < n - 1 {
                assert(attributes[k] == a);
                assert(ranks(attributes, (n - 1) as nat).contains_key(a));
            }
        }
    }
}

/// Returns the colour of each cell, as an index into a palette.
pub fn color_indices(attributes: &Vec<usize>) -> (colors: Vec<usize>)
    ensures
        colors.len() == attributes.len(),
        forall|i: int| 0 <= i < attributes.len() ==> colors[i] == color_index(attributes@, i),
        forall|i: int| 0 <= i < attributes.len() ==> colors[i] < NCOLOR,
{
    let mut colors: Vec<usize> = Vec::new();
    let mut seen: HashMap<usize, usize> = HashMap::new();
    let mut index_color: usize = 0;
    let mut i: usize = 0;
    while i < attributes.len()
        invariant
            i <= attributes.len(),
            colors.len() == i,
            seen@ == ranks(attributes@, i as nat),
            index_color == distinct_count(attributes@, i as nat),
            forall|k: int| 0 <= k < i ==> colors[k] == color_index(attributes@, k),
            forall|k: int| 0 <= k < i ==> colors[k] < NCOLOR,
        decreases attributes.len() - i,
    {
        let attribute = attributes[i];
        proof {
            lemma_distinct_count_bound(attributes@, i as nat);
        }
        let rank = match seen.get(&attribute) {
            Some(r) => *r,
            None => {
                let r = index_color;
                seen.insert(attribute, r);
                index_color += 1;
                r
            },
        };
        colors.push(rank % NCOLOR);
        i += 1;
    }
    colors
}

} // verus!
