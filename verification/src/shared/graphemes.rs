//! Text as the user sees it: in grapheme clusters, not in characters.

use unicode_segmentation::UnicodeSegmentation;
use vstd::prelude::*;
use vstd::string::*;

verus! {

/// The extended grapheme clusters of a text in order, each with the byte
/// offset at which it starts, as `UnicodeSegmentation::grapheme_indices`
/// gives them. The segmentation follows the rules of Unicode and depends on
/// the text alone.
pub uninterp spec fn grapheme_clusters(text: Seq<char>) -> Seq<(int, Seq<char>)>;

/// The values of a list of clusters, in the same order.
pub open spec fn clusters_view(clusters: Seq<(usize, String)>) -> Seq<(int, Seq<char>)> {
    Seq::new(clusters.len(), |i: int| (clusters[i].0 as int, clusters[i].1@))
}

/// Calls `grapheme_indices` of the crate `unicode_segmentation` on the text,
/// for extended clusters, and collects what the iterator yields from front
/// to back, each cluster copied into a string of its own. The contract
/// gives that list a name and claims nothing else of it.
#[verifier::external_body]
pub(crate) fn grapheme_indices(text: &str) -> (clusters: Vec<(usize, String)>)
    ensures
        clusters_view(clusters@) == grapheme_clusters(text@),
{
    let mut clusters = Vec::new();
    for (offset, cluster) in UnicodeSegmentation::grapheme_indices(text, true) {
        clusters.push((offset, cluster.to_string()));
    }
    clusters
}

/// The first of the clusters, if there is one.
pub open spec fn first_cluster(clusters: Seq<(int, Seq<char>)>) -> Option<Seq<char>> {
    if clusters.len() == 0 {
        None
    } else {
        Some(clusters[0].1)
    }
}

/// The last of the clusters, if there is one.
pub open spec fn last_cluster(clusters: Seq<(int, Seq<char>)>) -> Option<Seq<char>> {
    if clusters.len() == 0 {
        None
    } else {
        Some(clusters.last().1)
    }
}

/// The index of the last cluster that starts before the byte offset `head`.
pub open spec fn cluster_before(clusters: Seq<(int, Seq<char>)>, head: int) -> Option<int>
    decreases clusters.len(),
{
    if clusters.len() == 0 {
        None
    } else if clusters.last().0 < head {
        Some(clusters.len() - 1)
    } else {
        cluster_before(clusters.drop_last(), head)
    }
}

/// The text of the clusters without those that start at `offset`.
pub open spec fn text_without(clusters: Seq<(int, Seq<char>)>, offset: int) -> Seq<char>
    decreases clusters.len(),
{
    if clusters.len() == 0 {
        Seq::empty()
    } else {
        let before = text_without(clusters.drop_last(), offset);
        if clusters.last().0 == offset {
            before
        } else {
            before + clusters.last().1
        }
    }
}

/// The text after the trigger has been taken out of it: where the cursor is
/// not at the start and the last cluster that starts before the cursor is
/// the trigger, the text without that cluster. Otherwise nothing is taken
/// out and the result is `None`.
pub open spec fn trigger_removed(
    clusters: Seq<(int, Seq<char>)>,
    head: int,
    trigger: Option<Seq<char>>,
) -> Option<Seq<char>> {
    if head == 0 {
        None
    } else {
        match cluster_before(clusters, head) {
            Some(at) => if trigger == Some(clusters[at].1) {
                Some(text_without(clusters, clusters[at].0))
            } else {
                None
            },
            None => None,
        }
    }
}

/// The value of a cluster that may be missing.
pub open spec fn cluster_view(cluster: Option<String>) -> Option<Seq<char>> {
    match cluster {
        Some(cluster) => Some(cluster@),
        None => None,
    }
}

/// The first of the clusters, if there is one.
pub fn first_of(clusters: &Vec<(usize, String)>) -> (first: Option<String>)
    ensures
        cluster_view(first) == first_cluster(clusters_view(clusters@)),
{
    if clusters.len() == 0 {
        None
    } else {
        Some(clusters[0].1.clone())
    }
}

/// The last of the clusters, if there is one.
pub fn last_of(clusters: &Vec<(usize, String)>) -> (last: Option<String>)
    ensures
        cluster_view(last) == last_cluster(clusters_view(clusters@)),
{
    if clusters.len() == 0 {
        None
    } else {
        Some(clusters[clusters.len() - 1].1.clone())
    }
}

/// Whether two clusters that may be missing are the same.
pub fn same_cluster(a: &Option<String>, b: &Option<String>) -> (same: bool)
    ensures
        same == (cluster_view(*a) == cluster_view(*b)),
{
    match (a, b) {
        (Some(a), Some(b)) => *a == *b,
        (None, None) => true,
        _ => false,
    }
}

/// Takes the trigger out of a text that is given in clusters, see
/// [`trigger_removed`].
pub fn remove_trigger(clusters: &Vec<(usize, String)>, head: usize, trigger: &Option<String>) -> (text:
    Option<String>)
    ensures
        cluster_view(text) == trigger_removed(
            clusters_view(clusters@),
            head as int,
            cluster_view(*trigger),
        ),
{
    if head == 0 {
        return None;
    }
    let ghost all = clusters_view(clusters@);
    let mut at: usize = clusters.len();
    assert(all.take(at as int) =~= all);
    while at > 0 && clusters[at - 1].0 >= head
        invariant
            at <= clusters.len(),
            all == clusters_view(clusters@),
            cluster_before(all, head as int) == cluster_before(all.take(at as int), head as int),
        decreases at,
    {
        assert(all.take(at as int).drop_last() =~= all.take(at as int - 1));
        at = at - 1;
    }
    if at == 0 {
        return None;
    }
    let found = at - 1;
    assert(all.take(at as int).last() == all[found as int]);
    let is_trigger = match trigger {
        Some(trigger) => *trigger == clusters[found].1,
        None => false,
    };
    if !is_trigger {
        return None;
    }
    let offset = clusters[found].0;
    let mut text = String::new();
    let mut i: usize = 0;
    assert(all.take(0) =~= Seq::empty());
    while i < clusters.len()
        invariant
            i <= clusters.len(),
            all == clusters_view(clusters@),
            text@ == text_without(all.take(i as int), offset as int),
        decreases clusters.len() - i,
    {
        assert(all.take(i as int + 1).drop_last() =~= all.take(i as int));
        assert(all.take(i as int + 1).last() == all[i as int]);
        if clusters[i].0 != offset {
            text.append(clusters[i].1.as_str());
        }
        i = i + 1;
    }
    assert(all.take(i as int) =~= all);
    Some(text)
}

} // verus!
