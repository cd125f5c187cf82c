//! The directory-listing policy: keep every entry name that decodes to
//! display text, silently drop the rest, never fail the whole listing.

use vstd::prelude::*;

verus! {

/// The names a listing returns, given each entry's display name where one
/// exists (`None` stands for a name that does not decode to display text):
/// the decodable names, in entry order, the others dropped.
pub open spec fn display_names(entries: Seq<Option<Seq<char>>>) -> Seq<Seq<char>>
    decreases entries.len(),
{
    if entries.len() == 0 {
        Seq::empty()
    } else {
        let rest = display_names(entries.drop_last());
        match entries.last() {
            Some(name) => rest.push(name),
            None => rest,
        }
    }
}

/// Collects the display-decodable entry names of a directory listing,
/// omitting each entry whose name has no display form.
pub fn collect_display_names(entries: &Vec<Option<String>>) -> (r: Vec<String>)
    ensures
        r.deep_view() == display_names(entries.deep_view()),
{
    let ghost all = entries.deep_view();
    let mut r: Vec<String> = Vec::new();
    let mut i: usize = 0;
    while i < entries.len()
        invariant
            i <= entries.len(),
            all == entries.deep_view(),
            r.deep_view() == display_names(all.take(i as int)),
        decreases entries.len() - i,
    {
        proof {
            assert(all.take(i + 1).drop_last() =~= all.take(i as int));
            assert(all.take(i + 1).last() == all[i as int]);
        }
        match &entries[i] {
            Some(name) => {
                r.push(name.clone());
                proof {
                    assert(r.deep_view() =~= display_names(all.take(i + 1)));
                }
            },
            None => {
                proof {
                    assert(r.deep_view() =~= display_names(all.take(i + 1)));
                }
            },
        }
        i = i + 1;
    }
    proof {
        assert(all.take(entries.deep_view().len() as int) =~= all);
    }
    r
}

/// A listing of a directory whose entries all have valid display names
/// returns exactly those names: the same count, in entry order.
pub proof fn lemma_all_names_kept(entries: Seq<Option<Seq<char>>>)
    requires
        forall|i: int| 0 <= i < entries.len() ==> entries[i] is Some,
    ensures
        display_names(entries).len() == entries.len(),
        forall|i: int| 0 <= i < entries.len() ==> display_names(entries)[i] == entries[i]->0,
    decreases entries.len(),
{
    if entries.len() > 0 {
        lemma_all_names_kept(entries.drop_last());
    }
}

/// The kept names are exactly the decodable entries' names: the listing
/// is the subsequence of entries that decode, each reduced to its name.
pub proof fn lemma_names_are_the_decodable_names(entries: Seq<Option<Seq<char>>>)
    ensures
        display_names(entries) == entries.filter(|e: Option<Seq<char>>| e is Some).map_values(
            (|e: Option<Seq<char>>| e->0),
        ),
    decreases entries.len(),
{
    reveal(Seq::filter);
    if entries.len() == 0 {
        assert(entries.filter(|e: Option<Seq<char>>| e is Some).map_values(
            (|e: Option<Seq<char>>| e->0),
        ) =~= Seq::empty());
    } else {
        lemma_names_are_the_decodable_names(entries.drop_last());
        let kept = entries.drop_last().filter(|e: Option<Seq<char>>| e is Some);
        match entries.last() {
            Some(name) => {
                assert(entries.filter(|e: Option<Seq<char>>| e is Some) == kept.push(
                    entries.last(),
                ));
                assert(kept.push(entries.last()).map_values((|e: Option<Seq<char>>| e->0))
                    =~= kept.map_values((|e: Option<Seq<char>>| e->0)).push(name));
            },
            None => {
                assert(entries.filter(|e: Option<Seq<char>>| e is Some) == kept);
            },
        }
    }
}

/// Dropping a non-decodable entry never changes the names kept for the
/// other entries: the listing of `entries` with one `None` appended is the
/// listing of `entries` itself.
pub proof fn lemma_undecodable_dropped(entries: Seq<Option<Seq<char>>>)
    ensures
        display_names(entries.push(None)) == display_names(entries),
{
    assert(entries.push(None).drop_last() =~= entries);
}

} // verus!
