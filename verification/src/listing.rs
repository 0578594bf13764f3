//! Directory listings: what a host yields for each entry of a directory, and
//! the names that a listing returns.

use vstd::prelude::*;

verus! {

/// One entry of a directory, as the host yields it.
#[derive(Clone, Debug, PartialEq, Eq)]
pub enum DirEntry {
    /// An entry whose name is valid text.
    Named(String),
    /// An entry whose name cannot be written as text.
    NonText,
    /// An entry that the host could not read.
    Unreadable,
}

/// The mathematical value of a [`DirEntry`].
pub enum EntryView {
    Named(Seq<char>),
    NonText,
    Unreadable,
}

impl View for DirEntry {
    type V = EntryView;

    open spec fn view(&self) -> EntryView {
        match self {
            DirEntry::Named(name) => EntryView::Named(name@),
            DirEntry::NonText => EntryView::NonText,
            DirEntry::Unreadable => EntryView::Unreadable,
        }
    }
}

/// The entries of a listing as mathematical values, in the same order.
pub open spec fn entry_views(entries: Seq<DirEntry>) -> Seq<EntryView> {
    entries.map_values(|entry: DirEntry| entry@)
}

/// A list of names as mathematical values, in the same order.
pub open spec fn texts(names: Seq<String>) -> Seq<Seq<char>> {
    names.map_values(|name: String| name@)
}

/// The name that an entry adds to a listing, if it adds one.
pub open spec fn listed_name(entry: EntryView) -> Option<Seq<char>> {
    match entry {
        EntryView::Named(name) => Some(name),
        EntryView::NonText => None,
        EntryView::Unreadable => None,
    }
}

/// The names that a listing returns: those of the entries that have a name in
/// text, in the order in which the host yielded the entries. The other entries
/// leave no trace.
pub open spec fn listed_names(entries: Seq<EntryView>) -> Seq<Seq<char>> {
    entries.filter_map(|entry: EntryView| listed_name(entry))
}

/// The names of `entries`, as [`listed_names`] defines them.
pub fn collect_names(entries: &Vec<DirEntry>) -> (names: Vec<String>)
    ensures
        texts(names@) == listed_names(entry_views(entries@)),
{
    let ghost views = entry_views(entries@);
    let ghost pick = |entry: EntryView| listed_name(entry);
    let mut names: Vec<String> = Vec::new();
    let mut done: usize = 0;
    assert(texts(names@) =~= views.take(0).filter_map(pick));
    while done < entries.len()
        invariant
            done <= entries.len(),
            views == entry_views(entries@),
            pick == |entry: EntryView| listed_name(entry),
            texts(names@) == views.take(done as int).filter_map(pick),
        decreases entries.len() - done,
    {
        let ghost before = names@;
        match &entries[done] {
            DirEntry::Named(name) => {
                names.push(name.clone());
            },
            DirEntry::NonText => {},
            DirEntry::Unreadable => {},
        }
        proof {
            views.lemma_filter_map_take_succ(pick, done as int);
            if entries@[done as int] is Named {
                assert(texts(names@) =~= texts(before).push(entries@[done as int]->Named_0@));
            }
        }
        done += 1;
    }
    assert(views.take(done as int) =~= views);
    names
}

/// Order is kept: the names of one run of entries followed by another are the
/// names of the first run followed by the names of the second.
pub proof fn lemma_listing_keeps_order(first: Seq<EntryView>, second: Seq<EntryView>)
    ensures
        listed_names(first + second) == listed_names(first) + listed_names(second),
    decreases second.len(),
{
    let pick = |entry: EntryView| listed_name(entry);
    if second.len() == 0 {
        assert(first + second =~= first);
        assert(listed_names(first) + listed_names(second) =~= listed_names(first));
    } else {
        let all = first + second;
        assert(all.drop_last() =~= first + second.drop_last());
        assert(all.last() == second.last());
        lemma_listing_keeps_order(first, second.drop_last());
        assert(all.filter_map(pick) =~= first.filter_map(pick) + second.filter_map(pick));
    }
}

/// A listing returns exactly the names that its entries carry: a name is among
/// the names returned if and only if some entry has it as its name in text.
pub proof fn lemma_listed_iff_named(entries: Seq<EntryView>, name: Seq<char>)
    ensures
        listed_names(entries).contains(name) <==> entries.contains(EntryView::Named(name)),
    decreases entries.len(),
{
    let pick = |entry: EntryView| listed_name(entry);
    if entries.len() > 0 {
        let rest = entries.drop_last();
        let last = entries.last();
        lemma_listed_iff_named(rest, name);
        let names = listed_names(entries);
        let before = listed_names(rest);
        if names.contains(name) {
            let i = choose|i: int| 0 <= i < names.len() && names[i] == name;
            if i < before.len() {
                assert(before[i] == name);
                let j = choose|j: int| 0 <= j < rest.len() && rest[j] == EntryView::Named(name);
                assert(entries[j] == EntryView::Named(name));
            } else {
                assert(last == EntryView::Named(name));
                assert(entries[entries.len() - 1] == last);
            }
        }
        if entries.contains(EntryView::Named(name)) {
            let j = choose|j: int| 0 <= j < entries.len() && entries[j] == EntryView::Named(name);
            if j < rest.len() {
                assert(rest[j] == EntryView::Named(name));
                let i = choose|i: int| 0 <= i < before.len() && before[i] == name;
                assert(names[i] == name);
            } else {
                assert(names[names.len() - 1] == name);
            }
        }
    }
}

/// Where every entry has a name in text, the listing returns one name for each
/// entry, in the entries' order.
pub proof fn lemma_named_entries_are_all_listed(entries: Seq<EntryView>)
    requires
        forall|i: int| 0 <= i < entries.len() ==> entries[i] is Named,
    ensures
        listed_names(entries).len() == entries.len(),
        forall|i: int| 0 <= i < entries.len() ==> listed_names(entries)[i] == entries[i]->Named_0,
    decreases entries.len(),
{
    if entries.len() > 0 {
        assert(entries.last() is Named);
        lemma_named_entries_are_all_listed(entries.drop_last());
    }
}

} // verus!
