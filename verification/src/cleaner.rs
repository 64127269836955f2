//! Per-directory cleaning decisions and their event trace.
//!
//! The driver walks one candidate directory's immediate children and asks
//! [`decide_entry`] about each; a removal that succeeds is reported with
//! [`deleted_event`].  [`clean_entries`] is the whole pass over a listing
//! in the case every removal succeeds: it returns the count of removed
//! entries together with exactly one `Deleted` event per removed entry.

use vstd::prelude::*;
use crate::classify::{should_delete_spec, should_delete, file_type_label, file_type_label_spec};
use crate::events::ProgressEvent;

verus! {

/// What kind of filesystem object a directory child is.  `Other` is a
/// child that is neither a plain file nor a directory (for instance a
/// dangling link): it is never removed.
#[derive(Clone, Copy, Debug, PartialEq, Eq, Structural)]
pub enum EntryKind {
    File,
    Directory,
    Other,
}

/// One immediate child of a candidate directory.  `name` is `None` when
/// the on-disk name cannot be read as text.
#[derive(Clone, Debug)]
pub struct DirEntry {
    pub name: Option<String>,
    pub kind: EntryKind,
}

/// The classifier's answer for one entry.  An entry whose name cannot be
/// read is deleted by default, in every context — part of the engine's
/// aggressive default-delete policy.
pub open spec fn entry_matches(dir: Seq<char>, e: DirEntry) -> bool {
    match e.name {
        Option::Some(n) => should_delete_spec(dir, n@),
        Option::None => true,
    }
}

/// An entry is removed when the classifier matches it and it is a plain
/// file or a directory.
pub open spec fn entry_deletable(dir: Seq<char>, e: DirEntry) -> bool {
    entry_matches(dir, e) && e.kind != EntryKind::Other
}

/// How many entries of a listing a clean pass removes when every removal
/// succeeds.
pub open spec fn deletable_count(dir: Seq<char>, entries: Seq<DirEntry>) -> int
    decreases entries.len(),
{
    if entries.len() == 0 {
        0
    } else {
        (if entry_deletable(dir, entries[0]) { 1int } else { 0int })
            + deletable_count(dir, entries.drop_first())
    }
}

/// The entry's name as the path a `Deleted` event reports; empty when the
/// name is unreadable.
pub open spec fn entry_shown_name(e: DirEntry) -> Seq<char> {
    match e.name {
        Option::Some(n) => n@,
        Option::None => Seq::<char>::empty(),
    }
}

/// The label a `Deleted` event carries: removed directories are labelled
/// as such, removed files by their directory's file-type label.
pub open spec fn deleted_label_spec(dir: Seq<char>, is_dir: bool) -> Seq<char> {
    if is_dir {
        "directory"@
    } else {
        file_type_label_spec(dir)
    }
}

/// The `Deleted` event that reports the removal of `e` from `dir`.
pub open spec fn event_for(dir: Seq<char>, e: DirEntry, ev: ProgressEvent) -> bool {
    &&& ev matches ProgressEvent::Deleted(l, p)
    &&& (ev matches ProgressEvent::Deleted(l, p) ==> l@ == deleted_label_spec(
        dir,
        e.kind == EntryKind::Directory,
    ) && p@ == entry_shown_name(e))
}

/// `evs` is exactly one `Deleted` event for each deletable entry of
/// `entries`, in listing order.
pub open spec fn events_match(dir: Seq<char>, entries: Seq<DirEntry>, evs: Seq<ProgressEvent>)
    -> bool
    decreases entries.len(),
{
    if entries.len() == 0 {
        evs.len() == 0
    } else if entry_deletable(dir, entries[0]) {
        &&& evs.len() > 0
        &&& event_for(dir, entries[0], evs[0])
        &&& events_match(dir, entries.drop_first(), evs.drop_first())
    } else {
        events_match(dir, entries.drop_first(), evs)
    }
}

proof fn lemma_events_match_push_del(
    dir: Seq<char>,
    es: Seq<DirEntry>,
    evs: Seq<ProgressEvent>,
    e: DirEntry,
    ev: ProgressEvent,
)
    requires
        events_match(dir, es, evs),
        entry_deletable(dir, e),
        event_for(dir, e, ev),
    ensures
        events_match(dir, es.push(e), evs.push(ev)),
    decreases es.len(),
{
    if es.len() == 0 {
        assert(es.push(e)[0] == e);
        assert(evs.push(ev)[0] == ev);
        assert(es.push(e).drop_first() =~= Seq::<DirEntry>::empty());
        assert(evs.push(ev).drop_first() =~= Seq::<ProgressEvent>::empty());
        assert(events_match(dir, Seq::<DirEntry>::empty(), Seq::<ProgressEvent>::empty()));
    } else {
        assert(es.push(e)[0] == es[0]);
        assert(es.push(e).drop_first() =~= es.drop_first().push(e));
        if entry_deletable(dir, es[0]) {
            assert(evs.push(ev)[0] == evs[0]);
            assert(evs.push(ev).drop_first() =~= evs.drop_first().push(ev));
            lemma_events_match_push_del(dir, es.drop_first(), evs.drop_first(), e, ev);
        } else {
            lemma_events_match_push_del(dir, es.drop_first(), evs, e, ev);
        }
    }
}

proof fn lemma_events_match_push_keep(
    dir: Seq<char>,
    es: Seq<DirEntry>,
    evs: Seq<ProgressEvent>,
    e: DirEntry,
)
    requires
        events_match(dir, es, evs),
        !entry_deletable(dir, e),
    ensures
        events_match(dir, es.push(e), evs),
    decreases es.len(),
{
    if es.len() == 0 {
        assert(es.push(e)[0] == e);
        assert(es.push(e).drop_first() =~= Seq::<DirEntry>::empty());
        assert(events_match(dir, Seq::<DirEntry>::empty(), evs));
    } else {
        assert(es.push(e)[0] == es[0]);
        assert(es.push(e).drop_first() =~= es.drop_first().push(e));
        if entry_deletable(dir, es[0]) {
            lemma_events_match_push_keep(dir, es.drop_first(), evs.drop_first(), e);
        } else {
            lemma_events_match_push_keep(dir, es.drop_first(), evs, e);
        }
    }
}

proof fn lemma_deletable_count_push(dir: Seq<char>, es: Seq<DirEntry>, e: DirEntry)
    ensures
        deletable_count(dir, es.push(e)) == deletable_count(dir, es) + (if entry_deletable(
            dir,
            e,
        ) {
            1int
        } else {
            0int
        }),
    decreases es.len(),
{
    if es.len() == 0 {
        assert(es.push(e)[0] == e);
        assert(es.push(e).drop_first() =~= Seq::<DirEntry>::empty());
        assert(deletable_count(dir, Seq::<DirEntry>::empty()) == 0);
    } else {
        assert(es.push(e)[0] == es[0]);
        assert(es.push(e).drop_first() =~= es.drop_first().push(e));
        lemma_deletable_count_push(dir, es.drop_first(), e);
    }
}

/// Should this entry be removed?  True exactly when the classifier
/// matches it and it is a plain file or a directory.
pub fn decide_entry(dir: &str, e: &DirEntry) -> (r: bool)
    ensures
        r == entry_deletable(dir@, *e),
{
    let matched = match &e.name {
        Option::Some(n) => should_delete(dir, n.as_str()),
        Option::None => true,
    };
    matched && !matches!(e.kind, EntryKind::Other)
}

/// Builds the `Deleted` event reporting that `shown` (the removed entry's
/// name) was removed from `dir`.
pub fn deleted_event(dir: &str, shown: &str, is_dir: bool) -> (ev: ProgressEvent)
    ensures
        ev matches ProgressEvent::Deleted(l, p) && l@ == deleted_label_spec(dir@, is_dir) && p@
            == shown@,
{
    let label = if is_dir {
        String::from_str("directory")
    } else {
        String::from_str(file_type_label(dir))
    };
    ProgressEvent::Deleted(label, String::from_str(shown))
}

/// One clean pass over a directory listing, in the case every removal
/// succeeds: removes each deletable entry, reports each removal with one
/// `Deleted` event, in listing order, and returns the count of removed
/// entries — which equals the number of events.
pub fn clean_entries(dir: &str, entries: &Vec<DirEntry>) -> (res: (usize, Vec<ProgressEvent>))
    ensures
        res.0 == deletable_count(dir@, entries@),
        res.1@.len() == res.0,
        events_match(dir@, entries@, res.1@),
{
    let n = entries.len();
    let mut evs: Vec<ProgressEvent> = Vec::new();
    let mut count: usize = 0;
    let mut i: usize = 0;
    proof {
        assert(entries@.take(0) =~= Seq::<DirEntry>::empty());
    }
    while i < n
        invariant
            n == entries@.len(),
            0 <= i <= n,
            count == deletable_count(dir@, entries@.take(i as int)),
            evs@.len() == count,
            count <= i,
            events_match(dir@, entries@.take(i as int), evs@),
        decreases n - i,
    {
        let e = &entries[i];
        proof {
            assert(entries@.take(i as int + 1) =~= entries@.take(i as int).push(entries@[i as int]));
            lemma_deletable_count_push(dir@, entries@.take(i as int), entries@[i as int]);
        }
        if decide_entry(dir, e) {
            let shown = match &e.name {
                Option::Some(nm) => nm.as_str(),
                Option::None => "",
            };
            proof {
                reveal_strlit("");
                assert(""@ =~= Seq::<char>::empty());
            }
            let ev = deleted_event(dir, shown, matches!(e.kind, EntryKind::Directory));
            proof {
                assert(shown@ == entry_shown_name(entries@[i as int]));
                assert(event_for(dir@, entries@[i as int], ev));
                lemma_events_match_push_del(
                    dir@,
                    entries@.take(i as int),
                    evs@,
                    entries@[i as int],
                    ev,
                );
            }
            evs.push(ev);
            count = count + 1;
        } else {
            proof {
                lemma_events_match_push_keep(dir@, entries@.take(i as int), evs@, entries@[i as int]);
            }
        }
        i += 1;
    }
    proof {
        assert(entries@.take(n as int) =~= entries@);
    }
    (count, evs)
}

/// Idempotence of a clean pass: a listing in which no entry is deletable
/// — such as what a successful pass leaves behind — yields a count of
/// zero, and the converse also holds.
pub proof fn lemma_clean_idempotent(dir: Seq<char>, entries: Seq<DirEntry>)
    ensures
        (forall|i: int| 0 <= i < entries.len() ==> !entry_deletable(dir, entries[i]))
            <==> deletable_count(dir, entries) == 0,
    decreases entries.len(),
{
    if entries.len() > 0 {
        let rest = entries.drop_first();
        lemma_clean_idempotent(dir, rest);
        lemma_deletable_count_nonneg(dir, rest);
        if deletable_count(dir, entries) == 0 {
            assert(!entry_deletable(dir, entries[0]));
            assert(deletable_count(dir, rest) == 0);
            assert forall|i: int| 0 <= i < entries.len() implies !entry_deletable(
                dir,
                entries[i],
            ) by {
                if i > 0 {
                    assert(rest[i - 1] == entries[i]);
                    assert(!entry_deletable(dir, rest[i - 1]));
                }
            }
        } else {
            if entry_deletable(dir, entries[0]) {
                assert(!(forall|i: int| 0 <= i < entries.len() ==> !entry_deletable(
                    dir,
                    entries[i],
                )));
            } else {
                assert(deletable_count(dir, rest) != 0);
                assert(exists|j: int| 0 <= j < rest.len() && entry_deletable(dir, rest[j])) by {
                    if forall|j: int| 0 <= j < rest.len() ==> !entry_deletable(dir, rest[j]) {
                        assert(false);
                    }
                }
                let j = choose|j: int| 0 <= j < rest.len() && entry_deletable(dir, rest[j]);
                assert(rest[j] == entries[j + 1]);
                assert(entry_deletable(dir, entries[j + 1]));
            }
        }
    }
}

/// A deletable count is never negative.
proof fn lemma_deletable_count_nonneg(dir: Seq<char>, entries: Seq<DirEntry>)
    ensures
        deletable_count(dir, entries) >= 0,
    decreases entries.len(),
{
    if entries.len() > 0 {
        lemma_deletable_count_nonneg(dir, entries.drop_first());
    }
}

} // verus!
