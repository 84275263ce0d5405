//! Which files of a directory listing are played, and in which order.
//!
//! The listing is taken as the caller read it. Regular files with a
//! recognized extension are kept, ordered from the most recently modified to
//! the least, and cut to the first [`MAX_DISCOVERED`]. Nothing is opened: only
//! names and times count. A file that was in the directory before and has a
//! newer time than the fresh downloads is picked before them; that is an
//! accepted weakness of choosing by recency.

use vstd::prelude::*;
use vstd::seq_lib::*;
use crate::error::DiscoveryError;
use crate::media::{is_recognized, recognized, MediaFile, MediaFileView, ScannedEntry, ScannedEntryView};

verus! {

/// The largest number of files that one discovery hands out.
pub const MAX_DISCOVERED: usize = 10;

/// The time by which an entry is ordered: a time that could not be read
/// counts as the oldest there is.
pub open spec fn effective_time(modified: Option<u64>) -> u64 {
    match modified {
        Some(time) => time,
        None => 0,
    }
}

/// An entry is a candidate when it is a regular file with a recognized
/// extension.
pub open spec fn is_candidate(entry: ScannedEntryView) -> bool {
    entry.is_file && recognized(entry.path)
}

/// The media file that a candidate entry stands for.
pub open spec fn as_media(entry: ScannedEntryView) -> MediaFileView {
    MediaFileView { path: entry.path, modified: effective_time(entry.modified) }
}

/// The candidates among `entries`, in the order of the listing.
pub open spec fn candidates(entries: Seq<ScannedEntryView>) -> Seq<MediaFileView>
    decreases entries.len(),
{
    if entries.len() == 0 {
        Seq::empty()
    } else if is_candidate(entries.last()) {
        candidates(entries.drop_last()).push(as_media(entries.last()))
    } else {
        candidates(entries.drop_last())
    }
}

/// The number of files at the front of `sorted` that are strictly newer than
/// `modified`: the place where a file of that time goes.
pub open spec fn slot(sorted: Seq<MediaFileView>, modified: u64) -> int
    decreases sorted.len(),
{
    if sorted.len() == 0 || sorted[0].modified <= modified {
        0
    } else {
        1 + slot(sorted.drop_first(), modified)
    }
}

/// `sorted` with `file` put in behind every strictly newer file and before
/// every other one.
pub open spec fn place(sorted: Seq<MediaFileView>, file: MediaFileView) -> Seq<MediaFileView> {
    sorted.insert(slot(sorted, file.modified), file)
}

/// `files` from the most recently modified to the least. Of two files with
/// the same time, the one that comes later in `files` comes first.
pub open spec fn newest_first(files: Seq<MediaFileView>) -> Seq<MediaFileView>
    decreases files.len(),
{
    if files.len() == 0 {
        Seq::empty()
    } else {
        place(newest_first(files.drop_last()), files.last())
    }
}

/// The first [`MAX_DISCOVERED`] of `files`, or all of them if they are fewer.
pub open spec fn limited(files: Seq<MediaFileView>) -> Seq<MediaFileView> {
    if files.len() > MAX_DISCOVERED {
        files.subrange(0, MAX_DISCOVERED as int)
    } else {
        files
    }
}

/// What discovery finds in a listing.
pub open spec fn discovered(entries: Seq<ScannedEntryView>) -> Seq<MediaFileView> {
    limited(newest_first(candidates(entries)))
}

/// No file comes before a more recently modified one.
pub open spec fn descending(files: Seq<MediaFileView>) -> bool {
    forall|i: int, j: int|
        0 <= i < j < files.len() ==> (#[trigger] files[i]).modified >= (#[trigger] files[j]).modified
}

/// Every file is more recently modified than all that follow it.
pub open spec fn strictly_descending(files: Seq<MediaFileView>) -> bool {
    forall|i: int, j: int|
        0 <= i < j < files.len() ==> (#[trigger] files[i]).modified > (#[trigger] files[j]).modified
}

/// No two files have the same modification time.
pub open spec fn distinct_times(files: Seq<MediaFileView>) -> bool {
    forall|i: int, j: int|
        0 <= i < j < files.len() ==> (#[trigger] files[i]).modified != (#[trigger] files[j]).modified
}

/// What holds of every discovered file set: it is not empty, has at most
/// [`MAX_DISCOVERED`] files, and is ordered from newest to oldest.
pub open spec fn well_formed(files: Seq<MediaFileView>) -> bool {
    &&& 1 <= files.len() <= MAX_DISCOVERED
    &&& descending(files)
}

proof fn lemma_slot(sorted: Seq<MediaFileView>, modified: u64)
    ensures
        0 <= slot(sorted, modified) <= sorted.len(),
        forall|j: int| 0 <= j < slot(sorted, modified) ==> (#[trigger] sorted[j]).modified > modified,
        slot(sorted, modified) < sorted.len() ==> sorted[slot(sorted, modified)].modified
            <= modified,
    decreases sorted.len(),
{
    if sorted.len() == 0 || sorted[0].modified <= modified {
    } else {
        let rest = sorted.drop_first();
        lemma_slot(rest, modified);
        assert forall|j: int| 0 <= j < slot(sorted, modified) implies (#[trigger] sorted[j]).modified
            > modified by {
            if j > 0 {
                assert(sorted[j] == rest[j - 1]);
            }
        }
        if slot(sorted, modified) < sorted.len() {
            assert(sorted[slot(sorted, modified)] == rest[slot(rest, modified)]);
        }
    }
}

proof fn lemma_slot_found(sorted: Seq<MediaFileView>, modified: u64, position: int)
    requires
        0 <= position <= sorted.len(),
        forall|j: int| 0 <= j < position ==> (#[trigger] sorted[j]).modified > modified,
        position < sorted.len() ==> sorted[position].modified <= modified,
    ensures
        slot(sorted, modified) == position,
{
    lemma_slot(sorted, modified);
    let s = slot(sorted, modified);
    if position < s {
        assert(sorted[position].modified > modified);
    }
    if s < position {
        assert(sorted[s].modified > modified);
    }
}

proof fn lemma_candidates(entries: Seq<ScannedEntryView>)
    ensures
        candidates(entries).len() <= entries.len(),
        forall|k: int|
            0 <= k < candidates(entries).len() ==> recognized((#[trigger] candidates(entries)[k]).path)
                && exists|j: int|
                0 <= j < entries.len() && is_candidate(entries[j]) && candidates(entries)[k]
                    == as_media(entries[j]),
        forall|j: int|
            0 <= j < entries.len() && is_candidate(#[trigger] entries[j]) ==> candidates(
                entries,
            ).contains(as_media(entries[j])),
    decreases entries.len(),
{
    if entries.len() > 0 {
        let rest = entries.drop_last();
        lemma_candidates(rest);
        let found = candidates(entries);
        let before = candidates(rest);
        assert forall|k: int| 0 <= k < found.len() implies recognized((#[trigger] found[k]).path)
            && exists|j: int|
            0 <= j < entries.len() && is_candidate(entries[j]) && found[k] == as_media(entries[j]) by {
            if k < before.len() {
                assert(found[k] == before[k]);
                let j = choose|j: int|
                    0 <= j < rest.len() && is_candidate(rest[j]) && before[k] == as_media(rest[j]);
                assert(entries[j] == rest[j]);
            } else {
                let j = entries.len() - 1;
                assert(is_candidate(entries[j]) && found[k] == as_media(entries[j]));
            }
        }
        assert forall|j: int| 0 <= j < entries.len() && is_candidate(#[trigger] entries[j]) implies found.contains(
            as_media(entries[j]),
        ) by {
            if j < rest.len() {
                assert(entries[j] == rest[j]);
                let k = choose|k: int| 0 <= k < before.len() && before[k] == as_media(rest[j]);
                assert(found[k] == as_media(entries[j]));
            } else {
                assert(found[found.len() - 1] == as_media(entries[j]));
            }
        }
    }
}

proof fn lemma_newest_first(files: Seq<MediaFileView>)
    ensures
        newest_first(files).len() == files.len(),
        descending(newest_first(files)),
        newest_first(files).to_multiset() == files.to_multiset(),
        forall|file: MediaFileView| newest_first(files).contains(file) <==> files.contains(file),
        distinct_times(files) ==> strictly_descending(newest_first(files)),
    decreases files.len(),
{
    broadcast use to_multiset_contains;

    let sorted = newest_first(files);
    if files.len() == 0 {
        assert(files =~= Seq::empty());
    } else {
        let rest = files.drop_last();
        let file = files.last();
        let before = newest_first(rest);
        lemma_newest_first(rest);
        lemma_slot(before, file.modified);
        let p = slot(before, file.modified);
        before.insert_ensures(p, file);
        to_multiset_insert(before, p, file);
        assert(files =~= rest.push(file));
        to_multiset_build(rest, file);
        assert forall|i: int, j: int| 0 <= i < j < sorted.len() implies (#[trigger] sorted[i]).modified
            >= (#[trigger] sorted[j]).modified by {
            lemma_placed(before, file, i);
            lemma_placed(before, file, j);
        }
        assert forall|x: MediaFileView| sorted.contains(x) <==> files.contains(x) by {
            assert(sorted.to_multiset().count(x) == files.to_multiset().count(x));
        }
        if distinct_times(files) {
            assert(distinct_times(rest)) by {
                assert forall|i: int, j: int| 0 <= i < j < rest.len() implies (#[trigger] rest[i]).modified
                    != (#[trigger] rest[j]).modified by {
                    assert(rest[i] == files[i] && rest[j] == files[j]);
                }
            }
            assert forall|i: int, j: int| 0 <= i < j < sorted.len() implies (#[trigger] sorted[i]).modified
                > (#[trigger] sorted[j]).modified by {
                lemma_placed(before, file, i);
                lemma_placed(before, file, j);
                if i == p {
                    let other = before[j - 1];
                    assert(before.contains(other));
                    assert(rest.contains(other));
                    let k = choose|k: int| 0 <= k < rest.len() && rest[k] == other;
                    assert(files[k] == other);
                    assert(files[k].modified != files[files.len() - 1].modified);
                }
            }
        }
    }
}

/// What stands at `index` once `file` has been put into `sorted`.
proof fn lemma_placed(sorted: Seq<MediaFileView>, file: MediaFileView, index: int)
    requires
        descending(sorted),
        0 <= index <= sorted.len(),
    ensures
        ({
            let p = slot(sorted, file.modified);
            let placed = place(sorted, file);
            &&& placed.len() == sorted.len() + 1
            &&& index < p ==> placed[index] == sorted[index] && sorted[index].modified > file.modified
            &&& index == p ==> placed[index] == file
            &&& index > p ==> placed[index] == sorted[index - 1] && sorted[index - 1].modified
                <= file.modified
        }),
{
    lemma_slot(sorted, file.modified);
    let p = slot(sorted, file.modified);
    sorted.insert_ensures(p, file);
    if index > p {
        assert(sorted.insert(p, file)[(index - 1) + 1] == sorted[index - 1]);
        if index - 1 > p {
            assert(sorted[p].modified >= sorted[index - 1].modified);
        }
    }
}

/// Discovery hands out recognized regular files of the listing only, and never
/// more than [`MAX_DISCOVERED`] of them.
pub proof fn law_only_recognized_files(entries: Seq<ScannedEntryView>)
    ensures
        discovered(entries).len() <= MAX_DISCOVERED,
        discovered(entries).len() <= entries.len(),
        forall|i: int|
            0 <= i < discovered(entries).len() ==> recognized((#[trigger] discovered(entries)[i]).path)
                && exists|j: int|
                0 <= j < entries.len() && is_candidate(entries[j]) && discovered(entries)[i]
                    == as_media(entries[j]),
{
    let found = candidates(entries);
    let sorted = newest_first(found);
    let kept = discovered(entries);
    lemma_candidates(entries);
    lemma_newest_first(found);
    assert forall|i: int| 0 <= i < kept.len() implies recognized((#[trigger] kept[i]).path)
        && exists|j: int|
        0 <= j < entries.len() && is_candidate(entries[j]) && kept[i] == as_media(entries[j]) by {
        assert(kept[i] == sorted[i]);
        assert(sorted.contains(sorted[i]));
        assert(found.contains(kept[i]));
        let k = choose|k: int| 0 <= k < found.len() && found[k] == kept[i];
        assert(recognized(found[k].path));
    }
}

/// Discovery hands its files out from the most recently modified to the
/// least. Where no two candidates have the same time, each file is strictly
/// newer than the next; among files of one time no order is promised here.
pub proof fn law_newest_come_first(entries: Seq<ScannedEntryView>)
    ensures
        descending(discovered(entries)),
        distinct_times(candidates(entries)) ==> strictly_descending(discovered(entries)),
{
    let sorted = newest_first(candidates(entries));
    let kept = discovered(entries);
    lemma_newest_first(candidates(entries));
    assert forall|i: int, j: int| 0 <= i < j < kept.len() implies (#[trigger] kept[i]).modified
        >= (#[trigger] kept[j]).modified by {
        assert(kept[i] == sorted[i] && kept[j] == sorted[j]);
    }
    if distinct_times(candidates(entries)) {
        assert forall|i: int, j: int| 0 <= i < j < kept.len() implies (#[trigger] kept[i]).modified
            > (#[trigger] kept[j]).modified by {
            assert(kept[i] == sorted[i] && kept[j] == sorted[j]);
        }
    }
}

/// Discovery finds nothing exactly when the listing holds no regular file
/// with a recognized extension: an empty directory, or one with other files
/// only.
pub proof fn law_empty_without_recognized_files(entries: Seq<ScannedEntryView>)
    ensures
        discovered(entries).len() == 0 <==> forall|j: int|
            0 <= j < entries.len() ==> !is_candidate(#[trigger] entries[j]),
        entries.len() == 0 ==> discovered(entries).len() == 0,
{
    let found = candidates(entries);
    lemma_candidates(entries);
    lemma_newest_first(found);
    if found.len() > 0 {
        assert(recognized(found[0].path));
        let j = choose|j: int|
            0 <= j < entries.len() && is_candidate(entries[j]) && found[0] == as_media(entries[j]);
        assert(is_candidate(entries[j]));
    } else {
        assert forall|j: int| 0 <= j < entries.len() implies !is_candidate(#[trigger] entries[j]) by {
            if is_candidate(entries[j]) {
                assert(found.contains(as_media(entries[j])));
            }
        }
    }
}

/// The cut keeps the most recent: a candidate that discovery leaves out is no
/// newer than any file that it hands out, and nothing is left out while fewer
/// than [`MAX_DISCOVERED`] files are handed out.
pub proof fn law_most_recent_are_kept(entries: Seq<ScannedEntryView>)
    ensures
        discovered(entries).len() == if candidates(entries).len() > MAX_DISCOVERED {
            MAX_DISCOVERED as nat
        } else {
            candidates(entries).len()
        },
        forall|k: int, i: int|
            0 <= k < candidates(entries).len() && 0 <= i < discovered(entries).len()
                && !discovered(entries).contains(#[trigger] candidates(entries)[k]) ==> (#[trigger] discovered(
                entries,
            )[i]).modified >= candidates(entries)[k].modified,
{
    let found = candidates(entries);
    let sorted = newest_first(found);
    let kept = discovered(entries);
    lemma_newest_first(found);
    assert forall|k: int, i: int|
        0 <= k < found.len() && 0 <= i < kept.len() && !kept.contains(
            #[trigger] found[k],
        ) implies (#[trigger] kept[i]).modified >= found[k].modified by {
        assert(found.contains(found[k]));
        assert(sorted.contains(found[k]));
        let p = choose|p: int| 0 <= p < sorted.len() && sorted[p] == found[k];
        if p < kept.len() {
            assert(kept[p] == found[k]);
        } else {
            assert(kept[i] == sorted[i]);
            assert(sorted[i].modified >= sorted[p].modified);
        }
    }
}

/// A discovered file set: between one and [`MAX_DISCOVERED`] media files,
/// newest first. An empty set does not exist; finding nothing is an error.
pub struct DiscoveredFileSet {
    files: Vec<MediaFile>,
}

impl View for DiscoveredFileSet {
    type V = Seq<MediaFileView>;

    closed spec fn view(&self) -> Seq<MediaFileView> {
        self.files.deep_view()
    }
}

impl DiscoveredFileSet {
    #[verifier::type_invariant]
    spec fn valid(self) -> bool {
        well_formed(self.files.deep_view())
    }

    /// Takes `files` as a file set if they form one: not empty, at most
    /// [`MAX_DISCOVERED`], newest first. Anything else is refused.
    pub fn from_files(files: Vec<MediaFile>) -> (set: Option<DiscoveredFileSet>)
        ensures
            set is Some <==> well_formed(files.deep_view()),
            set matches Some(s) ==> s@ == files.deep_view(),
    {
        let n: usize = files.len();
        if n == 0 || n > MAX_DISCOVERED {
            return None;
        }
        let mut i: usize = 1;
        while i < n
            invariant
                n == files.len(),
                1 <= i <= n,
                forall|a: int, b: int|
                    0 <= a < b < i ==> (#[trigger] files.deep_view()[a]).modified
                        >= (#[trigger] files.deep_view()[b]).modified,
            decreases n - i,
        {
            if files[i - 1].modified < files[i].modified {
                assert(files.deep_view()[i - 1].modified < files.deep_view()[i as int].modified);
                return None;
            }
            assert forall|a: int, b: int| 0 <= a < b < i + 1 implies (#[trigger] files.deep_view()[a]).modified
                >= (#[trigger] files.deep_view()[b]).modified by {
                if b == i && a < i - 1 {
                    assert(files.deep_view()[a].modified >= files.deep_view()[i - 1].modified);
                }
            }
            i += 1;
        }
        Some(DiscoveredFileSet { files })
    }

    /// The number of files: at least one, at most [`MAX_DISCOVERED`].
    pub fn len(&self) -> (n: usize)
        ensures
            n == self@.len(),
            1 <= n <= MAX_DISCOVERED,
            well_formed(self@),
    {
        proof {
            use_type_invariant(self);
        }
        self.files.len()
    }

    /// The file at `index`, counted from the newest at zero; `None` past the
    /// end.
    pub fn get(&self, index: usize) -> (file: Option<&MediaFile>)
        ensures
            file is Some <==> index < self@.len(),
            file matches Some(f) ==> f@ == self@[index as int],
    {
        if index < self.files.len() {
            Some(&self.files[index])
        } else {
            None
        }
    }

    /// The newest file: every set has one.
    pub fn first(&self) -> (file: &MediaFile)
        ensures
            well_formed(self@),
            file@ == self@[0],
    {
        proof {
            use_type_invariant(self);
        }
        &self.files[0]
    }

    /// The file at `index`, which is within the set.
    pub(crate) fn at(&self, index: usize) -> (file: &MediaFile)
        requires
            index < self@.len(),
        ensures
            file@ == self@[index as int],
    {
        &self.files[index]
    }

    /// The files, newest first.
    pub fn files(&self) -> (files: &Vec<MediaFile>)
        ensures
            files.deep_view() == self@,
            well_formed(self@),
    {
        proof {
            use_type_invariant(self);
        }
        &self.files
    }
}

proof fn lemma_insert_views(
    before: Vec<MediaFile>,
    after: Vec<MediaFile>,
    position: int,
    file: MediaFile,
)
    requires
        0 <= position <= before.len(),
        after@ == before@.insert(position, file),
    ensures
        after.deep_view() == before.deep_view().insert(position, file@),
{
    before@.insert_ensures(position, file);
    before.deep_view().insert_ensures(position, file@);
    let left = after.deep_view();
    let right = before.deep_view().insert(position, file@);
    assert(left.len() == right.len());
    assert forall|i: int| 0 <= i < left.len() implies left[i] == right[i] by {
        if i < position {
            assert(after@[i] == before@[i]);
        } else if i == position {
            assert(after@[i] == file);
        } else {
            assert(before@.insert(position, file)[(i - 1) + 1] == before@[i - 1]);
            assert(before.deep_view().insert(position, file@)[(i - 1) + 1] == before.deep_view()[i
                - 1]);
        }
    }
    assert(left =~= right);
}

/// Finds the place in `sorted` where a file modified at `modified` goes.
fn insertion_slot(sorted: &Vec<MediaFile>, modified: u64) -> (position: usize)
    ensures
        position == slot(sorted.deep_view(), modified),
        position <= sorted.len(),
{
    let mut position: usize = 0;
    while position < sorted.len() && sorted[position].modified > modified
        invariant
            position <= sorted.len(),
            forall|j: int|
                0 <= j < position ==> (#[trigger] sorted.deep_view()[j]).modified > modified,
        decreases sorted.len() - position,
    {
        assert(sorted.deep_view()[position as int].modified > modified);
        position += 1;
    }
    proof {
        if position < sorted.len() {
            assert(sorted.deep_view()[position as int].modified <= modified);
        }
        lemma_slot_found(sorted.deep_view(), modified, position as int);
    }
    position
}

/// Picks the files to play from a directory listing.
///
/// Kept are the regular files with a recognized extension; they come out from
/// the most recently modified to the least, the first [`MAX_DISCOVERED`] of
/// them. An entry whose time could not be read counts as the oldest there
/// is. A listing without any such file gives [`DiscoveryError::Empty`].
pub fn discover(entries: &Vec<ScannedEntry>) -> (found: Result<DiscoveredFileSet, DiscoveryError>)
    ensures
        match found {
            Ok(set) => set@ == discovered(entries.deep_view()),
            Err(e) => e == DiscoveryError::Empty && discovered(entries.deep_view()).len() == 0,
        },
        found is Err <==> forall|j: int|
            0 <= j < entries.len() ==> !is_candidate(#[trigger] entries.deep_view()[j]),
        found matches Ok(set) ==> {
            &&& well_formed(set@)
            &&& forall|i: int| 0 <= i < set@.len() ==> recognized((#[trigger] set@[i]).path)
            &&& distinct_times(candidates(entries.deep_view())) ==> strictly_descending(set@)
        },
{
    let ghost listing = entries.deep_view();
    let mut sorted: Vec<MediaFile> = Vec::new();
    let mut i: usize = 0;
    proof {
        assert(listing.take(0) =~= Seq::<ScannedEntryView>::empty());
        assert(sorted.deep_view() =~= Seq::<MediaFileView>::empty());
    }
    while i < entries.len()
        invariant
            i <= entries.len(),
            listing == entries.deep_view(),
            sorted.deep_view() == newest_first(candidates(listing.take(i as int))),
        decreases entries.len() - i,
    {
        let entry = &entries[i];
        proof {
            assert(listing.take(i + 1).drop_last() =~= listing.take(i as int));
            assert(listing.take(i + 1).last() == entry@);
        }
        if entry.is_file && is_recognized(entry.path.as_str()) {
            let time: u64 = match entry.modified {
                Some(t) => t,
                None => 0,
            };
            let file = MediaFile { path: entry.path.clone(), modified: time };
            assert(file@ == as_media(entry@));
            let position: usize = insertion_slot(&sorted, time);
            let ghost before = sorted;
            sorted.insert(position, file);
            proof {
                lemma_insert_views(before, sorted, position as int, file);
                let earlier = candidates(listing.take(i as int));
                assert(candidates(listing.take(i + 1)) == earlier.push(file@));
                assert(earlier.push(file@).drop_last() =~= earlier);
            }
        }
        i += 1;
    }
    proof {
        assert(listing.take(i as int) =~= listing);
        lemma_newest_first(candidates(listing));
        law_only_recognized_files(listing);
        law_newest_come_first(listing);
        law_empty_without_recognized_files(listing);
    }
    let ghost all = sorted;
    sorted.truncate(MAX_DISCOVERED);
    assert(sorted.deep_view() =~= limited(all.deep_view()));
    if sorted.len() == 0 {
        Err(DiscoveryError::Empty)
    } else {
        Ok(DiscoveredFileSet { files: sorted })
    }
}

} // verus!
