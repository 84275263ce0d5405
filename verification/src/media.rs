//! Media files and the directory entries they are picked from.
//!
//! Paths are text with `/` between components. Times are whole numbers that
//! grow with time; zero is the oldest time there is.

use vstd::prelude::*;

verus! {

/// A playable file: where it is and when it was last modified.
#[derive(Debug)]
pub struct MediaFile {
    pub path: String,
    pub modified: u64,
}

/// Mathematical value of a [`MediaFile`].
pub struct MediaFileView {
    pub path: Seq<char>,
    pub modified: u64,
}

impl View for MediaFile {
    type V = MediaFileView;

    open spec fn view(&self) -> MediaFileView {
        MediaFileView { path: self.path@, modified: self.modified }
    }
}

impl DeepView for MediaFile {
    type V = MediaFileView;

    open spec fn deep_view(&self) -> MediaFileView {
        self@
    }
}

impl Clone for MediaFile {
    fn clone(&self) -> (copy: MediaFile)
        ensures
            copy@ == self@,
    {
        MediaFile { path: self.path.clone(), modified: self.modified }
    }
}

/// One entry of a directory listing, as the caller read it: its path, whether
/// it is a regular file, and its modification time where that could be read.
#[derive(Debug)]
pub struct ScannedEntry {
    pub path: String,
    pub is_file: bool,
    pub modified: Option<u64>,
}

/// Mathematical value of a [`ScannedEntry`].
pub struct ScannedEntryView {
    pub path: Seq<char>,
    pub is_file: bool,
    pub modified: Option<u64>,
}

impl View for ScannedEntry {
    type V = ScannedEntryView;

    open spec fn view(&self) -> ScannedEntryView {
        ScannedEntryView { path: self.path@, is_file: self.is_file, modified: self.modified }
    }
}

impl DeepView for ScannedEntry {
    type V = ScannedEntryView;

    open spec fn deep_view(&self) -> ScannedEntryView {
        self@
    }
}

/// True when the last component of `path` has the extension `ext`: the path
/// ends in a dot and `ext`, and that dot is not the first character of the
/// component (a name such as `.mp3` is a hidden file without extension).
/// `ext` is meant to hold neither a dot nor a separator.
pub open spec fn has_extension(path: Seq<char>, ext: Seq<char>) -> bool {
    let n = path.len() as int;
    let k = ext.len() as int;
    &&& n >= k + 2
    &&& path.subrange(n - k, n) == ext
    &&& path[n - k - 1] == '.'
    &&& path[n - k - 2] != '/'
}

/// The recognized audio containers: `mp3`, `m4a` and `opus`, in lower case.
pub open spec fn recognized(path: Seq<char>) -> bool {
    has_extension(path, "mp3"@) || has_extension(path, "m4a"@) || has_extension(path, "opus"@)
}

/// Tests whether the last component of `path` has the extension `ext`.
pub fn path_has_extension(path: &str, ext: &str) -> (found: bool)
    ensures
        found == has_extension(path@, ext@),
{
    let n: usize = path.unicode_len();
    let k: usize = ext.unicode_len();
    if n < 2 || n - 2 < k {
        return false;
    }
    if path.get_char(n - k - 1) != '.' {
        return false;
    }
    if path.get_char(n - k - 2) == '/' {
        return false;
    }
    let mut i: usize = 0;
    while i < k
        invariant
            n == path@.len(),
            k == ext@.len(),
            n >= k + 2,
            i <= k,
            forall|j: int| 0 <= j < i ==> path@[n - k + j] == ext@[j],
        decreases k - i,
    {
        if path.get_char(n - k + i) != ext.get_char(i) {
            assert(path@.subrange(n - k, n as int)[i as int] != ext@[i as int]);
            return false;
        }
        i += 1;
    }
    assert(path@.subrange(n - k, n as int) =~= ext@);
    true
}

/// Tests whether `path` names a file of a recognized audio container.
pub fn is_recognized(path: &str) -> (found: bool)
    ensures
        found == recognized(path@),
{
    path_has_extension(path, "mp3") || path_has_extension(path, "m4a") || path_has_extension(
        path,
        "opus",
    )
}

/// The largest distance from the epoch that a time key tells apart, in
/// nanoseconds: about 292 years to either side. Times further away count as
/// this far away.
pub const TIME_KEY_REACH: u64 = 0x7fff_ffff_ffff_ffff;

/// The key of the epoch itself.
pub const TIME_KEY_EPOCH: u64 = 0x8000_0000_0000_0000;

/// The key of the time that lies `nanos` nanoseconds after the epoch, or
/// before it where `nanos` is negative.
pub open spec fn time_key_of(nanos: int) -> int {
    if nanos > TIME_KEY_REACH {
        TIME_KEY_EPOCH + TIME_KEY_REACH
    } else if nanos < -TIME_KEY_REACH {
        TIME_KEY_EPOCH - TIME_KEY_REACH
    } else {
        TIME_KEY_EPOCH + nanos
    }
}

/// Turns a time into the number by which files are ordered. The time is
/// given by its distance from the epoch in nanoseconds and the side it lies
/// on. The key is never zero, so that a time that could be read is never as
/// old as one that could not.
pub fn time_key(before_epoch: bool, distance_nanos: u128) -> (key: u64)
    ensures
        key == time_key_of(
            if before_epoch {
                -(distance_nanos as int)
            } else {
                distance_nanos as int
            },
        ),
        key >= 1,
{
    let capped: u128 = if distance_nanos > 0x7fff_ffff_ffff_ffff {
        0x7fff_ffff_ffff_ffff
    } else {
        distance_nanos
    };
    let distance: u64 = capped as u64;
    if before_epoch {
        TIME_KEY_EPOCH - distance
    } else {
        TIME_KEY_EPOCH + distance
    }
}

/// Time keys keep the order of time: a later time never has a smaller key,
/// and within reach of the epoch a later time has a larger one. Every key is
/// at least one and fits the type of a modification time.
pub proof fn law_time_keys_keep_order(earlier: int, later: int)
    requires
        earlier <= later,
    ensures
        1 <= time_key_of(earlier) <= time_key_of(later) <= u64::MAX,
        -TIME_KEY_REACH <= earlier < later <= TIME_KEY_REACH ==> time_key_of(earlier)
            < time_key_of(later),
{
}

} // verus!
