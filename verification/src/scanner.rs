//! The directory scanner: one pass over the entries of a folder, counting
//! the files with a given extension and keeping the oldest and the newest
//! modification time.
//!
//! The caller lists the folder; the rules for what counts are here.

use vstd::prelude::*;
use vstd::string::*;

use crate::domain::common::{FileStats, Timestamp};
use crate::domain::error::{AppError, AppErrorView};
use crate::seq_facts::lemma_filter_step;
use crate::text::{chars_of, has_extension, name_has_extension};

verus! {

/// One entry of a folder: its file name, and its modification time where the
/// system gave one.
#[derive(Debug, Clone)]
pub struct DirEntryInfo {
    pub file_name: String,
    pub modified: Option<Timestamp>,
}

/// The mathematical value of a [`DirEntryInfo`].
pub struct DirEntryView {
    pub file_name: Seq<char>,
    pub modified: Option<Timestamp>,
}

impl View for DirEntryInfo {
    type V = DirEntryView;

    open spec fn view(&self) -> DirEntryView {
        DirEntryView { file_name: self.file_name@, modified: self.modified }
    }
}

impl DeepView for DirEntryInfo {
    type V = DirEntryView;

    open spec fn deep_view(&self) -> DirEntryView {
        self@
    }
}

/// What listing a folder gave.
#[derive(Debug, Clone)]
pub enum Listing {
    /// The folder does not exist.
    Missing,
    /// The folder exists and may not be read; the system's message.
    Denied(String),
    /// Listing failed for another reason; the system's message.
    Failed(String),
    /// The entries that could be read.
    Entries(Vec<DirEntryInfo>),
}

/// The entries that count: those with the extension `ext` whose modification
/// time is known.
pub open spec fn is_counted(ext: Seq<char>) -> spec_fn(DirEntryView) -> bool {
    |e: DirEntryView| has_extension(e.file_name, ext) && e.modified is Some
}

/// The modification times of the entries that count, in listing order.
pub open spec fn times_of(entries: Seq<DirEntryView>, ext: Seq<char>) -> Seq<Timestamp> {
    entries.filter(is_counted(ext)).map_values(|e: DirEntryView| e.modified->0)
}

/// The earliest of `times`, if there is any.
pub open spec fn oldest_of(times: Seq<Timestamp>) -> Option<Timestamp>
    decreases times.len(),
{
    if times.len() == 0 {
        None
    } else {
        match oldest_of(times.drop_last()) {
            None => Some(times.last()),
            Some(t) => Some(Timestamp::earlier(t, times.last())),
        }
    }
}

/// The latest of `times`, if there is any.
pub open spec fn newest_of(times: Seq<Timestamp>) -> Option<Timestamp>
    decreases times.len(),
{
    if times.len() == 0 {
        None
    } else {
        match newest_of(times.drop_last()) {
            None => Some(times.last()),
            Some(t) => Some(Timestamp::later(t, times.last())),
        }
    }
}

/// `n` as a count; more than the machine can count stays at the most that it
/// can.
pub open spec fn count_of(n: nat) -> usize {
    if n > usize::MAX {
        usize::MAX
    } else {
        n as usize
    }
}

/// What a scan of `entries` for the extension `ext` yields.
pub open spec fn stats_of(entries: Seq<DirEntryView>, ext: Seq<char>) -> FileStats {
    let times = times_of(entries, ext);
    FileStats { count: count_of(times.len()), oldest: oldest_of(times), newest: newest_of(times) }
}

/// The oldest time is one of the times and not after any of them; the newest
/// is one of them and not before any.
pub proof fn lemma_oldest_newest(times: Seq<Timestamp>)
    ensures
        times.len() == 0 <==> oldest_of(times) is None,
        times.len() == 0 <==> newest_of(times) is None,
        times.len() > 0 ==> {
            &&& times.contains(oldest_of(times)->0)
            &&& times.contains(newest_of(times)->0)
            &&& forall|i: int|
                0 <= i < times.len() ==> oldest_of(times)->0.not_after(&#[trigger] times[i])
            &&& forall|i: int|
                0 <= i < times.len() ==> (#[trigger] times[i]).not_after(&newest_of(times)->0)
            &&& oldest_of(times)->0.not_after(&newest_of(times)->0)
        },
    decreases times.len(),
{
    if times.len() > 0 {
        let rest = times.drop_last();
        lemma_oldest_newest(rest);
        let last = times.last();
        assert(times[times.len() - 1] == last);
        if rest.len() > 0 {
            let o = oldest_of(rest)->0;
            let n = newest_of(rest)->0;
            let io = choose|i: int| 0 <= i < rest.len() && rest[i] == o;
            let i_n = choose|i: int| 0 <= i < rest.len() && rest[i] == n;
            assert(times[io] == o);
            assert(times[i_n] == n);
            assert forall|i: int| 0 <= i < times.len() implies oldest_of(times)->0.not_after(
                &#[trigger] times[i],
            ) by {
                if i < rest.len() {
                    assert(rest[i] == times[i]);
                }
            }
            assert forall|i: int| 0 <= i < times.len() implies (#[trigger] times[i]).not_after(
                &newest_of(times)->0,
            ) by {
                if i < rest.len() {
                    assert(rest[i] == times[i]);
                }
            }
        }
    }
}

/// A scan result is well formed: both times are present exactly when
/// something was counted, and the oldest is not after the newest.
pub proof fn lemma_stats_wf(entries: Seq<DirEntryView>, ext: Seq<char>)
    ensures
        stats_of(entries, ext).wf(),
        entries.len() <= usize::MAX ==> stats_of(entries, ext).count == times_of(
            entries,
            ext,
        ).len(),
{
    crate::seq_facts::lemma_filter_len(entries, is_counted(ext));
    lemma_oldest_newest(times_of(entries, ext));
}

/// A folder in which exactly two files count, modified at `t1` and, not
/// earlier, at `t2`, in either listing order: the scan counts 2, with `t1` as
/// the oldest and `t2` as the newest time.
pub proof fn lemma_two_files(
    entries: Seq<DirEntryView>,
    ext: Seq<char>,
    t1: Timestamp,
    t2: Timestamp,
)
    requires
        t1.not_after(&t2),
        times_of(entries, ext) == seq![t1, t2] || times_of(entries, ext) == seq![t2, t1],
    ensures
        stats_of(entries, ext) == (FileStats { count: 2, oldest: Some(t1), newest: Some(t2) }),
{
    let times = times_of(entries, ext);
    assert(times.drop_last() =~= seq![times[0]]);
    assert(times.drop_last().drop_last() =~= Seq::<Timestamp>::empty());
    reveal_with_fuel(oldest_of, 3);
    reveal_with_fuel(newest_of, 3);
}

fn earlier_of(a: Timestamp, b: Timestamp) -> (t: Timestamp)
    ensures
        t == Timestamp::earlier(a, b),
{
    if a.is_not_after(&b) {
        a
    } else {
        b
    }
}

fn later_of(a: Timestamp, b: Timestamp) -> (t: Timestamp)
    ensures
        t == Timestamp::later(a, b),
{
    if a.is_not_after(&b) {
        b
    } else {
        a
    }
}

/// A scan in progress. Entries are handed in one by one, as the folder is
/// read, and none is kept.
pub struct Scanner {
    wanted: Vec<char>,
    stats: FileStats,
    seen: Ghost<Seq<DirEntryView>>,
}

impl Scanner {
    /// The extension that is looked for.
    pub closed spec fn extension(&self) -> Seq<char> {
        self.wanted@
    }

    /// The entries handed in so far, in order.
    pub closed spec fn entries(&self) -> Seq<DirEntryView> {
        self.seen@
    }

    /// The running result is the scan of the entries handed in so far.
    pub closed spec fn wf(&self) -> bool {
        self.stats == stats_of(self.seen@, self.wanted@)
    }

    /// Starts a scan for files with the extension `extension`.
    pub fn new(extension: &str) -> (scanner: Scanner)
        ensures
            scanner.wf(),
            scanner.extension() == extension@,
            scanner.entries() == Seq::<DirEntryView>::empty(),
    {
        let scanner = Scanner {
            wanted: chars_of(extension),
            stats: FileStats::empty(),
            seen: Ghost(Seq::empty()),
        };
        proof {
            reveal(Seq::filter);
            assert(times_of(scanner.seen@, scanner.wanted@) =~= Seq::<Timestamp>::empty());
        }
        scanner
    }

    /// Takes the next entry of the folder: its file name, and its
    /// modification time where the system gave one.
    pub fn add(&mut self, file_name: &str, modified: Option<Timestamp>)
        requires
            old(self).wf(),
        ensures
            final(self).wf(),
            final(self).extension() == old(self).extension(),
            final(self).entries() == old(self).entries().push(
                DirEntryView { file_name: file_name@, modified },
            ),
    {
        let ghost entry = DirEntryView { file_name: file_name@, modified };
        let ghost before = self.seen@;
        let ghost after = before.push(entry);
        let ghost ext = self.wanted@;
        proof {
            assert(after.take(before.len() as int) =~= before);
            assert(after.take(before.len() as int + 1) =~= after);
            lemma_filter_step(after, is_counted(ext), before.len() as int);
            lemma_oldest_newest(times_of(before, ext));
        }
        match modified {
            Some(time) => {
                let name = chars_of(file_name);
                if name_has_extension(&name, &self.wanted) {
                    proof {
                        assert(times_of(after, ext) =~= times_of(before, ext).push(time));
                        assert(times_of(after, ext).drop_last() =~= times_of(before, ext));
                    }
                    if self.stats.count < usize::MAX {
                        self.stats.count = self.stats.count + 1;
                    }
                    self.stats.oldest = match self.stats.oldest {
                        None => Some(time),
                        Some(t) => Some(earlier_of(t, time)),
                    };
                    self.stats.newest = match self.stats.newest {
                        None => Some(time),
                        Some(t) => Some(later_of(t, time)),
                    };
                }
            },
            None => {},
        }
        self.seen = Ghost(after);
    }

    /// The result of the scan so far.
    pub fn stats(&self) -> (stats: FileStats)
        requires
            self.wf(),
        ensures
            stats == stats_of(self.entries(), self.extension()),
            stats.wf(),
    {
        proof {
            lemma_stats_wf(self.seen@, self.wanted@);
        }
        self.stats
    }
}

/// Scans the entries of a folder for files with the extension `extension`.
pub fn scan_entries(entries: &Vec<DirEntryInfo>, extension: &str) -> (stats: FileStats)
    ensures
        stats == stats_of(entries.deep_view(), extension@),
        stats.wf(),
{
    let ghost es = entries.deep_view();
    let mut scanner = Scanner::new(extension);
    let mut i: usize = 0;
    assert(es.take(0) =~= Seq::<DirEntryView>::empty());
    while i < entries.len()
        invariant
            i <= entries.len(),
            es == entries.deep_view(),
            scanner.wf(),
            scanner.extension() == extension@,
            scanner.entries() == es.take(i as int),
        decreases entries.len() - i,
    {
        let entry = &entries[i];
        assert(entry@ == es[i as int]);
        scanner.add(entry.file_name.as_str(), entry.modified);
        assert(es.take(i + 1) =~= es.take(i as int).push(es[i as int]));
        i += 1;
    }
    assert(es.take(i as int) =~= es);
    scanner.stats()
}

/// What a scan of a listed folder yields, or the error that listing it gave.
pub open spec fn scan_result(listing: Listing, ext: Seq<char>) -> Result<FileStats, AppErrorView> {
    match listing {
        Listing::Missing => Ok(FileStats { count: 0, oldest: None, newest: None }),
        Listing::Denied(message) => Err(AppErrorView::PermissionDenied(message@)),
        Listing::Failed(message) => Err(AppErrorView::FileSystem(message@)),
        Listing::Entries(entries) => Ok(stats_of(entries.deep_view(), ext)),
    }
}

/// Scans a folder that the caller has listed. A folder that does not exist
/// holds nothing and is no error; one that may not be read is reported as
/// such, apart from other failures.
pub fn scan_folder(listing: &Listing, extension: &str) -> (result: Result<FileStats, AppError>)
    ensures
        outcome_of(result) == scan_result(*listing, extension@),
        result is Ok ==> result->Ok_0.wf(),
{
    match listing {
        Listing::Missing => Ok(FileStats::empty()),
        Listing::Denied(message) => Err(AppError::PermissionDenied(message.clone())),
        Listing::Failed(message) => Err(AppError::FileSystem(message.clone())),
        Listing::Entries(entries) => Ok(scan_entries(entries, extension)),
    }
}

/// The mathematical value of a scan's outcome.
pub open spec fn outcome_of(scan: Result<FileStats, AppError>) -> Result<FileStats, AppErrorView> {
    match scan {
        Ok(stats) => Ok(stats),
        Err(e) => Err(e@),
    }
}

} // verus!
