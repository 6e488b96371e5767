//! Names under which encoded frames are archived on local storage.
//!
//! A frame taken on display `index` at local time `stamp` is archived as
//! `target/screenshots/{stamp}_{index}.webp`. The index keeps apart the displays of one
//! second, the stamp the cycles.

use vstd::prelude::*;
use crate::decimal::{decimal, decimal_digits, is_digit, lemma_decimal_injective, lemma_decimal_is_digits};
use crate::error::{PipelineError, PipelineErrorView};

verus! {

/// The directory that holds the archive, with its trailing separator.
pub open spec fn archive_dir() -> Seq<char> {
    seq![
        't', 'a', 'r', 'g', 'e', 't', '/', 's', 'c', 'r', 'e', 'e', 'n', 's', 'h', 'o', 't', 's',
        '/',
    ]
}

/// The extension of an archived frame, with its leading dot.
pub open spec fn archive_suffix() -> Seq<char> {
    seq!['.', 'w', 'e', 'b', 'p']
}

/// The file name of the frame taken on display `index` at local time `stamp`.
pub open spec fn archive_name_of(stamp: Seq<char>, index: nat) -> Seq<char> {
    stamp + seq!['_'] + decimal_digits(index) + archive_suffix()
}

/// The path, relative to the working directory, of that frame's file.
pub open spec fn archive_path_of(stamp: Seq<char>, index: nat) -> Seq<char> {
    archive_dir() + archive_name_of(stamp, index)
}

/// A stamp followed by an underscore and digits splits in one way only.
proof fn lemma_stem_splits_once(s1: Seq<char>, d1: Seq<char>, s2: Seq<char>, d2: Seq<char>)
    requires
        s1 + seq!['_'] + d1 == s2 + seq!['_'] + d2,
        forall|i: int| 0 <= i < d1.len() ==> d1[i] != '_',
        forall|i: int| 0 <= i < d2.len() ==> d2[i] != '_',
    ensures
        s1 == s2,
        d1 == d2,
{
    let a = s1 + seq!['_'] + d1;
    let b = s2 + seq!['_'] + d2;
    assert(a.len() == s1.len() + 1 + d1.len());
    assert(b.len() == s2.len() + 1 + d2.len());
    if d1.len() < d2.len() {
        let k = s1.len() as int;
        assert(a[k] == '_');
        assert(b[k] == d2[k - s2.len() - 1]);
        assert(false);
    }
    if d2.len() < d1.len() {
        let k = s2.len() as int;
        assert(b[k] == '_');
        assert(a[k] == d1[k - s1.len() - 1]);
        assert(false);
    }
    assert(s1.len() == s2.len());
    assert forall|i: int| 0 <= i < s1.len() implies s1[i] == s2[i] by {
        assert(a[i] == s1[i]);
        assert(b[i] == s2[i]);
    }
    assert(s1 =~= s2);
    assert forall|i: int| 0 <= i < d1.len() implies d1[i] == d2[i] by {
        assert(a[s1.len() + 1 + i] == d1[i]);
        assert(b[s2.len() + 1 + i] == d2[i]);
    }
    assert(d1 =~= d2);
}

/// Two frames share an archive name only if they were taken at the same stamp on the same
/// display. So the displays of one second never collide, and neither do two cycles that
/// differ in their stamp.
pub proof fn lemma_archive_name_injective(
    stamp1: Seq<char>,
    index1: nat,
    stamp2: Seq<char>,
    index2: nat,
)
    requires
        archive_name_of(stamp1, index1) == archive_name_of(stamp2, index2),
    ensures
        stamp1 == stamp2,
        index1 == index2,
{
    let d1 = decimal_digits(index1);
    let d2 = decimal_digits(index2);
    let stem1 = stamp1 + seq!['_'] + d1;
    let stem2 = stamp2 + seq!['_'] + d2;
    let name1 = archive_name_of(stamp1, index1);
    let name2 = archive_name_of(stamp2, index2);
    assert(name1.len() == stem1.len() + 5);
    assert(name2.len() == stem2.len() + 5);
    assert forall|i: int| 0 <= i < stem1.len() implies stem1[i] == stem2[i] by {
        assert(name1[i] == stem1[i]);
        assert(name2[i] == stem2[i]);
    }
    assert(stem1 =~= stem2);
    lemma_decimal_is_digits(index1);
    lemma_decimal_is_digits(index2);
    assert forall|i: int| 0 <= i < d1.len() implies d1[i] != '_' by {
        assert(is_digit(d1[i]));
    }
    assert forall|i: int| 0 <= i < d2.len() implies d2[i] != '_' by {
        assert(is_digit(d2[i]));
    }
    lemma_stem_splits_once(stamp1, d1, stamp2, d2);
    lemma_decimal_injective(index1, index2);
}

/// Two frames share an archive path only if they were taken at the same stamp on the same
/// display: no file of the archive is ever written twice by frames that differ in either.
pub proof fn lemma_archive_path_injective(
    stamp1: Seq<char>,
    index1: nat,
    stamp2: Seq<char>,
    index2: nat,
)
    requires
        archive_path_of(stamp1, index1) == archive_path_of(stamp2, index2),
    ensures
        stamp1 == stamp2,
        index1 == index2,
{
    let first = archive_path_of(stamp1, index1);
    let second = archive_path_of(stamp2, index2);
    let from = archive_dir().len() as int;
    assert(archive_name_of(stamp1, index1) =~= first.subrange(from, first.len() as int));
    assert(archive_name_of(stamp2, index2) =~= second.subrange(from, second.len() as int));
    lemma_archive_name_injective(stamp1, index1, stamp2, index2);
}

/// Two displays captured within the same second get different archive names and paths.
pub proof fn lemma_same_stamp_no_collision(stamp: Seq<char>, index1: nat, index2: nat)
    requires
        index1 != index2,
    ensures
        archive_name_of(stamp, index1) != archive_name_of(stamp, index2),
        archive_path_of(stamp, index1) != archive_path_of(stamp, index2),
{
    if archive_name_of(stamp, index1) == archive_name_of(stamp, index2) {
        lemma_archive_name_injective(stamp, index1, stamp, index2);
    }
    if archive_path_of(stamp, index1) == archive_path_of(stamp, index2) {
        lemma_archive_path_injective(stamp, index1, stamp, index2);
    }
}

/// The file name of the frame taken on display `index` at local time `stamp`.
pub fn archive_name(stamp: &str, index: usize) -> (name: String)
    ensures
        name@ == archive_name_of(stamp@, index as nat),
{
    let mut name = String::from_str(stamp);
    name.append("_");
    let digits = decimal(index as u64);
    name.append(digits.as_str());
    name.append(".webp");
    proof {
        reveal_strlit("_");
        reveal_strlit(".webp");
        assert("_"@ =~= seq!['_']);
        assert(".webp"@ =~= archive_suffix());
    }
    name
}

/// The path under which that frame is written, relative to the working directory.
pub fn archive_path(stamp: &str, index: usize) -> (path: String)
    ensures
        path@ == archive_path_of(stamp@, index as nat),
{
    let mut path = String::from_str("target/screenshots/");
    let name = archive_name(stamp, index);
    path.append(name.as_str());
    proof {
        reveal_strlit("target/screenshots/");
        assert("target/screenshots/"@ =~= archive_dir());
    }
    path
}

/// One file to write into the archive: where, and what.
#[derive(Clone, Debug, PartialEq, Eq)]
pub struct ArchiveJob {
    pub path: String,
    pub blob: Vec<u8>,
    pub display: usize,
}

/// What contracts say of an `ArchiveJob`.
pub ghost struct ArchiveJobView {
    pub path: Seq<char>,
    pub blob: Seq<u8>,
    pub display: nat,
}

impl View for ArchiveJob {
    type V = ArchiveJobView;

    open spec fn view(&self) -> ArchiveJobView {
        ArchiveJobView { path: self.path@, blob: self.blob@, display: self.display as nat }
    }
}

/// What the attempt to write one archive file means: the path of the file, or the display's
/// `Storage` failure with the detail of the attempt.
pub open spec fn archive_result_of(job: ArchiveJobView, written: Result<(), String>) -> Result<
    Seq<char>,
    PipelineErrorView,
> {
    match written {
        Ok(()) => Ok(job.path),
        Err(detail) => Err(PipelineErrorView::Storage { display: job.display, detail: detail@ }),
    }
}

/// An archive result as contracts see it.
pub open spec fn archive_view(result: Result<String, PipelineError>) -> Result<
    Seq<char>,
    PipelineErrorView,
> {
    match result {
        Ok(path) => Ok(path@),
        Err(error) => Err(error@),
    }
}

/// Judges the attempt to write one archive file. A file that was written is known by its
/// path; one that was not is a `Storage` failure of its display, which is reported and holds
/// up nothing else.
pub fn archive_result(job: &ArchiveJob, written: Result<(), String>) -> (result: Result<
    String,
    PipelineError,
>)
    ensures
        archive_view(result) == archive_result_of(job@, written),
{
    match written {
        Ok(()) => Ok(job.path.clone()),
        Err(detail) => Err(PipelineError::Storage { display: job.display, detail }),
    }
}

} // verus!
