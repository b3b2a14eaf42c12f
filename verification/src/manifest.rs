//! The manifest of an export: which files the export produced, which of them
//! stood at the destination before, and what a later cleanup may delete.

use crate::plugins::{is_named, FoundFile, FoundFileView};
use crate::sequences::lemma_filter_map_has;
use crate::text::same_text;
use vstd::prelude::*;

verus! {

/// The name of the file in which an export persists its manifest, inside
/// the output directory.
pub const MANIFEST_FILE: &'static str = "omw-util.manifest";

/// The recovery record of an export.
#[derive(Debug)]
pub struct Manifest {
    /// The file names that the export resulted in, in the order in which
    /// they were processed: the files that were copied and those that
    /// already stood in place.
    pub files: Vec<String>,
    /// The file names that stood at the destination before the export. A
    /// cleanup never deletes them.
    pub existing_files: Vec<String>,
}

/// The mathematical value of a [`Manifest`].
pub ghost struct ManifestView {
    pub files: Seq<Seq<char>>,
    pub existing_files: Seq<Seq<char>>,
}

impl ManifestView {
    /// Every name among the existing files is also among the files.
    pub open spec fn wf(self) -> bool {
        forall|name: Seq<char>| #[trigger]
            self.existing_files.contains(name) ==> self.files.contains(name)
    }
}

impl View for Manifest {
    type V = ManifestView;

    open spec fn view(&self) -> ManifestView {
        ManifestView {
            files: self.files.deep_view(),
            existing_files: self.existing_files.deep_view(),
        }
    }
}

impl DeepView for Manifest {
    type V = ManifestView;

    open spec fn deep_view(&self) -> ManifestView {
        self@
    }
}

impl Default for Manifest {
    /// The manifest of an export that has processed nothing yet.
    fn default() -> (m: Manifest)
        ensures
            m@.files == Seq::<Seq<char>>::empty(),
            m@.existing_files == Seq::<Seq<char>>::empty(),
    {
        let m = Manifest { files: Vec::new(), existing_files: Vec::new() };
        assert(m@.files =~= Seq::<Seq<char>>::empty());
        assert(m@.existing_files =~= Seq::<Seq<char>>::empty());
        m
    }
}

/// The answers to `n` attempts, of which `flags` reports the first ones: an
/// attempt without a report counts as failed, a report without an attempt is
/// not looked at.
pub open spec fn outcomes(n: nat, flags: Seq<bool>) -> Seq<bool> {
    Seq::new(n, |i: int| i < flags.len() && flags[i])
}

/// Each of `n` attempts has a report in `flags`, and every report is a success.
pub open spec fn all_succeeded(n: nat, flags: Seq<bool>) -> bool {
    forall|i: int| 0 <= i < n ==> #[trigger] outcomes(n, flags)[i]
}

/// A name on which something was tried, with the outcome.
pub ghost struct Tried {
    pub name: Seq<char>,
    pub done: bool,
}

/// The names with the outcome of what was tried on each.
pub open spec fn tried(names: Seq<Seq<char>>, flags: Seq<bool>) -> Seq<Tried> {
    Seq::new(names.len(), |i: int| Tried { name: names[i], done: outcomes(names.len(), flags)[i] })
}

/// The name of an attempt, if the attempt ended as `done` says.
pub open spec fn name_if(done: bool) -> spec_fn(Tried) -> Option<Seq<char>> {
    |t: Tried|
        if t.done == done {
            Some(t.name)
        } else {
            None
        }
}

/// The names on which the attempt succeeded, in their order.
pub open spec fn succeeded(names: Seq<Seq<char>>, flags: Seq<bool>) -> Seq<Seq<char>> {
    tried(names, flags).filter_map(name_if(true))
}

/// The names on which the attempt failed, in their order.
pub open spec fn failed(names: Seq<Seq<char>>, flags: Seq<bool>) -> Seq<Seq<char>> {
    tried(names, flags).filter_map(name_if(false))
}

/// One resolved plugin of an export, with the outcome of its copy.
pub ghost struct Attempt {
    pub file: FoundFileView,
    pub copied: bool,
}

/// The resolved plugins of an export, each with the outcome of its copy.
pub open spec fn attempts(in_files: Seq<FoundFileView>, copied: Seq<bool>) -> Seq<Attempt> {
    Seq::new(
        in_files.len(),
        |i: int| Attempt { file: in_files[i], copied: outcomes(in_files.len(), copied)[i] },
    )
}

/// Whether a plugin already lies in the output directory, so that source and
/// destination are one path and nothing is to be copied.
pub open spec fn in_place(file: FoundFileView, out_path: Seq<char>) -> bool {
    file.dir == out_path
}

/// The name that an attempt adds to the files of the manifest: that of a
/// plugin in place, and that of one whose copy succeeded.
pub open spec fn recorded(out_path: Seq<char>) -> spec_fn(Attempt) -> Option<Seq<char>> {
    |a: Attempt|
        if in_place(a.file, out_path) || a.copied {
            Some(a.file.name)
        } else {
            None
        }
}

/// The name that an attempt adds to the existing files of the manifest: that
/// of a plugin in place.
pub open spec fn preexisting(out_path: Seq<char>) -> spec_fn(Attempt) -> Option<Seq<char>> {
    |a: Attempt|
        if in_place(a.file, out_path) {
            Some(a.file.name)
        } else {
            None
        }
}

/// The name that an attempt leaves out of the manifest: that of a plugin
/// that had to be copied and could not be.
pub open spec fn uncopied(out_path: Seq<char>) -> spec_fn(Attempt) -> Option<Seq<char>> {
    |a: Attempt|
        if in_place(a.file, out_path) || a.copied {
            None
        } else {
            Some(a.file.name)
        }
}

/// The manifest of an export of `in_files` to `out_path`, where `copied`
/// tells for each file whether its copy succeeded.
pub open spec fn manifest_of(
    in_files: Seq<FoundFileView>,
    out_path: Seq<char>,
    copied: Seq<bool>,
) -> ManifestView {
    let all = attempts(in_files, copied);
    ManifestView {
        files: all.filter_map(recorded(out_path)),
        existing_files: all.filter_map(preexisting(out_path)),
    }
}

/// The names of the plugins that an export of `in_files` to `out_path` could
/// not copy, in their order.
pub open spec fn failed_copies(
    in_files: Seq<FoundFileView>,
    out_path: Seq<char>,
    copied: Seq<bool>,
) -> Seq<Seq<char>> {
    attempts(in_files, copied).filter_map(uncopied(out_path))
}

/// The test that a name is none of `existing`.
pub open spec fn absent_from(existing: Seq<Seq<char>>) -> spec_fn(Seq<char>) -> bool {
    |name: Seq<char>| !existing.contains(name)
}

/// The names that a cleanup tries to delete, in order: the files of the
/// manifest, without every name that is among its existing files.
pub open spec fn targets(m: ManifestView) -> Seq<Seq<char>> {
    m.files.filter(absent_from(m.existing_files))
}

/// The files that a cleanup deleted, where `removed` tells for each of its
/// targets whether the deletion succeeded.
pub open spec fn deleted_files(m: ManifestView, removed: Seq<bool>) -> Seq<Seq<char>> {
    succeeded(targets(m), removed)
}

/// The files that a cleanup tried to delete and could not.
pub open spec fn undeleted_files(m: ManifestView, removed: Seq<bool>) -> Seq<Seq<char>> {
    failed(targets(m), removed)
}

/// Whether a plugin already lies in the output directory. Such a plugin is
/// not copied.
pub fn is_in_place(file: &FoundFile, out_path: &str) -> (b: bool)
    ensures
        b == in_place(file@, out_path@),
{
    same_text(file.dir.as_str(), out_path)
}

/// Records the copy phase of an export in `manifest`. `copied[i]` tells
/// whether the copy of `in_files[i]` to `out_path` succeeded; where it is
/// missing, the copy counts as failed. A plugin that already lies in
/// `out_path` is recorded among the files and among the existing files, one
/// whose copy succeeded among the files only, and one whose copy failed not
/// at all: its name is handed back. What `manifest` held before is replaced.
pub fn copy_files(
    in_files: &Vec<FoundFile>,
    out_path: &str,
    copied: &Vec<bool>,
    manifest: &mut Manifest,
) -> (not_copied: Vec<String>)
    ensures
        final(manifest)@ == manifest_of(in_files.deep_view(), out_path@, copied@),
        final(manifest)@.wf(),
        not_copied.deep_view() == failed_copies(in_files.deep_view(), out_path@, copied@),
{
    let mut existing: Vec<String> = Vec::new();
    let mut result: Vec<String> = Vec::new();
    let mut not_copied: Vec<String> = Vec::new();
    let ghost all = attempts(in_files.deep_view(), copied@);
    let mut i: usize = 0;
    while i < in_files.len()
        invariant
            i <= in_files.len(),
            all == attempts(in_files.deep_view(), copied@),
            result.deep_view() == all.take(i as int).filter_map(recorded(out_path@)),
            existing.deep_view() == all.take(i as int).filter_map(preexisting(out_path@)),
            not_copied.deep_view() == all.take(i as int).filter_map(uncopied(out_path@)),
        decreases in_files.len() - i,
    {
        let file = &in_files[i];
        let ghost result_before = result.deep_view();
        let ghost existing_before = existing.deep_view();
        let ghost failed_before = not_copied.deep_view();
        proof {
            all.lemma_filter_map_take_succ(recorded(out_path@), i as int);
            all.lemma_filter_map_take_succ(preexisting(out_path@), i as int);
            all.lemma_filter_map_take_succ(uncopied(out_path@), i as int);
            assert(all[i as int].file == file@);
        }
        if is_in_place(file, out_path) {
            let name = file.name.clone();
            let again = file.name.clone();
            result.push(name);
            existing.push(again);
            assert(result.deep_view() =~= result_before + seq![file@.name]);
            assert(existing.deep_view() =~= existing_before + seq![file@.name]);
        } else if i < copied.len() && copied[i] {
            let name = file.name.clone();
            result.push(name);
            assert(result.deep_view() =~= result_before + seq![file@.name]);
        } else {
            let name = file.name.clone();
            not_copied.push(name);
            assert(not_copied.deep_view() =~= failed_before + seq![file@.name]);
        }
        i += 1;
    }
    proof {
        assert(all.take(in_files.len() as int) =~= all);
        lemma_manifest_wf(in_files.deep_view(), out_path@, copied@);
    }
    manifest.files = result;
    manifest.existing_files = existing;
    not_copied
}

/// The names that a cleanup is to delete, in the order of the manifest's
/// files: every file but those whose name is among the existing files.
pub fn cleanup_targets(manifest: &Manifest) -> (names: Vec<String>)
    ensures
        names.deep_view() == targets(manifest@),
{
    let mut names: Vec<String> = Vec::new();
    let ghost files = manifest.files.deep_view();
    let ghost keep = absent_from(manifest.existing_files.deep_view());
    let mut i: usize = 0;
    proof {
        reveal(Seq::filter);
    }
    while i < manifest.files.len()
        invariant
            i <= manifest.files.len(),
            files == manifest.files.deep_view(),
            keep == absent_from(manifest.existing_files.deep_view()),
            names.deep_view() == files.take(i as int).filter(keep),
        decreases manifest.files.len() - i,
    {
        let file_name = &manifest.files[i];
        let ghost before = names.deep_view();
        proof {
            let head = files.take(i as int);
            assert(files.take(i + 1) =~= head.push(files[i as int]));
            head.lemma_filter_push(files[i as int], keep);
            assert(files[i as int] == file_name@);
        }
        if !is_named(&manifest.existing_files, file_name.as_str()) {
            let name = file_name.clone();
            names.push(name);
            assert(names.deep_view() =~= before + seq![file_name@]);
        }
        i += 1;
    }
    proof {
        assert(files.take(manifest.files.len() as int) =~= files);
    }
    names
}

/// What a cleanup did.
#[derive(Debug)]
pub struct CleanupReport {
    /// The files that were deleted, in the order of the manifest.
    pub deleted: Vec<String>,
    /// The files that were to be deleted and could not be.
    pub failed: Vec<String>,
    /// Whether as many files were deleted as the manifest's files exceed its
    /// existing files in number. Where this is false, not all files were
    /// deleted.
    pub complete: bool,
}

/// The mathematical value of a [`CleanupReport`].
pub ghost struct CleanupReportView {
    pub deleted: Seq<Seq<char>>,
    pub failed: Seq<Seq<char>>,
    pub complete: bool,
}

impl View for CleanupReport {
    type V = CleanupReportView;

    open spec fn view(&self) -> CleanupReportView {
        CleanupReportView {
            deleted: self.deleted.deep_view(),
            failed: self.failed.deep_view(),
            complete: self.complete,
        }
    }
}

impl DeepView for CleanupReport {
    type V = CleanupReportView;

    open spec fn deep_view(&self) -> CleanupReportView {
        self@
    }
}

/// What a cleanup by the manifest `m` did, where `removed` tells for each of
/// its targets whether the deletion succeeded.
pub open spec fn cleanup_report_of(m: ManifestView, removed: Seq<bool>) -> CleanupReportView {
    CleanupReportView {
        deleted: deleted_files(m, removed),
        failed: undeleted_files(m, removed),
        complete: deleted_files(m, removed).len() == m.files.len() - m.existing_files.len(),
    }
}

/// Sums up a cleanup: `removed[i]` tells whether the deletion of the `i`-th
/// of the manifest's targets succeeded; where it is missing, the deletion
/// counts as failed. A deletion that failed does not fail the cleanup.
pub fn cleanup_report(manifest: &Manifest, removed: &Vec<bool>) -> (report: CleanupReport)
    ensures
        report@ == cleanup_report_of(manifest@, removed@),
{
    let names = cleanup_targets(manifest);
    let ghost all = tried(names.deep_view(), removed@);
    let mut deleted: Vec<String> = Vec::new();
    let mut failed: Vec<String> = Vec::new();
    let mut i: usize = 0;
    while i < names.len()
        invariant
            i <= names.len(),
            all == tried(names.deep_view(), removed@),
            deleted.deep_view() == all.take(i as int).filter_map(name_if(true)),
            failed.deep_view() == all.take(i as int).filter_map(name_if(false)),
        decreases names.len() - i,
    {
        let ghost deleted_before = deleted.deep_view();
        let ghost failed_before = failed.deep_view();
        proof {
            all.lemma_filter_map_take_succ(name_if(true), i as int);
            all.lemma_filter_map_take_succ(name_if(false), i as int);
            assert(all[i as int].name == names[i as int]@);
        }
        let name = names[i].clone();
        if i < removed.len() && removed[i] {
            deleted.push(name);
            assert(deleted.deep_view() =~= deleted_before + seq![name@]);
        } else {
            failed.push(name);
            assert(failed.deep_view() =~= failed_before + seq![name@]);
        }
        i += 1;
    }
    proof {
        assert(all.take(names.len() as int) =~= all);
    }
    let complete = manifest.existing_files.len() <= manifest.files.len() && deleted.len()
        == manifest.files.len() - manifest.existing_files.len();
    CleanupReport { deleted, failed, complete }
}

/// Every manifest that a copy phase records is well formed.
pub proof fn lemma_manifest_wf(in_files: Seq<FoundFileView>, out_path: Seq<char>, copied: Seq<bool>)
    ensures
        manifest_of(in_files, out_path, copied).wf(),
{
    let all = attempts(in_files, copied);
    let m = manifest_of(in_files, out_path, copied);
    assert forall|name: Seq<char>| #[trigger] m.existing_files.contains(name) implies m.files.contains(
        name,
    ) by {
        all.lemma_filter_map_contains(preexisting(out_path), name);
        let a = choose|a: Attempt| #[trigger] all.contains(a) && preexisting(out_path)(a) == Some(name);
        lemma_filter_map_has(all, recorded(out_path), a, name);
    }
}

} // verus!
