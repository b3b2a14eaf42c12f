//! The cleanup engine: by the manifest of an export, delete the files that
//! the export added and spare those that stood there before.
//!
//! The engine does no work on the file system itself. It is asked, with all
//! that was found out so far, what to do next; whoever runs it does that,
//! notes what came of it, and asks again.

use crate::manifest::{
    absent_from, all_succeeded, cleanup_report, cleanup_report_of, cleanup_targets,
    deleted_files, name_if, outcomes, targets, tried, undeleted_files, CleanupReport,
    CleanupReportView, Manifest, ManifestView, Tried, MANIFEST_FILE,
};
use crate::paths::{settle_dir, settled_dir, PathProbe, PathProbeView};
use crate::sequences::{
    lemma_filter_map_has, lemma_filter_map_none, lemma_filter_map_parts,
    lemma_filter_no_duplicates, lemma_filter_parts, not_fn,
};
use vstd::pervasive::unreached;
use vstd::prelude::*;

verus! {

/// Why a cleanup failed.
#[derive(Clone, Copy, Debug, PartialEq, Eq, Structural)]
pub enum CleanupError {
    /// The given directory does not exist or is not a directory.
    InvalidDir,
    /// The directory holds no manifest.
    ManifestMissing,
    /// The manifest cannot be read or is no manifest.
    ManifestUnreadable,
}

/// What was found where the manifest of a directory should be.
#[derive(Debug)]
pub enum ManifestFile {
    /// There is no such file.
    Missing,
    /// The file cannot be read, or what it holds is no manifest.
    Unreadable,
    /// The manifest that the file holds.
    Found(Manifest),
}

/// The mathematical value of a [`ManifestFile`].
pub ghost enum ManifestFileView {
    Missing,
    Unreadable,
    Found(ManifestView),
}

impl DeepView for ManifestFile {
    type V = ManifestFileView;

    open spec fn deep_view(&self) -> ManifestFileView {
        match self {
            ManifestFile::Missing => ManifestFileView::Missing,
            ManifestFile::Unreadable => ManifestFileView::Unreadable,
            ManifestFile::Found(m) => ManifestFileView::Found(m@),
        }
    }
}

/// All that was found out in the course of a cleanup. A finding is `None`
/// until the cleanup has asked for it.
#[derive(Debug)]
pub struct CleanupFindings {
    /// The working directory.
    pub working_dir: Option<String>,
    /// What lies at the given directory.
    pub dir: Option<PathProbe>,
    /// What was found where the manifest should be.
    pub manifest: Option<ManifestFile>,
    /// For each file that was to be deleted, whether it was.
    pub removed: Option<Vec<bool>>,
}

/// The mathematical value of [`CleanupFindings`].
pub ghost struct CleanupFindingsView {
    pub working_dir: Option<Seq<char>>,
    pub dir: Option<PathProbeView>,
    pub manifest: Option<ManifestFileView>,
    pub removed: Option<Seq<bool>>,
}

impl DeepView for CleanupFindings {
    type V = CleanupFindingsView;

    open spec fn deep_view(&self) -> CleanupFindingsView {
        CleanupFindingsView {
            working_dir: self.working_dir.deep_view(),
            dir: self.dir.deep_view(),
            manifest: self.manifest.deep_view(),
            removed: match self.removed {
                Some(flags) => Some(flags@),
                None => None,
            },
        }
    }
}

impl CleanupFindings {
    /// Nothing found out yet.
    pub open spec fn none() -> CleanupFindingsView {
        CleanupFindingsView { working_dir: None, dir: None, manifest: None, removed: None }
    }

    /// The findings of a cleanup that has not begun.
    pub fn new() -> (found: CleanupFindings)
        ensures
            found.deep_view() == Self::none(),
    {
        CleanupFindings { working_dir: None, dir: None, manifest: None, removed: None }
    }
}

/// A cleanup: the directory that was asked for, and all that was found out.
#[derive(Debug)]
pub struct CleanupRun {
    /// The directory to clean up, if one was given.
    pub dir_option: Option<String>,
    /// What was found out so far.
    pub found: CleanupFindings,
}

/// The mathematical value of a [`CleanupRun`].
pub ghost struct CleanupRunView {
    pub dir_option: Option<Seq<char>>,
    pub found: CleanupFindingsView,
}

impl DeepView for CleanupRun {
    type V = CleanupRunView;

    open spec fn deep_view(&self) -> CleanupRunView {
        CleanupRunView { dir_option: self.dir_option.deep_view(), found: self.found.deep_view() }
    }
}

impl CleanupRun {
    /// A cleanup of the given directory, or of the working directory if
    /// none is given, that has not begun.
    pub fn new(dir_option: Option<String>) -> (run: CleanupRun)
        ensures
            run.deep_view() == (CleanupRunView {
                dir_option: dir_option.deep_view(),
                found: CleanupFindings::none(),
            }),
    {
        CleanupRun { dir_option, found: CleanupFindings::new() }
    }
}

/// What a cleanup asks for next, or how it ended.
#[derive(Debug)]
pub enum CleanupStep {
    /// Find the working directory and note it in `working_dir`.
    FindWorkingDir,
    /// Look what lies at `path` and note it in `dir`.
    ProbeDir { path: String },
    /// Read the manifest in the file `name` inside `dir` and note it in
    /// `manifest`.
    LoadManifest { dir: String, name: String },
    /// Delete the files `names` inside `dir`, one after another, and note in
    /// `removed` which deletions succeeded.
    DeleteFiles { dir: String, names: Vec<String> },
    /// The cleanup is over.
    Finished(Result<CleanupReport, CleanupError>),
}

/// The mathematical value of a [`CleanupStep`].
pub ghost enum CleanupStepView {
    FindWorkingDir,
    ProbeDir { path: Seq<char> },
    LoadManifest { dir: Seq<char>, name: Seq<char> },
    DeleteFiles { dir: Seq<char>, names: Seq<Seq<char>> },
    Finished(Result<CleanupReportView, CleanupError>),
}

impl DeepView for CleanupStep {
    type V = CleanupStepView;

    open spec fn deep_view(&self) -> CleanupStepView {
        match self {
            CleanupStep::FindWorkingDir => CleanupStepView::FindWorkingDir,
            CleanupStep::ProbeDir { path } => CleanupStepView::ProbeDir { path: path@ },
            CleanupStep::LoadManifest { dir, name } => CleanupStepView::LoadManifest {
                dir: dir@,
                name: name@,
            },
            CleanupStep::DeleteFiles { dir, names } => CleanupStepView::DeleteFiles {
                dir: dir@,
                names: names.deep_view(),
            },
            CleanupStep::Finished(Ok(report)) => CleanupStepView::Finished(Ok(report@)),
            CleanupStep::Finished(Err(error)) => CleanupStepView::Finished(Err(*error)),
        }
    }
}

/// The next step of a cleanup. The working directory is found first. A
/// given directory must exist and be a directory; without one the working
/// directory is cleaned up. The directory must hold a manifest that can be
/// read. Then every file of the manifest that is not among its existing
/// files is deleted; a deletion that fails does not fail the cleanup.
pub open spec fn cleanup_step(
    dir_option: Option<Seq<char>>,
    found: CleanupFindingsView,
) -> CleanupStepView {
    match found.working_dir {
        None => CleanupStepView::FindWorkingDir,
        Some(_) => match settled_dir(dir_option, found.working_dir, found.dir) {
            None => CleanupStepView::ProbeDir { path: dir_option.unwrap() },
            Some(None) => CleanupStepView::Finished(Err(CleanupError::InvalidDir)),
            Some(Some(dir)) => match found.manifest {
                None => CleanupStepView::LoadManifest { dir, name: MANIFEST_FILE@ },
                Some(ManifestFileView::Missing) => CleanupStepView::Finished(
                    Err(CleanupError::ManifestMissing),
                ),
                Some(ManifestFileView::Unreadable) => CleanupStepView::Finished(
                    Err(CleanupError::ManifestUnreadable),
                ),
                Some(ManifestFileView::Found(m)) => match found.removed {
                    None => CleanupStepView::DeleteFiles { dir, names: targets(m) },
                    Some(removed) => CleanupStepView::Finished(Ok(cleanup_report_of(m, removed))),
                },
            },
        },
    }
}

/// The next step of a cleanup of the given directory, or of the working
/// directory if none is given, with what was found out so far.
pub(crate) fn next_cleanup_step(dir_option: &Option<String>, found: &CleanupFindings) -> (step:
    CleanupStep)
    ensures
        step.deep_view() == cleanup_step(dir_option.deep_view(), found.deep_view()),
{
    if found.working_dir.is_none() {
        return CleanupStep::FindWorkingDir;
    }
    let dir = match settle_dir(dir_option, &found.working_dir, &found.dir) {
        None => match dir_option {
            Some(path) => {
                return CleanupStep::ProbeDir { path: path.clone() };
            },
            None => unreached(),
        },
        Some(None) => {
            return CleanupStep::Finished(Err(CleanupError::InvalidDir));
        },
        Some(Some(dir)) => dir,
    };
    match &found.manifest {
        None => CleanupStep::LoadManifest { dir, name: MANIFEST_FILE.to_owned() },
        Some(ManifestFile::Missing) => CleanupStep::Finished(Err(CleanupError::ManifestMissing)),
        Some(ManifestFile::Unreadable) => CleanupStep::Finished(
            Err(CleanupError::ManifestUnreadable),
        ),
        Some(ManifestFile::Found(manifest)) => match &found.removed {
            None => CleanupStep::DeleteFiles { dir, names: cleanup_targets(manifest) },
            Some(removed) => CleanupStep::Finished(Ok(cleanup_report(manifest, removed))),
        },
    }
}

/// Cleans up a directory by its manifest, step by step: tells what is to be
/// done next, given what was found out so far, or how the cleanup ended.
pub fn cleanup(run: &CleanupRun) -> (step: CleanupStep)
    ensures
        step.deep_view() == cleanup_step(run.deep_view().dir_option, run.deep_view().found),
{
    next_cleanup_step(&run.dir_option, &run.found)
}

/// What deleting `names` one after another does in a directory that holds
/// exactly the files `present` and that nothing else changes: for each name,
/// whether a file was deleted. A file can be deleted once.
pub open spec fn removals(present: Set<Seq<char>>, names: Seq<Seq<char>>) -> Seq<bool> {
    Seq::new(names.len(), |i: int| present.contains(names[i]) && !names.take(i).contains(names[i]))
}

/// A cleanup never tries to delete a name that is among the existing files
/// of its manifest, and tries nothing but files of the manifest.
pub proof fn lemma_cleanup_spares_existing(m: ManifestView, name: Seq<char>)
    ensures
        m.existing_files.contains(name) ==> !targets(m).contains(name),
        targets(m).contains(name) ==> m.files.contains(name),
        targets(m).len() <= m.files.len(),
{
    let keep = absent_from(m.existing_files);
    m.files.lemma_filter_len(keep);
    if targets(m).contains(name) {
        let i = choose|i: int| 0 <= i < targets(m).len() && targets(m)[i] == name;
        m.files.lemma_filter_pred(keep, i);
        m.files.lemma_filter_contains_rev(keep, name);
    }
}

/// Every target of a cleanup is accounted for: it was deleted or it is
/// among the files that could not be deleted. No existing file is among
/// either.
pub proof fn lemma_cleanup_tally(m: ManifestView, removed: Seq<bool>)
    ensures
        deleted_files(m, removed).len() + undeleted_files(m, removed).len() == targets(m).len(),
        targets(m).len() <= m.files.len(),
        forall|name: Seq<char>| #[trigger]
            m.existing_files.contains(name) ==> !deleted_files(m, removed).contains(name),
{
    let all = tried(targets(m), removed);
    lemma_filter_map_parts(all, name_if(true), name_if(false));
    m.files.lemma_filter_len(absent_from(m.existing_files));
    assert forall|name: Seq<char>| #[trigger] m.existing_files.contains(name) implies !deleted_files(
        m,
        removed,
    ).contains(name) by {
        if deleted_files(m, removed).contains(name) {
            all.lemma_filter_map_contains(name_if(true), name);
            let t = choose|t: Tried| #[trigger]
                all.contains(t) && name_if(true)(t) == Some(name);
            let i = choose|i: int| 0 <= i < all.len() && all[i] == t;
            assert(targets(m)[i] == name);
            lemma_cleanup_spares_existing(m, name);
        }
    }
}

/// When the count of a cleanup tells the truth. For a well-formed manifest
/// in which no name is repeated, the cleanup has as many targets as the
/// files exceed the existing files in number; so it deleted that many files
/// exactly if every one of its deletions succeeded.
pub proof fn lemma_cleanup_complete(m: ManifestView, removed: Seq<bool>)
    requires
        m.wf(),
        m.files.no_duplicates(),
        m.existing_files.no_duplicates(),
    ensures
        targets(m).len() == m.files.len() - m.existing_files.len(),
        deleted_files(m, removed).len() == m.files.len() - m.existing_files.len()
            <==> all_succeeded(targets(m).len(), removed),
{
    let keep = absent_from(m.existing_files);
    let spared = m.files.filter(not_fn(keep));
    lemma_filter_parts(m.files, keep);
    lemma_filter_no_duplicates(m.files, not_fn(keep));
    assert forall|name: Seq<char>| spared.to_set().contains(name) <==> m.existing_files.to_set().contains(
        name,
    ) by {
        if spared.contains(name) {
            let i = choose|i: int| 0 <= i < spared.len() && spared[i] == name;
            m.files.lemma_filter_pred(not_fn(keep), i);
        }
        if m.existing_files.contains(name) {
            assert(m.files.contains(name));
            let i = choose|i: int| 0 <= i < m.files.len() && m.files[i] == name;
            assert(not_fn(keep)(m.files[i]));
            m.files.lemma_filter_contains(not_fn(keep), i);
        }
    }
    assert(spared.to_set() =~= m.existing_files.to_set());
    spared.unique_seq_to_set();
    m.existing_files.unique_seq_to_set();
    let all = tried(targets(m), removed);
    lemma_filter_map_parts(all, name_if(true), name_if(false));
    if all_succeeded(targets(m).len(), removed) {
        assert forall|i: int| 0 <= i < all.len() implies (#[trigger] name_if(false)(all[i]))
            is None by {
            assert(outcomes(targets(m).len(), removed)[i]);
        }
        lemma_filter_map_none(all, name_if(false));
    } else {
        let i = choose|i: int| 0 <= i < targets(m).len() && !outcomes(targets(m).len(), removed)[i];
        assert(all.contains(all[i]));
        lemma_filter_map_has(all, name_if(false), all[i], all[i].name);
    }
}

} // verus!
