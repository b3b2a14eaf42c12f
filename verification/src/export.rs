//! The export engine: resolve the content entries of a configuration, copy
//! the plugins to an output directory, record what was done in a manifest
//! and rewrite the INI file. Behind the engine stands what holds of an
//! export and of the cleanup that follows it.
//!
//! The engine does no work on the file system itself. It is asked, with all
//! that was found out so far, what to do next; whoever runs it does that,
//! notes what came of it, and asks again.

use crate::cleanup::{
    cleanup_step, lemma_cleanup_spares_existing, lemma_cleanup_tally, removals,
    CleanupFindingsView, CleanupStepView, ManifestFileView,
};
use crate::config::{content_entries, data_dirs, parse_cfg};
use crate::manifest::{
    absent_from, all_succeeded, attempts, copy_files, deleted_files, failed_copies, in_place,
    is_in_place, lemma_manifest_wf, manifest_of, name_if, outcomes, preexisting, recorded,
    targets, tried, uncopied, undeleted_files, Manifest, ManifestView, MANIFEST_FILE,
};
use crate::paths::{settle_cfg, settle_dir, settled_cfg, settled_dir, PathProbe, PathProbeView};
use crate::plugins::{
    get_plugins, lemma_resolved_file, resolved, Folder, FolderView, FoundFile, FoundFileView,
};
use crate::rewrite::{rewrite_ini, rewritten_ini, INI_FILE};
use crate::sequences::{
    lemma_both_kept, lemma_filter_all, lemma_filter_map_has, lemma_filter_map_none,
    lemma_filter_map_parts, lemma_filter_map_total,
};
use vstd::pervasive::unreached;
use vstd::prelude::*;

verus! {

/// Why an export failed.
#[derive(Clone, Copy, Debug, PartialEq, Eq, Structural)]
pub enum ExportError {
    /// There is no configuration: the given path is not an existing regular
    /// file, or none was given and the platform has no default.
    ConfigNotFound,
    /// The given output directory does not exist or is not a directory.
    InvalidOutputDir,
    /// The configuration cannot be read.
    ParseFailure,
    /// The INI file cannot be read.
    IniReadFailure,
    /// The INI file cannot be opened for writing.
    IniWriteFailure,
}

/// What an export did.
#[derive(Debug)]
pub struct ExportReport {
    /// The manifest that was persisted at the output directory.
    pub manifest: Manifest,
    /// The resolved plugins that could not be copied.
    pub failed: Vec<String>,
    /// The number of files that the export resulted in.
    pub count: usize,
    /// Whether as many plugins were resolved as the configuration names.
    /// Where this is false, not all content plugins were found in the search
    /// directories; the export is carried out all the same.
    pub all_found: bool,
}

/// The mathematical value of an [`ExportReport`].
pub ghost struct ExportReportView {
    pub manifest: ManifestView,
    pub failed: Seq<Seq<char>>,
    pub count: nat,
    pub all_found: bool,
}

impl View for ExportReport {
    type V = ExportReportView;

    open spec fn view(&self) -> ExportReportView {
        ExportReportView {
            manifest: self.manifest@,
            failed: self.failed.deep_view(),
            count: self.count as nat,
            all_found: self.all_found,
        }
    }
}

impl DeepView for ExportReport {
    type V = ExportReportView;

    open spec fn deep_view(&self) -> ExportReportView {
        self@
    }
}

/// What an export of the plugins `in_files`, resolved for the content
/// entries `plugin_names`, to `out_path` did, where `copied` tells for each
/// plugin whether its copy succeeded.
pub open spec fn export_report_of(
    plugin_names: Seq<Seq<char>>,
    in_files: Seq<FoundFileView>,
    out_path: Seq<char>,
    copied: Seq<bool>,
) -> ExportReportView {
    ExportReportView {
        manifest: manifest_of(in_files, out_path, copied),
        failed: failed_copies(in_files, out_path, copied),
        count: manifest_of(in_files, out_path, copied).files.len(),
        all_found: in_files.len() == plugin_names.len(),
    }
}

/// Sums up an export: `plugin_names` are the content entries of the
/// configuration, `in_files` the plugins resolved for them, and `copied[i]`
/// tells whether the copy of `in_files[i]` to `out_path` succeeded (a
/// missing answer counts as failed). Neither an unresolved entry nor a
/// failed copy fails the export.
pub fn export_report(
    plugin_names: &Vec<String>,
    in_files: &Vec<FoundFile>,
    out_path: &str,
    copied: &Vec<bool>,
) -> (report: ExportReport)
    ensures
        report@ == export_report_of(
            plugin_names.deep_view(),
            in_files.deep_view(),
            out_path@,
            copied@,
        ),
        report.manifest@.wf(),
{
    let all_found = in_files.len() == plugin_names.len();
    let mut manifest = Manifest::default();
    let failed = copy_files(in_files, out_path, copied, &mut manifest);
    let count = manifest.files.len();
    ExportReport { manifest, failed, count, all_found }
}

/// A resolved plugin with what is to be done about it.
#[derive(Debug)]
pub struct CopyJob {
    /// The plugin.
    pub file: FoundFile,
    /// Whether the plugin lies in the output directory already. Such a
    /// plugin is not copied.
    pub in_place: bool,
}

/// The mathematical value of a [`CopyJob`].
pub ghost struct CopyJobView {
    pub file: FoundFileView,
    pub in_place: bool,
}

impl DeepView for CopyJob {
    type V = CopyJobView;

    open spec fn deep_view(&self) -> CopyJobView {
        CopyJobView { file: self.file@, in_place: self.in_place }
    }
}

/// The job for a plugin of an export to `out_path`.
pub open spec fn job_for(out_path: Seq<char>) -> spec_fn(FoundFileView) -> CopyJobView {
    |file: FoundFileView| CopyJobView { file, in_place: in_place(file, out_path) }
}

/// The jobs of an export of `in_files` to `out_path`, one for each plugin.
pub open spec fn jobs_of(in_files: Seq<FoundFileView>, out_path: Seq<char>) -> Seq<CopyJobView> {
    in_files.map_values(job_for(out_path))
}

/// All that was found out in the course of an export. A finding is `None`
/// until the export has asked for it.
#[derive(Debug)]
pub struct ExportFindings {
    /// What lies at the given configuration path.
    pub cfg: Option<PathProbe>,
    /// The platform's default configuration, or `None` inside if there is
    /// none.
    pub default_cfg: Option<Option<String>>,
    /// The working directory.
    pub working_dir: Option<String>,
    /// What lies at the given output directory.
    pub out: Option<PathProbe>,
    /// The lines of the configuration, or `None` inside if it cannot be read.
    pub cfg_lines: Option<Option<Vec<String>>>,
    /// The search directories with what lies in them, in their order.
    pub folders: Option<Vec<Folder>>,
    /// For each copy job, whether the plugin was copied.
    pub copied: Option<Vec<bool>>,
    /// Whether the manifest could be saved.
    pub manifest_saved: Option<bool>,
    /// The lines of the INI file, or `None` inside if it cannot be read.
    pub ini_lines: Option<Option<Vec<String>>>,
    /// Whether the INI file could be opened for writing.
    pub ini_written: Option<bool>,
}

/// The mathematical value of [`ExportFindings`].
pub ghost struct ExportFindingsView {
    pub cfg: Option<PathProbeView>,
    pub default_cfg: Option<Option<Seq<char>>>,
    pub working_dir: Option<Seq<char>>,
    pub out: Option<PathProbeView>,
    pub cfg_lines: Option<Option<Seq<Seq<char>>>>,
    pub folders: Option<Seq<FolderView>>,
    pub copied: Option<Seq<bool>>,
    pub manifest_saved: Option<bool>,
    pub ini_lines: Option<Option<Seq<Seq<char>>>>,
    pub ini_written: Option<bool>,
}

impl DeepView for ExportFindings {
    type V = ExportFindingsView;

    open spec fn deep_view(&self) -> ExportFindingsView {
        ExportFindingsView {
            cfg: self.cfg.deep_view(),
            default_cfg: self.default_cfg.deep_view(),
            working_dir: self.working_dir.deep_view(),
            out: self.out.deep_view(),
            cfg_lines: self.cfg_lines.deep_view(),
            folders: self.folders.deep_view(),
            copied: match self.copied {
                Some(flags) => Some(flags@),
                None => None,
            },
            manifest_saved: self.manifest_saved,
            ini_lines: self.ini_lines.deep_view(),
            ini_written: self.ini_written,
        }
    }
}

impl ExportFindings {
    /// Nothing found out yet.
    pub open spec fn none() -> ExportFindingsView {
        ExportFindingsView {
            cfg: None,
            default_cfg: None,
            working_dir: None,
            out: None,
            cfg_lines: None,
            folders: None,
            copied: None,
            manifest_saved: None,
            ini_lines: None,
            ini_written: None,
        }
    }

    /// The findings of an export that has not begun.
    pub fn new() -> (found: ExportFindings)
        ensures
            found.deep_view() == Self::none(),
    {
        ExportFindings {
            cfg: None,
            default_cfg: None,
            working_dir: None,
            out: None,
            cfg_lines: None,
            folders: None,
            copied: None,
            manifest_saved: None,
            ini_lines: None,
            ini_written: None,
        }
    }
}

/// An export: what was asked for, and all that was found out.
#[derive(Debug)]
pub struct ExportRun {
    /// The configuration to export from, if one was given.
    pub cfg_path_option: Option<String>,
    /// The directory to export to, if one was given.
    pub out_path_option: Option<String>,
    /// Whether plugins with the extended extensions are exported too.
    pub use_omw_plugins: bool,
    /// What was found out so far.
    pub found: ExportFindings,
}

/// The mathematical value of an [`ExportRun`].
pub ghost struct ExportRunView {
    pub cfg_path_option: Option<Seq<char>>,
    pub out_path_option: Option<Seq<char>>,
    pub use_omw_plugins: bool,
    pub found: ExportFindingsView,
}

impl DeepView for ExportRun {
    type V = ExportRunView;

    open spec fn deep_view(&self) -> ExportRunView {
        ExportRunView {
            cfg_path_option: self.cfg_path_option.deep_view(),
            out_path_option: self.out_path_option.deep_view(),
            use_omw_plugins: self.use_omw_plugins,
            found: self.found.deep_view(),
        }
    }
}

impl ExportRun {
    /// An export that has not begun. Without a configuration the platform's
    /// default is exported from, without an output directory the working
    /// directory is exported to.
    pub fn new(
        cfg_path_option: Option<String>,
        out_path_option: Option<String>,
        use_omw_plugins: bool,
    ) -> (run: ExportRun)
        ensures
            run.deep_view() == (ExportRunView {
                cfg_path_option: cfg_path_option.deep_view(),
                out_path_option: out_path_option.deep_view(),
                use_omw_plugins,
                found: ExportFindings::none(),
            }),
    {
        ExportRun { cfg_path_option, out_path_option, use_omw_plugins, found: ExportFindings::new() }
    }
}

/// What an export asks for next, or how it ended.
#[derive(Debug)]
pub enum ExportStep {
    /// Look what lies at `path` and note it in `cfg`.
    ProbeCfg { path: String },
    /// Look for the platform's default configuration and note it in
    /// `default_cfg`.
    FindDefaultCfg,
    /// Find the working directory and note it in `working_dir`.
    FindWorkingDir,
    /// Look what lies at `path` and note it in `out`.
    ProbeOut { path: String },
    /// Read the lines of the configuration at `path` and note them in
    /// `cfg_lines`.
    ReadCfg { path: String },
    /// Look what lies in each of the directories `dirs` and note it in
    /// `folders`, in the order of `dirs`.
    ListFolders { dirs: Vec<String> },
    /// Copy to `out_path` each plugin of `jobs` that is not in place, and
    /// note for each job in `copied` whether the plugin was copied.
    CopyFiles { jobs: Vec<CopyJob>, out_path: String },
    /// Save `manifest` in the file `name` inside `dir` and note in
    /// `manifest_saved` whether that succeeded.
    SaveManifest { dir: String, name: String, manifest: Manifest },
    /// Read the lines of the file `name` in the directory above `dir` and
    /// note them in `ini_lines`.
    ReadIni { dir: String, name: String },
    /// Write `lines` to a new file `name` in the directory above `dir` and
    /// note in `ini_written` whether the file could be opened. A line that
    /// cannot be written is passed over.
    WriteIni { dir: String, name: String, lines: Vec<String> },
    /// The export is over.
    Finished(Result<ExportReport, ExportError>),
}

/// The mathematical value of an [`ExportStep`].
pub ghost enum ExportStepView {
    ProbeCfg { path: Seq<char> },
    FindDefaultCfg,
    FindWorkingDir,
    ProbeOut { path: Seq<char> },
    ReadCfg { path: Seq<char> },
    ListFolders { dirs: Seq<Seq<char>> },
    CopyFiles { jobs: Seq<CopyJobView>, out_path: Seq<char> },
    SaveManifest { dir: Seq<char>, name: Seq<char>, manifest: ManifestView },
    ReadIni { dir: Seq<char>, name: Seq<char> },
    WriteIni { dir: Seq<char>, name: Seq<char>, lines: Seq<Seq<char>> },
    Finished(Result<ExportReportView, ExportError>),
}

impl DeepView for ExportStep {
    type V = ExportStepView;

    open spec fn deep_view(&self) -> ExportStepView {
        match self {
            ExportStep::ProbeCfg { path } => ExportStepView::ProbeCfg { path: path@ },
            ExportStep::FindDefaultCfg => ExportStepView::FindDefaultCfg,
            ExportStep::FindWorkingDir => ExportStepView::FindWorkingDir,
            ExportStep::ProbeOut { path } => ExportStepView::ProbeOut { path: path@ },
            ExportStep::ReadCfg { path } => ExportStepView::ReadCfg { path: path@ },
            ExportStep::ListFolders { dirs } => ExportStepView::ListFolders {
                dirs: dirs.deep_view(),
            },
            ExportStep::CopyFiles { jobs, out_path } => ExportStepView::CopyFiles {
                jobs: jobs.deep_view(),
                out_path: out_path@,
            },
            ExportStep::SaveManifest { dir, name, manifest } => ExportStepView::SaveManifest {
                dir: dir@,
                name: name@,
                manifest: manifest@,
            },
            ExportStep::ReadIni { dir, name } => ExportStepView::ReadIni { dir: dir@, name: name@ },
            ExportStep::WriteIni { dir, name, lines } => ExportStepView::WriteIni {
                dir: dir@,
                name: name@,
                lines: lines.deep_view(),
            },
            ExportStep::Finished(Ok(report)) => ExportStepView::Finished(Ok(report@)),
            ExportStep::Finished(Err(error)) => ExportStepView::Finished(Err(*error)),
        }
    }
}

/// The next step of an export once its paths are settled and its
/// configuration is read.
pub open spec fn export_step_from(
    lines: Seq<Seq<char>>,
    out_path: Seq<char>,
    use_omw_plugins: bool,
    found: ExportFindingsView,
) -> ExportStepView {
    match found.folders {
        None => ExportStepView::ListFolders { dirs: data_dirs(lines) },
        Some(folders) => {
            let names = content_entries(lines);
            let in_files = resolved(folders, names, use_omw_plugins);
            match found.copied {
                None => ExportStepView::CopyFiles { jobs: jobs_of(in_files, out_path), out_path },
                Some(copied) => {
                    let report = export_report_of(names, in_files, out_path, copied);
                    match found.manifest_saved {
                        None => ExportStepView::SaveManifest {
                            dir: out_path,
                            name: MANIFEST_FILE@,
                            manifest: report.manifest,
                        },
                        Some(_) => match found.ini_lines {
                            None => ExportStepView::ReadIni { dir: out_path, name: INI_FILE@ },
                            Some(None) => ExportStepView::Finished(
                                Err(ExportError::IniReadFailure),
                            ),
                            Some(Some(ini)) => match found.ini_written {
                                None => ExportStepView::WriteIni {
                                    dir: out_path,
                                    name: INI_FILE@,
                                    lines: rewritten_ini(ini, report.manifest.files),
                                },
                                Some(false) => ExportStepView::Finished(
                                    Err(ExportError::IniWriteFailure),
                                ),
                                Some(true) => ExportStepView::Finished(Ok(report)),
                            },
                        },
                    }
                },
            }
        },
    }
}

/// The next step of an export.
///
/// The configuration is settled first: a given path must lead to an
/// existing regular file, and without one the platform must have a default.
/// Then the output directory: a given path must lead to an existing
/// directory, and without one the working directory is taken. The
/// configuration must be readable. Its content entries are resolved against
/// its search directories, and each resolved plugin that is not in place is
/// copied; neither an entry that is not found nor a copy that fails does
/// fail the export. The manifest is saved; the export goes on whether that
/// succeeded or not. Last the INI file in the directory above the output
/// directory is rewritten; it must be readable, and it must be possible to
/// open it for writing.
pub open spec fn export_step(run: ExportRunView) -> ExportStepView {
    let found = run.found;
    match settled_cfg(run.cfg_path_option, found.cfg, found.default_cfg) {
        None => match run.cfg_path_option {
            Some(path) => ExportStepView::ProbeCfg { path },
            None => ExportStepView::FindDefaultCfg,
        },
        Some(None) => ExportStepView::Finished(Err(ExportError::ConfigNotFound)),
        Some(Some(cfg_path)) => match found.working_dir {
            None => ExportStepView::FindWorkingDir,
            Some(_) => match settled_dir(run.out_path_option, found.working_dir, found.out) {
                None => ExportStepView::ProbeOut { path: run.out_path_option.unwrap() },
                Some(None) => ExportStepView::Finished(Err(ExportError::InvalidOutputDir)),
                Some(Some(out_path)) => match found.cfg_lines {
                    None => ExportStepView::ReadCfg { path: cfg_path },
                    Some(None) => ExportStepView::Finished(Err(ExportError::ParseFailure)),
                    Some(Some(lines)) => export_step_from(
                        lines,
                        out_path,
                        run.use_omw_plugins,
                        found,
                    ),
                },
            },
        },
    }
}

/// The jobs of an export of `in_files` to `out_path`, one for each plugin.
fn copy_jobs(in_files: &Vec<FoundFile>, out_path: &str) -> (jobs: Vec<CopyJob>)
    ensures
        jobs.deep_view() == jobs_of(in_files.deep_view(), out_path@),
{
    let mut jobs: Vec<CopyJob> = Vec::new();
    let ghost all = in_files.deep_view();
    let mut i: usize = 0;
    while i < in_files.len()
        invariant
            i <= in_files.len(),
            all == in_files.deep_view(),
            jobs.deep_view() == jobs_of(all.take(i as int), out_path@),
        decreases in_files.len() - i,
    {
        let ghost before = jobs.deep_view();
        let file = &in_files[i];
        proof {
            all.lemma_map_take_succ(job_for(out_path@), i as int);
            assert(all[i as int] == file@);
        }
        let job = CopyJob {
            file: FoundFile { dir: file.dir.clone(), name: file.name.clone() },
            in_place: is_in_place(file, out_path),
        };
        jobs.push(job);
        proof {
            assert(jobs.deep_view() =~= before.push(job.deep_view()));
        }
        i += 1;
    }
    proof {
        assert(all.take(in_files.len() as int) =~= all);
    }
    jobs
}

/// The next step of an export once its paths are settled and its
/// configuration is read.
fn next_export_step(
    lines: &Vec<String>,
    out_path: String,
    use_omw_plugins: bool,
    found: &ExportFindings,
) -> (step: ExportStep)
    ensures
        step.deep_view() == export_step_from(
            lines.deep_view(),
            out_path@,
            use_omw_plugins,
            found.deep_view(),
        ),
{
    let info = parse_cfg(lines);
    let folders = match &found.folders {
        None => {
            return ExportStep::ListFolders { dirs: info.data };
        },
        Some(folders) => folders,
    };
    let in_files = get_plugins(folders, &info.plugins, use_omw_plugins);
    let copied = match &found.copied {
        None => {
            let jobs = copy_jobs(&in_files, out_path.as_str());
            return ExportStep::CopyFiles { jobs, out_path };
        },
        Some(copied) => copied,
    };
    let report = export_report(&info.plugins, &in_files, out_path.as_str(), copied);
    if found.manifest_saved.is_none() {
        return ExportStep::SaveManifest {
            dir: out_path,
            name: MANIFEST_FILE.to_owned(),
            manifest: report.manifest,
        };
    }
    match &found.ini_lines {
        None => ExportStep::ReadIni { dir: out_path, name: INI_FILE.to_owned() },
        Some(None) => ExportStep::Finished(Err(ExportError::IniReadFailure)),
        Some(Some(ini)) => match found.ini_written {
            None => ExportStep::WriteIni {
                dir: out_path,
                name: INI_FILE.to_owned(),
                lines: rewrite_ini(ini, &report.manifest.files),
            },
            Some(false) => ExportStep::Finished(Err(ExportError::IniWriteFailure)),
            Some(true) => ExportStep::Finished(Ok(report)),
        },
    }
}

/// Exports the plugins that a configuration names to a directory, step by
/// step: tells what is to be done next, given what was found out so far, or
/// how the export ended.
pub fn export(run: &ExportRun) -> (step: ExportStep)
    ensures
        step.deep_view() == export_step(run.deep_view()),
{
    let found = &run.found;
    let cfg_path = match settle_cfg(&run.cfg_path_option, &found.cfg, &found.default_cfg) {
        None => {
            return match &run.cfg_path_option {
                Some(path) => ExportStep::ProbeCfg { path: path.clone() },
                None => ExportStep::FindDefaultCfg,
            };
        },
        Some(None) => {
            return ExportStep::Finished(Err(ExportError::ConfigNotFound));
        },
        Some(Some(cfg_path)) => cfg_path,
    };
    if found.working_dir.is_none() {
        return ExportStep::FindWorkingDir;
    }
    let out_path = match settle_dir(&run.out_path_option, &found.working_dir, &found.out) {
        None => match &run.out_path_option {
            Some(path) => {
                return ExportStep::ProbeOut { path: path.clone() };
            },
            None => unreached(),
        },
        Some(None) => {
            return ExportStep::Finished(Err(ExportError::InvalidOutputDir));
        },
        Some(Some(out_path)) => out_path,
    };
    match &found.cfg_lines {
        None => ExportStep::ReadCfg { path: cfg_path },
        Some(None) => ExportStep::Finished(Err(ExportError::ParseFailure)),
        Some(Some(lines)) => next_export_step(lines, out_path, run.use_omw_plugins, found),
    }
}

/// The files of an output directory after an export that recorded `m`,
/// where the directory held `before`.
pub open spec fn after_export(before: Set<Seq<char>>, m: ManifestView) -> Set<Seq<char>> {
    before.union(m.files.to_set())
}

/// The file names of the plugins, in their order.
pub open spec fn file_names(in_files: Seq<FoundFileView>) -> Seq<Seq<char>> {
    Seq::new(in_files.len(), |i: int| in_files[i].name)
}

/// Every resolved plugin is accounted for: it is among the files of the
/// manifest or among the plugins that could not be copied.
pub proof fn lemma_export_tally(in_files: Seq<FoundFileView>, out_path: Seq<char>, copied: Seq<bool>)
    ensures
        manifest_of(in_files, out_path, copied).files.len() + failed_copies(
            in_files,
            out_path,
            copied,
        ).len() == in_files.len(),
        manifest_of(in_files, out_path, copied).existing_files.len() <= manifest_of(
            in_files,
            out_path,
            copied,
        ).files.len(),
{
    let all = attempts(in_files, copied);
    lemma_filter_map_parts(all, recorded(out_path), uncopied(out_path));
    lemma_both_kept(all, preexisting(out_path), recorded(out_path));
}

/// A plugin that already lies in the output directory is recorded among the
/// files and among the existing files, and the cleanup that follows does not
/// delete it.
pub proof fn lemma_in_place_preserved(
    in_files: Seq<FoundFileView>,
    out_path: Seq<char>,
    copied: Seq<bool>,
    removed: Seq<bool>,
    i: int,
)
    requires
        0 <= i < in_files.len(),
        in_place(in_files[i], out_path),
    ensures
        ({
            let m = manifest_of(in_files, out_path, copied);
            &&& m.files.contains(in_files[i].name)
            &&& m.existing_files.contains(in_files[i].name)
            &&& !targets(m).contains(in_files[i].name)
            &&& !deleted_files(m, removed).contains(in_files[i].name)
        }),
{
    let all = attempts(in_files, copied);
    let m = manifest_of(in_files, out_path, copied);
    assert(all[i].file == in_files[i]);
    assert(all.contains(all[i]));
    lemma_filter_map_has(all, recorded(out_path), all[i], in_files[i].name);
    lemma_filter_map_has(all, preexisting(out_path), all[i], in_files[i].name);
    lemma_cleanup_spares_existing(m, in_files[i].name);
    lemma_cleanup_tally(m, removed);
}

/// An export into an empty directory in which every copy succeeds records
/// every resolved plugin among the files, in the order of resolution, and
/// nothing among the existing files.
pub proof fn lemma_export_to_empty(
    in_files: Seq<FoundFileView>,
    out_path: Seq<char>,
    copied: Seq<bool>,
)
    requires
        forall|i: int| 0 <= i < in_files.len() ==> !in_place(#[trigger] in_files[i], out_path),
        all_succeeded(in_files.len(), copied),
    ensures
        manifest_of(in_files, out_path, copied).files == file_names(in_files),
        manifest_of(in_files, out_path, copied).existing_files == Seq::<Seq<char>>::empty(),
        failed_copies(in_files, out_path, copied) == Seq::<Seq<char>>::empty(),
        targets(manifest_of(in_files, out_path, copied)) == file_names(in_files),
{
    let all = attempts(in_files, copied);
    let m = manifest_of(in_files, out_path, copied);
    assert forall|i: int| 0 <= i < all.len() implies (#[trigger] recorded(out_path)(all[i]))
        is Some by {
        assert(outcomes(in_files.len(), copied)[i]);
    }
    lemma_filter_map_total(all, recorded(out_path));
    assert(m.files =~= file_names(in_files)) by {
        assert forall|i: int| 0 <= i < in_files.len() implies m.files[i] == file_names(
            in_files,
        )[i] by {
            assert(Some(m.files[i]) == recorded(out_path)(all[i]));
            assert(outcomes(in_files.len(), copied)[i]);
        }
    }
    assert forall|i: int| 0 <= i < all.len() implies (#[trigger] preexisting(out_path)(all[i]))
        is None by {
        assert(!in_place(in_files[i], out_path));
    }
    lemma_filter_map_none(all, preexisting(out_path));
    assert(m.existing_files =~= Seq::<Seq<char>>::empty());
    assert forall|i: int| 0 <= i < all.len() implies (#[trigger] uncopied(out_path)(all[i]))
        is None by {
        assert(outcomes(in_files.len(), copied)[i]);
    }
    lemma_filter_map_none(all, uncopied(out_path));
    assert(failed_copies(in_files, out_path, copied) =~= Seq::<Seq<char>>::empty());
    assert forall|i: int| 0 <= i < m.files.len() implies #[trigger] absent_from(m.existing_files)(
        m.files[i],
    ) by {}
    lemma_filter_all(m.files, absent_from(m.existing_files));
}

/// Round trip. An export of `N` resolved plugins with distinct names into an
/// empty directory, in which every copy succeeds, records `N` files and no
/// existing file; and the cleanup that follows in that directory, which
/// nothing else has changed, deletes exactly those `N` files.
pub proof fn lemma_round_trip(in_files: Seq<FoundFileView>, out_path: Seq<char>, copied: Seq<bool>)
    requires
        forall|i: int| 0 <= i < in_files.len() ==> !in_place(#[trigger] in_files[i], out_path),
        all_succeeded(in_files.len(), copied),
        forall|i: int, j: int|
            0 <= i < j < in_files.len() ==> in_files[i].name != in_files[j].name,
    ensures
        ({
            let m = manifest_of(in_files, out_path, copied);
            let removed = removals(after_export(Set::empty(), m), targets(m));
            &&& m.files.len() == in_files.len()
            &&& m.existing_files.len() == 0
            &&& deleted_files(m, removed) == m.files
            &&& deleted_files(m, removed).len() == in_files.len()
            &&& undeleted_files(m, removed).len() == 0
        }),
{
    lemma_export_to_empty(in_files, out_path, copied);
    let m = manifest_of(in_files, out_path, copied);
    let names = file_names(in_files);
    let present = after_export(Set::empty(), m);
    let removed = removals(present, names);
    let all = tried(names, removed);
    assert forall|i: int| 0 <= i < all.len() implies (#[trigger] name_if(true)(all[i])) is Some by {
        assert(names.to_set().contains(names[i]));
        if names.take(i).contains(names[i]) {
            let j = choose|j: int| 0 <= j < i && names.take(i)[j] == names[i];
            assert(in_files[j].name != in_files[i].name);
        }
        assert(removed[i]);
        assert(outcomes(names.len(), removed)[i]);
    }
    lemma_filter_map_total(all, name_if(true));
    assert(deleted_files(m, removed) =~= names) by {
        assert forall|i: int| 0 <= i < names.len() implies deleted_files(m, removed)[i]
            == names[i] by {
            assert(Some(deleted_files(m, removed)[i]) == name_if(true)(all[i]));
        }
    }
    lemma_cleanup_tally(m, removed);
}

impl ExportRunView {
    /// The output directory of the export. It is settled once the working
    /// directory is found and the given directory is looked at.
    pub open spec fn out_path(self) -> Seq<char> {
        settled_dir(self.out_path_option, self.found.working_dir, self.found.out).unwrap().unwrap()
    }

    /// The plugins that the export resolved. They are settled once the
    /// configuration is read and the search directories are listed.
    pub open spec fn in_files(self) -> Seq<FoundFileView> {
        resolved(
            self.found.folders.unwrap(),
            content_entries(self.found.cfg_lines.unwrap().unwrap()),
            self.use_omw_plugins,
        )
    }
}

/// An export whose inputs are in order succeeds: once the paths are settled,
/// the configuration is read and the INI file is read and written, the
/// export ends with a report, whether or not every content entry was found,
/// every copy succeeded and the manifest could be saved. The report counts
/// the files of the manifest, and tells whether as many plugins were
/// resolved as the configuration names.
pub proof fn lemma_export_tolerant(run: ExportRunView)
    requires
        settled_cfg(run.cfg_path_option, run.found.cfg, run.found.default_cfg) matches Some(Some(_)),
        settled_dir(run.out_path_option, run.found.working_dir, run.found.out) matches Some(Some(_)),
        run.found.cfg_lines matches Some(Some(_)),
        run.found.folders is Some,
        run.found.copied is Some,
        run.found.manifest_saved is Some,
        run.found.ini_lines matches Some(Some(_)),
        run.found.ini_written == Some(true),
    ensures
        ({
            let names = content_entries(run.found.cfg_lines.unwrap().unwrap());
            &&& export_step(run) matches ExportStepView::Finished(Ok(report))
            &&& report.count == report.manifest.files.len()
            &&& report.manifest.wf()
            &&& report.manifest.files.len() + report.failed.len() == run.in_files().len()
            &&& report.all_found == (run.in_files().len() == names.len())
        }),
{
    lemma_manifest_wf(run.in_files(), run.out_path(), run.found.copied.unwrap());
    lemma_export_tally(run.in_files(), run.out_path(), run.found.copied.unwrap());
}

/// Round trip of the two engines. An export into an empty directory, in
/// which every copy succeeded and no name was resolved twice, has ended
/// with a report of `N` files. A cleanup of that directory then finds the
/// manifest as the export wrote it, and nothing else has changed the
/// directory. The cleanup ends with a report too: it deleted exactly the
/// `N` files of the manifest, none is left, and it is complete.
pub proof fn lemma_export_then_cleanup(
    run: ExportRunView,
    dir_option: Option<Seq<char>>,
    found: CleanupFindingsView,
)
    requires
        export_step(run) matches ExportStepView::Finished(Ok(_)),
        run.found.cfg_lines matches Some(Some(_)),
        run.found.folders is Some,
        run.found.copied is Some,
        settled_dir(run.out_path_option, run.found.working_dir, run.found.out) matches Some(Some(_)),
        // the output directory was empty
        forall|k: int|
            0 <= k < run.found.folders.unwrap().len() && (#[trigger] run.found.folders.unwrap()[k]).path
                == run.out_path() ==> run.found.folders.unwrap()[k].entries is None
                || run.found.folders.unwrap()[k].entries.unwrap().len() == 0,
        // every copy succeeded
        all_succeeded(run.in_files().len(), run.found.copied.unwrap()),
        // no name was resolved twice
        forall|i: int, j: int|
            0 <= i < j < run.in_files().len() ==> run.in_files()[i].name != run.in_files()[j].name,
        // the cleanup works in the output directory of the export
        found.working_dir is Some,
        settled_dir(dir_option, found.working_dir, found.dir) == Some(Some(run.out_path())),
        // and finds the manifest and the files that the export left
        found.manifest == Some(
            ManifestFileView::Found(export_step(run)->Finished_0->Ok_0.manifest),
        ),
        found.removed == Some(
            removals(
                after_export(Set::empty(), export_step(run)->Finished_0->Ok_0.manifest),
                targets(export_step(run)->Finished_0->Ok_0.manifest),
            ),
        ),
    ensures
        ({
            let exported = export_step(run)->Finished_0->Ok_0;
            &&& exported.count == run.in_files().len()
            &&& exported.manifest.files.len() == exported.count
            &&& exported.manifest.existing_files.len() == 0
            &&& cleanup_step(dir_option, found) matches CleanupStepView::Finished(Ok(cleaned))
            &&& cleaned.deleted == exported.manifest.files
            &&& cleaned.deleted.len() == exported.count
            &&& cleaned.failed.len() == 0
            &&& cleaned.complete
        }),
{
    let folders = run.found.folders.unwrap();
    let names = content_entries(run.found.cfg_lines.unwrap().unwrap());
    let in_files = run.in_files();
    assert forall|i: int| 0 <= i < in_files.len() implies !in_place(
        #[trigger] in_files[i],
        run.out_path(),
    ) by {
        if in_place(in_files[i], run.out_path()) {
            assert(in_files.contains(in_files[i]));
            lemma_resolved_file(folders, names, run.use_omw_plugins, in_files[i]);
        }
    }
    lemma_round_trip(in_files, run.out_path(), run.found.copied.unwrap());
}

} // verus!
