//! The import engine: the plugins of a data directory, put in the order of
//! their modification times and written into a configuration as its content
//! list, with a cleanup of the directory afterwards if that is asked for.
//!
//! The engine does no work on the file system itself. It is asked, with all
//! that was found out so far, what to do next; whoever runs it does that,
//! notes what came of it, and asks again.

use crate::cleanup::{
    cleanup_step, next_cleanup_step, CleanupError, CleanupFindings, CleanupFindingsView,
    CleanupStep, CleanupStepView,
};
use crate::manifest::{CleanupReport, CleanupReportView};
use crate::paths::{settle_cfg, settle_dir, settled_cfg, settled_dir, PathProbe, PathProbeView};
use crate::plugins::{
    get_plugins_in_folder, plugins_in, Folder, FolderView, FoundFile, FoundFileView,
};
use crate::config::{content_entries, content_entry, content_entry_fn, data_dir, data_dir_fn, data_dirs};
use crate::rewrite::{
    content_line, content_line_fn, kept, kept_lines, read_back, rewrite_cfg, rewritten_cfg,
    with_eol, without_eol,
};
use crate::sequences::{
    lemma_filter_map_add, lemma_filter_map_none, lemma_filter_map_total, lemma_filter_map_twice,
    lemma_filter_none, lemma_map_then_filter_map,
};
use vstd::pervasive::unreached;
use vstd::prelude::*;
use vstd::seq_lib::to_multiset_insert;

verus! {

/// A plugin file with the time at which it was last modified.
#[derive(Debug)]
pub struct DatedPlugin {
    /// The plugin file.
    pub file: FoundFile,
    /// The modification time, in nanoseconds since the Unix epoch.
    pub modified: i128,
}

/// The mathematical value of a [`DatedPlugin`].
pub ghost struct DatedPluginView {
    pub file: FoundFileView,
    pub modified: int,
}

impl View for DatedPlugin {
    type V = DatedPluginView;

    open spec fn view(&self) -> DatedPluginView {
        DatedPluginView { file: self.file@, modified: self.modified as int }
    }
}

impl DeepView for DatedPlugin {
    type V = DatedPluginView;

    open spec fn deep_view(&self) -> DatedPluginView {
        self@
    }
}

/// No plugin stands before an older one.
pub open spec fn ascending(plugins: Seq<DatedPluginView>) -> bool {
    forall|i: int, j: int|
        0 <= i <= j < plugins.len() ==> plugins[i].modified <= plugins[j].modified
}

/// Where a plugin modified at `modified` goes in `sorted`: directly behind
/// the last plugin that is not younger, or to the front if every plugin is
/// younger.
pub open spec fn slot(sorted: Seq<DatedPluginView>, modified: int) -> int
    decreases sorted.len(),
{
    if sorted.len() == 0 || sorted.last().modified <= modified {
        sorted.len() as int
    } else {
        slot(sorted.drop_last(), modified)
    }
}

/// The plugins from the oldest to the youngest. Plugins of one modification
/// time keep the order in which they were given.
pub open spec fn by_age(plugins: Seq<DatedPluginView>) -> Seq<DatedPluginView>
    decreases plugins.len(),
{
    if plugins.len() == 0 {
        Seq::empty()
    } else {
        let sorted = by_age(plugins.drop_last());
        sorted.insert(slot(sorted, plugins.last().modified), plugins.last())
    }
}

/// The file name of a plugin, as a function value.
pub open spec fn name_fn() -> spec_fn(DatedPluginView) -> Seq<char> {
    |plugin: DatedPluginView| plugin.file.name
}

/// The file names of the plugins, in their order.
pub open spec fn names_of(plugins: Seq<DatedPluginView>) -> Seq<Seq<char>> {
    plugins.map_values(name_fn())
}

/// The plugins that an import takes from a data directory: every plugin
/// directly inside it, those with the extended extensions included.
fn plugins_to_import(data_files: &Folder) -> (found: Vec<FoundFile>)
    ensures
        found.deep_view() == plugins_in(data_files@, true),
{
    get_plugins_in_folder(data_files, true)
}

/// The plugins from the oldest to the youngest; plugins of one modification
/// time keep the order in which they were given.
pub fn sort_by_age(plugins: &Vec<DatedPlugin>) -> (sorted: Vec<DatedPlugin>)
    ensures
        sorted.deep_view() == by_age(plugins.deep_view()),
{
    let mut sorted: Vec<DatedPlugin> = Vec::new();
    let ghost all = plugins.deep_view();
    let mut i: usize = 0;
    proof {
        assert(all.take(0) =~= Seq::<DatedPluginView>::empty());
    }
    while i < plugins.len()
        invariant
            i <= plugins.len(),
            all == plugins.deep_view(),
            sorted.len() == i,
            sorted.deep_view() == by_age(all.take(i as int)),
        decreases plugins.len() - i,
    {
        let plugin = &plugins[i];
        let ghost before = sorted.deep_view();
        let mut k: usize = sorted.len();
        proof {
            assert(before.take(k as int) =~= before);
        }
        while k > 0 && sorted[k - 1].modified > plugin.modified
            invariant
                k <= sorted.len(),
                before == sorted.deep_view(),
                slot(before, plugin.modified as int) == slot(
                    before.take(k as int),
                    plugin.modified as int,
                ),
            decreases k,
        {
            proof {
                assert(before.take(k as int).last() == sorted[k - 1]@);
                assert(before.take(k as int).drop_last() =~= before.take(k - 1));
            }
            k -= 1;
        }
        proof {
            if k > 0 {
                assert(before.take(k as int).last() == sorted[k - 1]@);
            }
            assert(slot(before, plugin.modified as int) == k);
        }
        let copy = DatedPlugin {
            file: FoundFile { dir: plugin.file.dir.clone(), name: plugin.file.name.clone() },
            modified: plugin.modified,
        };
        sorted.insert(k, copy);
        proof {
            assert(copy@ == plugin@);
            assert(all[i as int] == plugin@);
            assert(sorted.deep_view() =~= before.insert(k as int, plugin@));
            assert(all.take(i + 1).drop_last() =~= all.take(i as int));
            assert(all.take(i + 1).last() == all[i as int]);
        }
        i += 1;
    }
    proof {
        assert(all.take(plugins.len() as int) =~= all);
    }
    sorted
}

/// The file names of the plugins, in their order.
pub fn plugin_names(plugins: &Vec<DatedPlugin>) -> (names: Vec<String>)
    ensures
        names.deep_view() == names_of(plugins.deep_view()),
{
    let mut names: Vec<String> = Vec::new();
    let ghost all = plugins.deep_view();
    let mut i: usize = 0;
    while i < plugins.len()
        invariant
            i <= plugins.len(),
            all == plugins.deep_view(),
            names.deep_view() == names_of(all.take(i as int)),
        decreases plugins.len() - i,
    {
        let ghost before = names.deep_view();
        proof {
            all.lemma_map_take_succ(name_fn(), i as int);
            assert(all[i as int] == plugins[i as int]@);
        }
        let name = plugins[i].file.name.clone();
        names.push(name);
        proof {
            assert(names.deep_view() =~= before.push(name@));
        }
        i += 1;
    }
    proof {
        assert(all.take(plugins.len() as int) =~= all);
    }
    names
}

/// The plugins with the times at which they were modified: `times[i]` is
/// the time of `files[i]`. A plugin without a time counts as modified at
/// time 0, a time without a plugin is not looked at.
pub open spec fn dated(files: Seq<FoundFileView>, times: Seq<i128>) -> Seq<DatedPluginView> {
    Seq::new(
        files.len(),
        |i: int|
            DatedPluginView {
                file: files[i],
                modified: if i < times.len() {
                    times[i] as int
                } else {
                    0
                },
            },
    )
}

/// The plugins with the times at which they were modified.
pub fn date_plugins(files: &Vec<FoundFile>, times: &Vec<i128>) -> (plugins: Vec<DatedPlugin>)
    ensures
        plugins.deep_view() == dated(files.deep_view(), times@),
{
    let mut plugins: Vec<DatedPlugin> = Vec::new();
    let ghost all = dated(files.deep_view(), times@);
    let mut i: usize = 0;
    while i < files.len()
        invariant
            i <= files.len(),
            all == dated(files.deep_view(), times@),
            plugins.deep_view() == all.take(i as int),
        decreases files.len() - i,
    {
        let ghost before = plugins.deep_view();
        let file = &files[i];
        let modified: i128 = if i < times.len() {
            times[i]
        } else {
            0
        };
        let plugin = DatedPlugin {
            file: FoundFile { dir: file.dir.clone(), name: file.name.clone() },
            modified,
        };
        plugins.push(plugin);
        proof {
            assert(files.deep_view()[i as int] == file@);
            assert(plugin@ == all[i as int]);
            assert(plugins.deep_view() =~= before.push(plugin@));
            assert(all.take(i + 1) =~= all.take(i as int).push(all[i as int]));
        }
        i += 1;
    }
    proof {
        assert(all.take(files.len() as int) =~= all);
    }
    plugins
}

/// Why an import failed.
#[derive(Clone, Copy, Debug, PartialEq, Eq, Structural)]
pub enum ImportError {
    /// The given data directory does not exist or is not a directory.
    InvalidDir,
    /// There is no configuration: the given path is not an existing regular
    /// file, or none was given and the platform has no default.
    ConfigNotFound,
    /// The configuration cannot be read.
    CfgReadFailure,
    /// The configuration cannot be opened for writing.
    CfgWriteFailure,
    /// The configuration was rewritten, and the cleanup that followed failed.
    Cleanup(CleanupError),
}

/// What an import did.
#[derive(Debug)]
pub struct ImportReport {
    /// The plugins that the configuration now loads, in their order.
    pub imported: Vec<String>,
    /// What the cleanup did, if one was asked for.
    pub cleaned: Option<CleanupReport>,
}

/// The mathematical value of an [`ImportReport`].
pub ghost struct ImportReportView {
    pub imported: Seq<Seq<char>>,
    pub cleaned: Option<CleanupReportView>,
}

impl DeepView for ImportReport {
    type V = ImportReportView;

    open spec fn deep_view(&self) -> ImportReportView {
        ImportReportView {
            imported: self.imported.deep_view(),
            cleaned: self.cleaned.deep_view(),
        }
    }
}

/// All that was found out in the course of an import. A finding is `None`
/// until the import has asked for it.
#[derive(Debug)]
pub struct ImportFindings {
    /// The working directory.
    pub working_dir: Option<String>,
    /// What lies at the given data directory.
    pub data_files: Option<PathProbe>,
    /// What lies at the given configuration path.
    pub cfg: Option<PathProbe>,
    /// The platform's default configuration, or `None` inside if there is
    /// none.
    pub default_cfg: Option<Option<String>>,
    /// The data directory with what lies in it.
    pub folder: Option<Folder>,
    /// The modification time of each plugin that is imported, in
    /// nanoseconds since the Unix epoch.
    pub modified: Option<Vec<i128>>,
    /// The lines of the configuration, or `None` inside if it cannot be read.
    pub cfg_lines: Option<Option<Vec<String>>>,
    /// Whether the configuration could be opened for writing.
    pub cfg_written: Option<bool>,
    /// What the cleanup that follows the import found out.
    pub cleaning: CleanupFindings,
}

/// The mathematical value of [`ImportFindings`].
pub ghost struct ImportFindingsView {
    pub working_dir: Option<Seq<char>>,
    pub data_files: Option<PathProbeView>,
    pub cfg: Option<PathProbeView>,
    pub default_cfg: Option<Option<Seq<char>>>,
    pub folder: Option<FolderView>,
    pub modified: Option<Seq<i128>>,
    pub cfg_lines: Option<Option<Seq<Seq<char>>>>,
    pub cfg_written: Option<bool>,
    pub cleaning: CleanupFindingsView,
}

impl DeepView for ImportFindings {
    type V = ImportFindingsView;

    open spec fn deep_view(&self) -> ImportFindingsView {
        ImportFindingsView {
            working_dir: self.working_dir.deep_view(),
            data_files: self.data_files.deep_view(),
            cfg: self.cfg.deep_view(),
            default_cfg: self.default_cfg.deep_view(),
            folder: self.folder.deep_view(),
            modified: match self.modified {
                Some(times) => Some(times@),
                None => None,
            },
            cfg_lines: self.cfg_lines.deep_view(),
            cfg_written: self.cfg_written,
            cleaning: self.cleaning.deep_view(),
        }
    }
}

impl ImportFindings {
    /// Nothing found out yet.
    pub open spec fn none() -> ImportFindingsView {
        ImportFindingsView {
            working_dir: None,
            data_files: None,
            cfg: None,
            default_cfg: None,
            folder: None,
            modified: None,
            cfg_lines: None,
            cfg_written: None,
            cleaning: CleanupFindings::none(),
        }
    }

    /// The findings of an import that has not begun.
    pub fn new() -> (found: ImportFindings)
        ensures
            found.deep_view() == Self::none(),
    {
        ImportFindings {
            working_dir: None,
            data_files: None,
            cfg: None,
            default_cfg: None,
            folder: None,
            modified: None,
            cfg_lines: None,
            cfg_written: None,
            cleaning: CleanupFindings::new(),
        }
    }
}

/// An import: what was asked for, and all that was found out.
#[derive(Debug)]
pub struct ImportRun {
    /// The data directory to import from, if one was given.
    pub data_files_option: Option<String>,
    /// The configuration to import into, if one was given.
    pub cfg_path_option: Option<String>,
    /// Whether the data directory is cleaned up afterwards.
    pub clean: bool,
    /// What was found out so far.
    pub found: ImportFindings,
}

/// The mathematical value of an [`ImportRun`].
pub ghost struct ImportRunView {
    pub data_files_option: Option<Seq<char>>,
    pub cfg_path_option: Option<Seq<char>>,
    pub clean: bool,
    pub found: ImportFindingsView,
}

impl DeepView for ImportRun {
    type V = ImportRunView;

    open spec fn deep_view(&self) -> ImportRunView {
        ImportRunView {
            data_files_option: self.data_files_option.deep_view(),
            cfg_path_option: self.cfg_path_option.deep_view(),
            clean: self.clean,
            found: self.found.deep_view(),
        }
    }
}

impl ImportRun {
    /// An import that has not begun. Without a data directory the working
    /// directory is imported from, without a configuration the platform's
    /// default is imported into.
    pub fn new(
        data_files_option: Option<String>,
        cfg_path_option: Option<String>,
        clean: bool,
    ) -> (run: ImportRun)
        ensures
            run.deep_view() == (ImportRunView {
                data_files_option: data_files_option.deep_view(),
                cfg_path_option: cfg_path_option.deep_view(),
                clean,
                found: ImportFindings::none(),
            }),
    {
        ImportRun { data_files_option, cfg_path_option, clean, found: ImportFindings::new() }
    }
}

/// What an import asks for next, or how it ended.
#[derive(Debug)]
pub enum ImportStep {
    /// Find the working directory and note it in `working_dir`.
    FindWorkingDir,
    /// Look what lies at `path` and note it in `data_files`.
    ProbeDataFiles { path: String },
    /// Look what lies at `path` and note it in `cfg`.
    ProbeCfg { path: String },
    /// Look for the platform's default configuration and note it in
    /// `default_cfg`.
    FindDefaultCfg,
    /// Look what lies in the directory `dir` and note it in `folder`.
    ListFolder { dir: String },
    /// Find the modification time of each of `files` and note the times in
    /// `modified`, in the order of `files`.
    FindModified { files: Vec<FoundFile> },
    /// Read the lines of the configuration at `path` and note them in
    /// `cfg_lines`.
    ReadCfg { path: String },
    /// Write `lines` to a new file at `path` and note in `cfg_written`
    /// whether the file could be opened. A line that cannot be written is
    /// passed over.
    WriteCfg { path: String, lines: Vec<String> },
    /// Take this step of the cleanup and note what comes of it in
    /// `cleaning`.
    Cleanup(CleanupStep),
    /// The import is over.
    Finished(Result<ImportReport, ImportError>),
}

/// The mathematical value of an [`ImportStep`].
pub ghost enum ImportStepView {
    FindWorkingDir,
    ProbeDataFiles { path: Seq<char> },
    ProbeCfg { path: Seq<char> },
    FindDefaultCfg,
    ListFolder { dir: Seq<char> },
    FindModified { files: Seq<FoundFileView> },
    ReadCfg { path: Seq<char> },
    WriteCfg { path: Seq<char>, lines: Seq<Seq<char>> },
    Cleanup(CleanupStepView),
    Finished(Result<ImportReportView, ImportError>),
}

impl DeepView for ImportStep {
    type V = ImportStepView;

    open spec fn deep_view(&self) -> ImportStepView {
        match self {
            ImportStep::FindWorkingDir => ImportStepView::FindWorkingDir,
            ImportStep::ProbeDataFiles { path } => ImportStepView::ProbeDataFiles { path: path@ },
            ImportStep::ProbeCfg { path } => ImportStepView::ProbeCfg { path: path@ },
            ImportStep::FindDefaultCfg => ImportStepView::FindDefaultCfg,
            ImportStep::ListFolder { dir } => ImportStepView::ListFolder { dir: dir@ },
            ImportStep::FindModified { files } => ImportStepView::FindModified {
                files: files.deep_view(),
            },
            ImportStep::ReadCfg { path } => ImportStepView::ReadCfg { path: path@ },
            ImportStep::WriteCfg { path, lines } => ImportStepView::WriteCfg {
                path: path@,
                lines: lines.deep_view(),
            },
            ImportStep::Cleanup(step) => ImportStepView::Cleanup(step.deep_view()),
            ImportStep::Finished(Ok(report)) => ImportStepView::Finished(Ok(report.deep_view())),
            ImportStep::Finished(Err(error)) => ImportStepView::Finished(Err(*error)),
        }
    }
}

/// How an import ends once the configuration is rewritten: without a
/// cleanup in success; with one, the cleanup is gone through step by step,
/// and the import ends as the cleanup does.
pub open spec fn import_end(
    imported: Seq<Seq<char>>,
    data_path: Seq<char>,
    clean: bool,
    cleaning: CleanupFindingsView,
) -> ImportStepView {
    if !clean {
        ImportStepView::Finished(Ok(ImportReportView { imported, cleaned: None }))
    } else {
        match cleanup_step(Some(data_path), cleaning) {
            CleanupStepView::Finished(Ok(report)) => ImportStepView::Finished(
                Ok(ImportReportView { imported, cleaned: Some(report) }),
            ),
            CleanupStepView::Finished(Err(error)) => ImportStepView::Finished(
                Err(ImportError::Cleanup(error)),
            ),
            step => ImportStepView::Cleanup(step),
        }
    }
}

/// The next step of an import once its paths are settled.
pub open spec fn import_step_from(
    data_path: Seq<char>,
    cfg_path: Seq<char>,
    clean: bool,
    found: ImportFindingsView,
) -> ImportStepView {
    match found.folder {
        None => ImportStepView::ListFolder { dir: data_path },
        Some(folder) => {
            let files = plugins_in(folder, true);
            match found.modified {
                None => ImportStepView::FindModified { files },
                Some(times) => {
                    let names = names_of(by_age(dated(files, times)));
                    match found.cfg_lines {
                        None => ImportStepView::ReadCfg { path: cfg_path },
                        Some(None) => ImportStepView::Finished(Err(ImportError::CfgReadFailure)),
                        Some(Some(lines)) => match found.cfg_written {
                            None => ImportStepView::WriteCfg {
                                path: cfg_path,
                                lines: rewritten_cfg(lines, names),
                            },
                            Some(false) => ImportStepView::Finished(
                                Err(ImportError::CfgWriteFailure),
                            ),
                            Some(true) => import_end(names, data_path, clean, found.cleaning),
                        },
                    }
                },
            }
        },
    }
}

/// The next step of an import.
///
/// The data directory is settled first: a given path must lead to an
/// existing directory, and without one the working directory is taken. Then
/// the configuration: a given path must lead to an existing regular file,
/// and without one the platform must have a default. Every plugin directly
/// inside the data directory is imported, those with the extended
/// extensions included, the oldest first. The configuration must be
/// readable, and it must be possible to open it for writing: it keeps its
/// lines but the content lines, and gets one content line for each plugin.
/// With `clean` the data directory is cleaned up afterwards, and the import
/// fails if the cleanup does.
pub open spec fn import_step(run: ImportRunView) -> ImportStepView {
    let found = run.found;
    match found.working_dir {
        None => ImportStepView::FindWorkingDir,
        Some(_) => match settled_dir(run.data_files_option, found.working_dir, found.data_files) {
            None => ImportStepView::ProbeDataFiles { path: run.data_files_option.unwrap() },
            Some(None) => ImportStepView::Finished(Err(ImportError::InvalidDir)),
            Some(Some(data_path)) => match settled_cfg(
                run.cfg_path_option,
                found.cfg,
                found.default_cfg,
            ) {
                None => match run.cfg_path_option {
                    Some(path) => ImportStepView::ProbeCfg { path },
                    None => ImportStepView::FindDefaultCfg,
                },
                Some(None) => ImportStepView::Finished(Err(ImportError::ConfigNotFound)),
                Some(Some(cfg_path)) => import_step_from(data_path, cfg_path, run.clean, found),
            },
        },
    }
}

/// How an import ends once the configuration is rewritten.
fn end_import(imported: Vec<String>, data_path: String, clean: bool, cleaning: &CleanupFindings) -> (step:
    ImportStep)
    ensures
        step.deep_view() == import_end(
            imported.deep_view(),
            data_path@,
            clean,
            cleaning.deep_view(),
        ),
{
    if !clean {
        return ImportStep::Finished(Ok(ImportReport { imported, cleaned: None }));
    }
    match next_cleanup_step(&Some(data_path), cleaning) {
        CleanupStep::Finished(Ok(report)) => ImportStep::Finished(
            Ok(ImportReport { imported, cleaned: Some(report) }),
        ),
        CleanupStep::Finished(Err(error)) => ImportStep::Finished(Err(ImportError::Cleanup(error))),
        step => ImportStep::Cleanup(step),
    }
}

/// The next step of an import once its paths are settled.
fn next_import_step(data_path: String, cfg_path: String, clean: bool, found: &ImportFindings) -> (step:
    ImportStep)
    ensures
        step.deep_view() == import_step_from(data_path@, cfg_path@, clean, found.deep_view()),
{
    let folder = match &found.folder {
        None => {
            return ImportStep::ListFolder { dir: data_path };
        },
        Some(folder) => folder,
    };
    let files = plugins_to_import(folder);
    let times = match &found.modified {
        None => {
            return ImportStep::FindModified { files };
        },
        Some(times) => times,
    };
    let all_plugins = sort_by_age(&date_plugins(&files, times));
    let names = plugin_names(&all_plugins);
    match &found.cfg_lines {
        None => ImportStep::ReadCfg { path: cfg_path },
        Some(None) => ImportStep::Finished(Err(ImportError::CfgReadFailure)),
        Some(Some(lines)) => match found.cfg_written {
            None => ImportStep::WriteCfg { path: cfg_path, lines: rewrite_cfg(lines, &names) },
            Some(false) => ImportStep::Finished(Err(ImportError::CfgWriteFailure)),
            Some(true) => end_import(names, data_path, clean, &found.cleaning),
        },
    }
}

/// Imports the plugins of a data directory into a configuration, step by
/// step: tells what is to be done next, given what was found out so far, or
/// how the import ended.
pub fn import(run: &ImportRun) -> (step: ImportStep)
    ensures
        step.deep_view() == import_step(run.deep_view()),
{
    let found = &run.found;
    if found.working_dir.is_none() {
        return ImportStep::FindWorkingDir;
    }
    let data_path = match settle_dir(&run.data_files_option, &found.working_dir, &found.data_files) {
        None => match &run.data_files_option {
            Some(path) => {
                return ImportStep::ProbeDataFiles { path: path.clone() };
            },
            None => unreached(),
        },
        Some(None) => {
            return ImportStep::Finished(Err(ImportError::InvalidDir));
        },
        Some(Some(data_path)) => data_path,
    };
    let cfg_path = match settle_cfg(&run.cfg_path_option, &found.cfg, &found.default_cfg) {
        None => {
            return match &run.cfg_path_option {
                Some(path) => ImportStep::ProbeCfg { path: path.clone() },
                None => ImportStep::FindDefaultCfg,
            };
        },
        Some(None) => {
            return ImportStep::Finished(Err(ImportError::ConfigNotFound));
        },
        Some(Some(cfg_path)) => cfg_path,
    };
    next_import_step(data_path, cfg_path, run.clean, found)
}

/// A plugin at or behind its slot is younger than `modified`, and in an
/// ascending list one before its slot is not.
pub proof fn lemma_slot(sorted: Seq<DatedPluginView>, modified: int)
    requires
        ascending(sorted),
    ensures
        0 <= slot(sorted, modified) <= sorted.len(),
        forall|i: int| 0 <= i < slot(sorted, modified) ==> sorted[i].modified <= modified,
        forall|i: int| slot(sorted, modified) <= i < sorted.len() ==> sorted[i].modified > modified,
    decreases sorted.len(),
{
    if sorted.len() == 0 {
    } else if sorted.last().modified <= modified {
        assert forall|i: int| 0 <= i < sorted.len() implies sorted[i].modified <= modified by {
            assert(sorted[i].modified <= sorted[sorted.len() - 1].modified);
        }
    } else {
        let rest = sorted.drop_last();
        assert(ascending(rest)) by {
            assert forall|i: int, j: int| 0 <= i <= j < rest.len() implies rest[i].modified
                <= rest[j].modified by {
                assert(sorted[i].modified <= sorted[j].modified);
            }
        }
        lemma_slot(rest, modified);
        assert forall|i: int| 0 <= i < slot(sorted, modified) implies sorted[i].modified
            <= modified by {
            assert(rest[i] == sorted[i]);
        }
        assert forall|i: int| slot(sorted, modified) <= i < sorted.len() implies sorted[i].modified
            > modified by {
            if i < rest.len() {
                assert(rest[i] == sorted[i]);
            }
        }
    }
}

/// Sorting by age gives an ascending list that holds the same plugins, each
/// as often as before.
pub proof fn lemma_by_age(plugins: Seq<DatedPluginView>)
    ensures
        ascending(by_age(plugins)),
        by_age(plugins).len() == plugins.len(),
        by_age(plugins).to_multiset() == plugins.to_multiset(),
    decreases plugins.len(),
{
    if plugins.len() == 0 {
        assert(plugins =~= Seq::<DatedPluginView>::empty());
    } else {
        let rest = plugins.drop_last();
        let last = plugins.last();
        lemma_by_age(rest);
        let sorted = by_age(rest);
        let k = slot(sorted, last.modified);
        lemma_slot(sorted, last.modified);
        let out = sorted.insert(k, last);
        assert(ascending(out)) by {
            assert forall|i: int, j: int| 0 <= i <= j < out.len() implies out[i].modified
                <= out[j].modified by {
                if i < k && j > k {
                    assert(out[i] == sorted[i]);
                    assert(out[j] == sorted[j - 1]);
                } else if i < k && j < k {
                    assert(out[i] == sorted[i]);
                    assert(out[j] == sorted[j]);
                } else if i > k {
                    assert(out[i] == sorted[i - 1]);
                    assert(out[j] == sorted[j - 1]);
                }
            }
        }
        to_multiset_insert(sorted, k, last);
        assert(plugins =~= rest.push(last));
        vstd::seq_lib::to_multiset_build(rest, last);
    }
}

/// The order of an import. Where an import asks to write the configuration,
/// the lines are those that were kept, followed by one content line for
/// each plugin of the data directory; and no line's plugin is older than
/// that of a line before it.
pub proof fn lemma_import_order(run: ImportRunView)
    requires
        import_step(run) is WriteCfg,
    ensures
        ({
            let plugins = dated(
                plugins_in(run.found.folder.unwrap(), true),
                run.found.modified.unwrap(),
            );
            let order = by_age(plugins);
            let head = kept_lines(run.found.cfg_lines.unwrap().unwrap(), "content="@);
            let lines = import_step(run)->WriteCfg_lines;
            &&& ascending(order)
            &&& order.to_multiset() == plugins.to_multiset()
            &&& lines.len() == head.len() + plugins.len()
            &&& forall|i: int| 0 <= i < head.len() ==> lines[i] == head[i]
            &&& forall|i: int|
                0 <= i < plugins.len() ==> lines[head.len() + i] == content_line(order[i].file.name)
        }),
{
    let plugins = dated(plugins_in(run.found.folder.unwrap(), true), run.found.modified.unwrap());
    lemma_by_age(plugins);
}

/// Reading a rewritten configuration. The configuration that an import of
/// `names` wrote declares exactly `names` as its content entries, in their
/// order, and the search directories that it declared before.
pub proof fn lemma_import_then_parse(lines: Seq<Seq<char>>, names: Seq<Seq<char>>)
    ensures
        content_entries(read_back(rewritten_cfg(lines, names))) == names,
        data_dirs(read_back(rewritten_cfg(lines, names))) == data_dirs(lines),
{
    let prefix = "content="@;
    let head = kept_lines(lines, prefix);
    let tail = names.map_values(content_line_fn());
    assert(read_back(head + tail) =~= read_back(head) + read_back(tail));
    lemma_filter_map_add(read_back(head), read_back(tail), content_entry_fn());
    lemma_filter_map_add(read_back(head), read_back(tail), data_dir_fn());
    reveal_strlit("content=");
    reveal_strlit("data=");
    assert forall|line: Seq<char>| with_eol(line).drop_last() == line by {
        assert(with_eol(line).drop_last() =~= line);
    }

    // the lines that were kept declare no content entry, and the search
    // directories that the configuration declared before
    let entry_back = |written: Seq<char>| content_entry(without_eol()(written));
    let dir_back = |written: Seq<char>| data_dir(without_eol()(written));
    let no_entry = |line: Seq<char>| None::<Seq<char>>;
    lemma_map_then_filter_map(head, without_eol(), content_entry_fn(), entry_back);
    lemma_map_then_filter_map(head, without_eol(), data_dir_fn(), dir_back);
    lemma_filter_map_twice(lines, kept(prefix), entry_back, no_entry);
    assert forall|line: Seq<char>| #[trigger]
        data_dir_fn()(line) == match kept(prefix)(line) {
            Some(written) => dir_back(written),
            None => None,
        } by {
        if prefix.is_prefix_of(line) {
            assert(line[0] == prefix[0]);
            assert(!"data="@.is_prefix_of(line)) by {
                if "data="@.is_prefix_of(line) {
                    assert(line.subrange(0, 5)[0] == "data="@[0]);
                }
            }
        }
    }
    lemma_filter_map_twice(lines, kept(prefix), dir_back, data_dir_fn());
    lemma_filter_map_none(lines, no_entry);
    assert(lines.filter_map(no_entry) =~= Seq::<Seq<char>>::empty());

    // the content lines declare the names, and no search directory
    assert forall|i: int| 0 <= i < read_back(tail).len() implies (#[trigger] content_entry_fn()(
        read_back(tail)[i],
    )) == Some(names[i]) by {
        let line = prefix + names[i];
        assert(tail[i] == with_eol(line));
        assert(line.subrange(0, prefix.len() as int) =~= prefix);
        assert(line.skip(prefix.len() as int) =~= names[i]);
    }
    lemma_filter_map_total(read_back(tail), content_entry_fn());
    assert(content_entries(read_back(tail)) =~= names);
    assert forall|i: int| 0 <= i < read_back(tail).len() implies (#[trigger] data_dir_fn()(
        read_back(tail)[i],
    )) is None by {
        let line = prefix + names[i];
        assert(tail[i] == with_eol(line));
        assert(line[0] == prefix[0]);
        if "data="@.is_prefix_of(line) {
            assert(line.subrange(0, 5)[0] == "data="@[0]);
        }
    }
    lemma_filter_map_none(read_back(tail), data_dir_fn());
    assert(data_dirs(read_back(tail)) =~= Seq::<Seq<char>>::empty());
    assert(Seq::<Seq<char>>::empty() + names =~= names);
    assert(data_dirs(lines) + Seq::<Seq<char>>::empty() =~= data_dirs(lines));
}

/// The test that a plugin was modified at `time`.
pub open spec fn modified_at(time: int) -> spec_fn(DatedPluginView) -> bool {
    |plugin: DatedPluginView| plugin.modified == time
}

/// Sorting by age is stable: the plugins of one modification time stand in
/// the order in which they were given.
pub proof fn lemma_by_age_stable(plugins: Seq<DatedPluginView>, time: int)
    ensures
        by_age(plugins).filter(modified_at(time)) == plugins.filter(modified_at(time)),
    decreases plugins.len(),
{
    reveal(Seq::filter);
    if plugins.len() > 0 {
        let rest = plugins.drop_last();
        let last = plugins.last();
        let sorted = by_age(rest);
        let k = slot(sorted, last.modified);
        let same = modified_at(time);
        lemma_by_age_stable(rest, time);
        lemma_by_age(rest);
        lemma_slot(sorted, last.modified);
        let before = sorted.take(k);
        let behind = sorted.skip(k);
        assert(sorted =~= before + behind);
        assert(sorted.insert(k, last) =~= before + seq![last] + behind);
        Seq::filter_distributes_over_add(before, behind, same);
        Seq::filter_distributes_over_add(before + seq![last], behind, same);
        Seq::filter_distributes_over_add(before, seq![last], same);
        assert(seq![last] =~= Seq::<DatedPluginView>::empty().push(last));
        Seq::<DatedPluginView>::empty().lemma_filter_push(last, same);
        if last.modified == time {
            assert forall|i: int| 0 <= i < behind.len() implies !same(#[trigger] behind[i]) by {
                assert(behind[i] == sorted[k + i]);
            }
            lemma_filter_none(behind, same);
            assert(before.filter(same) + behind.filter(same) =~= before.filter(same));
            assert(before.filter(same) + seq![last] + behind.filter(same) =~= sorted.filter(
                same,
            ).push(last));
        } else {
            assert(before.filter(same) + Seq::<DatedPluginView>::empty() + behind.filter(same)
                =~= sorted.filter(same));
        }
    }
}

} // verus!
