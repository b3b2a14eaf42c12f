use omw_util::cleanup::{
    cleanup, CleanupError, CleanupFindings, CleanupRun, CleanupStep, ManifestFile,
};
use omw_util::config::parse_cfg;
use omw_util::export::{export, export_report, ExportRun, ExportStep};
use omw_util::import::{import, ImportRun, ImportStep};
use omw_util::manifest::{
    cleanup_report, cleanup_targets, copy_files, is_in_place, CleanupReport, Manifest,
};
use omw_util::paths::PathProbe;
use omw_util::plugins::{get_plugins, Folder, FolderEntry, FoundFile};
use std::collections::BTreeMap;

/// A file system in memory: text files by path, directories by path, and the
/// manifests that were persisted, by directory.
struct Disk {
    dirs: Vec<String>,
    files: BTreeMap<String, (Vec<String>, i128)>,
    manifests: BTreeMap<String, (Vec<String>, Vec<String>)>,
    default_cfg: Option<String>,
    clock: i128,
}

fn join(dir: &str, name: &str) -> String {
    format!("{}/{}", dir, name)
}

fn parent(dir: &str) -> String {
    match dir.rfind('/') {
        Some(at) => dir[..at].to_string(),
        None => String::new(),
    }
}

impl Disk {
    fn new() -> Disk {
        Disk {
            dirs: vec![],
            files: BTreeMap::new(),
            manifests: BTreeMap::new(),
            default_cfg: None,
            clock: 0,
        }
    }

    fn create_dir(&mut self, dir: &str) {
        if !self.dirs.iter().any(|d| d == dir) {
            self.dirs.push(dir.to_string());
        }
    }

    fn write(&mut self, path: &str, lines: &[&str]) {
        self.clock += 1;
        let text = lines.iter().map(|l| l.to_string()).collect();
        self.files.insert(path.to_string(), (text, self.clock));
    }

    fn probe(&self, path: &str) -> PathProbe {
        let is_file = self.files.contains_key(path);
        let is_dir = self.dirs.iter().any(|d| d == path);
        PathProbe { path: path.to_string(), exists: is_file || is_dir, is_file, is_dir }
    }

    fn list(&self, dir: &str) -> Folder {
        if !self.dirs.iter().any(|d| d == dir) {
            return Folder { path: dir.to_string(), entries: None };
        }
        let prefix = format!("{}/", dir);
        let mut entries = vec![];
        for path in self.files.keys() {
            if let Some(name) = path.strip_prefix(&prefix) {
                if !name.contains('/') {
                    entries.push(FolderEntry { name: name.to_string(), is_file: true });
                }
            }
        }
        for path in &self.dirs {
            if let Some(name) = path.strip_prefix(&prefix) {
                if !name.contains('/') {
                    entries.push(FolderEntry { name: name.to_string(), is_file: false });
                }
            }
        }
        Folder { path: dir.to_string(), entries: Some(entries) }
    }

    fn copy(&mut self, from: &str, to: &str) -> bool {
        match self.files.get(from).cloned() {
            Some((lines, _)) => {
                self.clock += 1;
                self.files.insert(to.to_string(), (lines, self.clock));
                true
            }
            None => false,
        }
    }

    fn remove(&mut self, path: &str) -> bool {
        self.files.remove(path).is_some()
    }

    fn read_lines(&self, path: &str) -> Option<Vec<String>> {
        self.files.get(path).map(|(lines, _)| lines.clone())
    }

    fn write_lines(&mut self, path: &str, lines: &[String]) {
        self.clock += 1;
        let text = lines
            .iter()
            .map(|l| l.strip_suffix('\n').expect("a line ends in a line feed").to_string())
            .collect();
        self.files.insert(path.to_string(), (text, self.clock));
    }
}

fn run_export(
    disk: &mut Disk,
    cfg: Option<&str>,
    out: Option<&str>,
    use_omw_plugins: bool,
) -> Option<usize> {
    let mut run =
        ExportRun::new(cfg.map(|p| p.to_string()), out.map(|p| p.to_string()), use_omw_plugins);
    loop {
        match export(&run) {
            ExportStep::ProbeCfg { path } => run.found.cfg = Some(disk.probe(&path)),
            ExportStep::FindDefaultCfg => run.found.default_cfg = Some(disk.default_cfg.clone()),
            ExportStep::FindWorkingDir => run.found.working_dir = Some("/cwd".to_string()),
            ExportStep::ProbeOut { path } => run.found.out = Some(disk.probe(&path)),
            ExportStep::ReadCfg { path } => run.found.cfg_lines = Some(disk.read_lines(&path)),
            ExportStep::ListFolders { dirs } => {
                run.found.folders = Some(dirs.iter().map(|d| disk.list(d)).collect())
            }
            ExportStep::CopyFiles { jobs, out_path } => {
                let mut copied = vec![];
                for job in &jobs {
                    assert_eq!(job.in_place, job.file.dir == out_path);
                    copied.push(
                        !job.in_place
                            && disk.copy(
                                &join(&job.file.dir, &job.file.name),
                                &join(&out_path, &job.file.name),
                            ),
                    );
                }
                run.found.copied = Some(copied);
            }
            ExportStep::SaveManifest { dir, name, manifest } => {
                assert_eq!(name, "omw-util.manifest");
                disk.manifests.insert(dir, (manifest.files, manifest.existing_files));
                run.found.manifest_saved = Some(true);
            }
            ExportStep::ReadIni { dir, name } => {
                run.found.ini_lines = Some(disk.read_lines(&join(&parent(&dir), &name)))
            }
            ExportStep::WriteIni { dir, name, lines } => {
                disk.write_lines(&join(&parent(&dir), &name), &lines);
                run.found.ini_written = Some(true);
            }
            ExportStep::Finished(result) => return result.ok().map(|report| report.count),
        }
    }
}

fn take_cleanup_step(
    disk: &mut Disk,
    step: CleanupStep,
    found: &mut CleanupFindings,
) -> Option<Result<CleanupReport, CleanupError>> {
    match step {
        CleanupStep::FindWorkingDir => found.working_dir = Some("/cwd".to_string()),
        CleanupStep::ProbeDir { path } => found.dir = Some(disk.probe(&path)),
        CleanupStep::LoadManifest { dir, name } => {
            assert_eq!(name, "omw-util.manifest");
            found.manifest = Some(match disk.manifests.get(&dir).cloned() {
                Some((files, existing_files)) => {
                    ManifestFile::Found(Manifest { files, existing_files })
                }
                None => ManifestFile::Missing,
            })
        }
        CleanupStep::DeleteFiles { dir, names } => {
            found.removed = Some(names.iter().map(|n| disk.remove(&join(&dir, n))).collect())
        }
        CleanupStep::Finished(result) => return Some(result),
    }
    None
}

fn run_cleanup(disk: &mut Disk, dir: Option<&str>) -> Option<usize> {
    let mut run = CleanupRun::new(dir.map(|p| p.to_string()));
    loop {
        let step = cleanup(&run);
        if let Some(result) = take_cleanup_step(disk, step, &mut run.found) {
            return result.ok().map(|report| report.deleted.len());
        }
    }
}

fn run_import(disk: &mut Disk, data_files: Option<&str>, cfg: Option<&str>, clean: bool) -> bool {
    let mut run =
        ImportRun::new(data_files.map(|p| p.to_string()), cfg.map(|p| p.to_string()), clean);
    loop {
        match import(&run) {
            ImportStep::FindWorkingDir => run.found.working_dir = Some("/cwd".to_string()),
            ImportStep::ProbeDataFiles { path } => run.found.data_files = Some(disk.probe(&path)),
            ImportStep::ProbeCfg { path } => run.found.cfg = Some(disk.probe(&path)),
            ImportStep::FindDefaultCfg => run.found.default_cfg = Some(disk.default_cfg.clone()),
            ImportStep::ListFolder { dir } => run.found.folder = Some(disk.list(&dir)),
            ImportStep::FindModified { files } => {
                run.found.modified = Some(
                    files.iter().map(|f| disk.files[&join(&f.dir, &f.name)].1).collect(),
                )
            }
            ImportStep::ReadCfg { path } => run.found.cfg_lines = Some(disk.read_lines(&path)),
            ImportStep::WriteCfg { path, lines } => {
                disk.write_lines(&path, &lines);
                run.found.cfg_written = Some(true);
            }
            ImportStep::Cleanup(step) => {
                take_cleanup_step(disk, step, &mut run.found.cleaning);
            }
            ImportStep::Finished(result) => return result.is_ok(),
        }
    }
}

/// The test assets: a configuration with three search directories and five
/// content entries, the plugins it names, and a second configuration.
fn get_assets() -> Disk {
    let mut disk = Disk::new();
    for dir in ["tests", "tests/assets", "tests/assets/Data Files", "tests/assets/mods"] {
        disk.create_dir(dir);
    }
    disk.create_dir("tests/assets/mods/mod1");
    disk.create_dir("tests/assets/mods/mod2");
    disk.write(
        "tests/assets/openmw.cfg",
        &[
            "fallback-archive=Morrowind.bsa",
            "data=\"tests/assets/Data Files\"",
            "data=\"tests/assets/mods/mod1\"",
            "data=\"tests/assets/mods/mod2\"",
            "content=Morrowind.esm",
            "content=Tribunal.esm",
            "content=Bloodmoon.esm",
            "content=mod1.esp",
            "content=mod2.omwaddon",
        ],
    );
    disk.write(
        "tests/assets/openmw_out.cfg",
        &[
            "data=\"tests/assets/Data Files\"",
            "content=Morrowind.esm",
            "data=\"tests/assets/mods/mod1\"",
            "encoding=win1252",
        ],
    );
    disk.write(
        "tests/assets/Morrowind.ini",
        &["[General]", "Show FPS=1", "[Game Files]", "GameFile0=Morrowind.esm", "GameFile1=old.esp"],
    );
    disk.write("tests/assets/Data Files/Morrowind.esm", &["m"]);
    disk.write("tests/assets/Data Files/Tribunal.esm", &["t"]);
    disk.write("tests/assets/Data Files/Bloodmoon.esm", &["b"]);
    disk.write("tests/assets/Data Files/Morrowind.bsa", &["archive"]);
    disk.write("tests/assets/mods/mod1/mod1.esp", &["1"]);
    disk.write("tests/assets/mods/mod2/mod2.omwaddon", &["2"]);
    disk
}

fn get_cfg() -> (String, usize, usize) {
    ("tests/assets/openmw.cfg".to_string(), 3, 5)
}

fn get_out_cfg() -> (String, usize, usize) {
    ("tests/assets/openmw_out.cfg".to_string(), 2, 5)
}

fn setup_test_env(disk: &mut Disk, test_env: &str) -> String {
    let data_files_path = join(test_env, "Data Files");
    disk.create_dir(test_env);
    disk.create_dir(&data_files_path);
    assert!(disk.copy("tests/assets/Morrowind.ini", &join(test_env, "Morrowind.ini")));
    data_files_path
}

#[test]
fn test_copy() {
    let mut disk = get_assets();
    let test_env = "tests/integration/copy";
    let data_files_path = setup_test_env(&mut disk, test_env);
    let (in_path, d, c) = get_cfg();

    // parse cfg for data dirs
    let result = disk.read_lines(&in_path).map(|lines| parse_cfg(&lines));
    assert!(result.is_some());
    let Some(info) = result else { return };
    assert_eq!(info.data.len(), d);
    assert_eq!(info.plugins.len(), c);

    // create a manifest
    let folders: Vec<Folder> = info.data.iter().map(|dir| disk.list(dir)).collect();
    let files = get_plugins(&folders, &info.plugins, true);
    assert_eq!(files.len(), info.plugins.len());

    // now copy the actual files
    let mut manifest = Manifest::default();
    let copied: Vec<bool> = files
        .iter()
        .map(|f| disk.copy(&join(&f.dir, &f.name), &join(&data_files_path, &f.name)))
        .collect();
    copy_files(&files, &data_files_path, &copied, &mut manifest);
    assert!(!manifest.files.is_empty());
    let count = manifest.files.len();
    assert_eq!(count, c);
}

#[test]
fn test_export() {
    // setup test environment
    let mut disk = get_assets();
    let test_env = "tests/integration/export";
    let data_files_path = setup_test_env(&mut disk, test_env);
    let (config_path, _d, c) = get_cfg();

    let result = run_export(&mut disk, Some(&config_path), Some(&data_files_path), true);
    assert_eq!(result, Some(c));

    // check order
    let cleanup = run_cleanup(&mut disk, Some(&data_files_path));
    assert_eq!(cleanup, Some(c));
}

#[test]
fn test_import() {
    // setup test environment
    let mut disk = get_assets();
    let test_env = "tests/integration/import";
    let data_files_path = setup_test_env(&mut disk, test_env);
    let (config_path, _d, c) = get_cfg();
    // export to set up test
    let result = run_export(&mut disk, Some(&config_path), Some(&data_files_path), true);
    assert_eq!(result, Some(c));

    // modify a file to test import
    let modified_esp = join(&data_files_path, "mod1.esp");
    disk.write(&modified_esp, &["test"]);

    // import
    let (p_out, d_out, c_out) = get_out_cfg();
    let result = run_import(&mut disk, Some(&data_files_path), Some(&p_out), true);
    assert!(result);

    // check cfg
    let result = disk.read_lines(&p_out).map(|lines| parse_cfg(&lines));
    assert!(result.is_some());
    let Some(info) = result else { return };
    assert_eq!(info.data.len(), d_out);
    assert_eq!(info.plugins.len(), c_out);
}

#[test]
fn import_lists_plugins_from_the_oldest_to_the_youngest() {
    let mut disk = get_assets();
    let data_files_path = setup_test_env(&mut disk, "tests/integration/order");
    let (config_path, _d, c) = get_cfg();
    assert_eq!(run_export(&mut disk, Some(&config_path), Some(&data_files_path), true), Some(c));
    disk.write(&join(&data_files_path, "Tribunal.esm"), &["touched"]);
    let (p_out, _, _) = get_out_cfg();
    assert!(run_import(&mut disk, Some(&data_files_path), Some(&p_out), false));
    let info = parse_cfg(&disk.read_lines(&p_out).unwrap());
    assert_eq!(
        info.plugins,
        vec!["Bloodmoon.esm", "Morrowind.esm", "mod1.esp", "mod2.omwaddon", "Tribunal.esm"]
    );
    assert_eq!(
        disk.read_lines(&p_out).unwrap()[..3],
        [
            "data=\"tests/assets/Data Files\"".to_string(),
            "data=\"tests/assets/mods/mod1\"".to_string(),
            "encoding=win1252".to_string(),
        ]
    );
}

#[test]
fn export_round_trip_into_an_empty_directory() {
    let mut disk = get_assets();
    let data_files_path = setup_test_env(&mut disk, "tests/integration/round");
    let (config_path, _d, c) = get_cfg();
    assert_eq!(run_export(&mut disk, Some(&config_path), Some(&data_files_path), true), Some(c));
    let (files, existing_files) = disk.manifests[&data_files_path].clone();
    assert_eq!(files.len(), c);
    assert!(existing_files.is_empty());
    assert_eq!(disk.list(&data_files_path).entries.unwrap().len(), c);
    assert_eq!(run_cleanup(&mut disk, Some(&data_files_path)), Some(c));
    assert!(disk.list(&data_files_path).entries.unwrap().is_empty());
    // a second cleanup finds nothing left to delete
    assert_eq!(run_cleanup(&mut disk, Some(&data_files_path)), Some(0));
}

#[test]
fn export_in_place_preserves_existing_files() {
    let mut disk = get_assets();
    let out = "tests/assets/mods/mod1";
    assert!(disk.copy("tests/assets/Morrowind.ini", "tests/assets/mods/Morrowind.ini"));
    let (config_path, _d, c) = get_cfg();
    assert_eq!(run_export(&mut disk, Some(&config_path), Some(out), true), Some(c));
    let (files, existing_files) = disk.manifests[out].clone();
    assert!(files.contains(&"mod1.esp".to_string()));
    assert_eq!(existing_files, vec!["mod1.esp".to_string()]);
    assert_eq!(run_cleanup(&mut disk, Some(out)), Some(c - 1));
    assert!(disk.probe("tests/assets/mods/mod1/mod1.esp").is_file);
    assert!(!disk.probe("tests/assets/mods/mod1/Morrowind.esm").exists);
}

#[test]
fn export_reports_plugins_that_were_not_found() {
    let mut disk = Disk::new();
    for dir in ["/game", "/game/Data Files", "/mods", "/mods/a", "/mods/b"] {
        disk.create_dir(dir);
    }
    disk.write("/game/Morrowind.ini", &["[Game Files]"]);
    disk.write("/mods/a/one.esp", &[]);
    disk.write("/mods/a/two.esp", &[]);
    disk.write("/mods/b/three.esm", &[]);
    let lines: Vec<String> = [
        "data=\"/mods/a\"",
        "data=\"/mods/missing\"",
        "data=\"/mods/b\"",
        "content=one.esp",
        "content=two.esp",
        "content=three.esm",
        "content=four.esp",
        "content=five.esp",
    ]
    .iter()
    .map(|l| l.to_string())
    .collect();
    let info = parse_cfg(&lines);
    assert_eq!(info.plugins.len(), 5);
    let folders: Vec<Folder> = info.data.iter().map(|d| disk.list(d)).collect();
    let resolved = get_plugins(&folders, &info.plugins, false);
    let copied = vec![true; resolved.len()];
    let report = export_report(&info.plugins, &resolved, "/game/Data Files", &copied);
    assert_eq!(report.count, 3);
    assert!(!report.all_found);
    assert_eq!(report.manifest.files, vec!["one.esp", "two.esp", "three.esm"]);

    let all = export_report(&info.plugins[..3].to_vec(), &resolved, "/game/Data Files", &copied);
    assert!(all.all_found);
    assert_eq!(all.count, 3);
}

#[test]
fn export_of_two_directories_keeps_resolution_order() {
    let mut disk = Disk::new();
    for dir in ["/", "/A", "/B", "/P", "/P/C"] {
        disk.create_dir(dir);
    }
    disk.write("/A/x.esp", &["x"]);
    disk.write("/B/y.esp", &["y"]);
    disk.write("/cfg", &["data=\"/A\"", "data=\"/B\"", "content=x.esp", "content=y.esp"]);
    disk.write("/P/Morrowind.ini", &["[Game Files]", "GameFile0=gone.esp", "[Other]"]);
    assert_eq!(run_export(&mut disk, Some("/cfg"), Some("/P/C"), false), Some(2));
    let (files, existing_files) = disk.manifests["/P/C"].clone();
    assert_eq!(files, vec!["x.esp", "y.esp"]);
    assert!(existing_files.is_empty());
    assert!(disk.probe("/P/C/x.esp").is_file);
    assert!(disk.probe("/P/C/y.esp").is_file);
    assert_eq!(
        disk.read_lines("/P/Morrowind.ini").unwrap(),
        vec!["[Game Files]", "[Other]", "GameFile0=x.esp", "GameFile1=y.esp"]
    );
}

#[test]
fn export_fails_on_bad_paths() {
    let mut disk = get_assets();
    let data_files_path = setup_test_env(&mut disk, "tests/integration/bad");
    let (config_path, _, _) = get_cfg();
    // the configuration does not exist
    assert_eq!(run_export(&mut disk, Some("nowhere.cfg"), Some(&data_files_path), true), None);
    // the configuration is a directory
    assert_eq!(run_export(&mut disk, Some("tests/assets"), Some(&data_files_path), true), None);
    // no configuration given and no default
    assert_eq!(run_export(&mut disk, None, Some(&data_files_path), true), None);
    // the output directory does not exist
    assert_eq!(run_export(&mut disk, Some(&config_path), Some("nowhere"), true), None);
    // the output directory is a file
    assert_eq!(run_export(&mut disk, Some(&config_path), Some(&config_path), true), None);
    // nothing was written
    assert!(disk.manifests.is_empty());
}

#[test]
fn cleanup_fails_without_directory_or_manifest() {
    let mut disk = get_assets();
    assert_eq!(run_cleanup(&mut disk, Some("nowhere")), None);
    assert_eq!(run_cleanup(&mut disk, Some("tests/assets/openmw.cfg")), None);
    assert_eq!(run_cleanup(&mut disk, Some("tests/assets/mods")), None);
    assert!(!run_import(&mut disk, Some("nowhere"), Some("tests/assets/openmw_out.cfg"), false));
    assert!(!run_import(&mut disk, Some("tests/assets/mods"), Some("nowhere"), false));
    // an import with cleanup fails where the directory holds no manifest
    assert!(!run_import(&mut disk, Some("tests/assets/mods"), Some("tests/assets/openmw_out.cfg"), true));
}

#[test]
fn copy_failures_are_left_out_of_the_manifest() {
    let files = vec![
        FoundFile { dir: "/a".to_string(), name: "one.esp".to_string() },
        FoundFile { dir: "/out".to_string(), name: "two.esp".to_string() },
        FoundFile { dir: "/b".to_string(), name: "three.esp".to_string() },
        FoundFile { dir: "/b".to_string(), name: "four.esp".to_string() },
    ];
    let mut manifest = Manifest {
        files: vec!["stale".to_string()],
        existing_files: vec!["stale".to_string()],
    };
    // the answer for the last file is missing: its copy counts as failed
    let not_copied = copy_files(&files, "/out", &vec![true, false, false], &mut manifest);
    assert_eq!(manifest.files, vec!["one.esp", "two.esp"]);
    assert_eq!(manifest.existing_files, vec!["two.esp"]);
    assert_eq!(not_copied, vec!["three.esp", "four.esp"]);
    assert!(is_in_place(&files[1], "/out"));
    assert!(!is_in_place(&files[0], "/out"));
    assert!(!is_in_place(&files[1], "/out/"));

    let names = vec!["one.esp".to_string(); 4];
    let report = export_report(&names, &files, "/out", &vec![false, true, true, true, true]);
    assert_eq!(report.manifest.files, vec!["two.esp", "three.esp", "four.esp"]);
    assert_eq!(report.manifest.existing_files, vec!["two.esp"]);
    assert_eq!(report.failed, vec!["one.esp"]);
    assert_eq!(report.count, 3);
    assert!(report.all_found);

    let report = export_report(&vec![], &vec![], "/out", &vec![true]);
    assert_eq!(report.count, 0);
    assert!(report.all_found);
    assert!(report.manifest.files.is_empty());
    assert!(report.failed.is_empty());
}

#[test]
fn cleanup_counts_what_was_deleted() {
    let manifest = Manifest {
        files: vec!["a".to_string(), "b".to_string(), "c".to_string(), "b".to_string()],
        existing_files: vec!["b".to_string()],
    };
    assert_eq!(cleanup_targets(&manifest), vec!["a", "c"]);
    let report = cleanup_report(&manifest, &vec![true, true]);
    assert_eq!(report.deleted, vec!["a", "c"]);
    assert!(report.failed.is_empty());
    assert!(!report.complete);
    let report = cleanup_report(&manifest, &vec![true, false, true, true]);
    assert_eq!(report.deleted, vec!["a"]);
    assert_eq!(report.failed, vec!["c"]);
    assert!(!report.complete);
    let report = cleanup_report(&manifest, &vec![]);
    assert!(report.deleted.is_empty());
    assert_eq!(report.failed, vec!["a", "c"]);

    let plain = Manifest {
        files: vec!["a".to_string(), "b".to_string(), "c".to_string()],
        existing_files: vec!["b".to_string()],
    };
    let report = cleanup_report(&plain, &vec![true, true]);
    assert_eq!(report.deleted.len(), 2);
    assert!(report.complete);
    let report = cleanup_report(&plain, &vec![true]);
    assert_eq!(report.deleted, vec!["a"]);
    assert_eq!(report.failed, vec!["c"]);
    assert!(!report.complete);

    // more existing files than files: nothing to delete, and never complete
    let odd = Manifest {
        files: vec!["a".to_string()],
        existing_files: vec!["a".to_string(), "z".to_string()],
    };
    assert!(cleanup_targets(&odd).is_empty());
    let report = cleanup_report(&odd, &vec![true]);
    assert!(report.deleted.is_empty());
    assert!(report.failed.is_empty());
    assert!(!report.complete);

    let empty = Manifest::default();
    assert!(empty.files.is_empty() && empty.existing_files.is_empty());
    let report = cleanup_report(&empty, &vec![]);
    assert!(report.deleted.is_empty());
    assert!(report.complete);
}

#[test]
fn fixed_file_names() {
    assert_eq!(omw_util::manifest::MANIFEST_FILE, "omw-util.manifest");
    assert_eq!(omw_util::rewrite::INI_FILE, "Morrowind.ini");
    assert_eq!(omw_util::profile::MODS_LIST_FILE, "mods.txt");
    assert_eq!(omw_util::profile::PLUGINS_LIST_FILE, "plugins.txt");
}
