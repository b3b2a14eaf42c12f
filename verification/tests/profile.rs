use omw_util::paths::PathProbe;
use omw_util::plugins::{Folder, FolderEntry, FoundFile};
use omw_util::profile::{
    add_plugins, drop_mods, enable_mods, enable_plugins, has_archive_extension, import_mods, install_mod,
    line_outlasts, move_mod, move_plugin, refresh_downloads, update_cfg, update_profile_mods,
    ArchiveViewModel, EScale, ETabView, ETheme, ModInfo, ModNexusMetaData, ModViewModel,
    PluginViewModel,
};

fn lines(text: &[&str]) -> Vec<String> {
    text.iter().map(|l| l.to_string()).collect()
}

fn plugin(name: &str, enabled: bool) -> PluginViewModel {
    PluginViewModel { name: name.to_string(), enabled }
}

fn a_mod(full_name: &str, enabled: bool) -> ModViewModel {
    ModViewModel { full_name: full_name.to_string(), enabled }
}

fn plugin_list(plugins: &[PluginViewModel]) -> Vec<(String, bool)> {
    plugins.iter().map(|p| (p.name.clone(), p.enabled)).collect()
}

fn mod_list(mods: &[ModViewModel]) -> Vec<(String, bool)> {
    mods.iter().map(|m| (m.full_name.clone(), m.enabled)).collect()
}

fn pairs(items: &[(&str, bool)]) -> Vec<(String, bool)> {
    items.iter().map(|(n, e)| (n.to_string(), *e)).collect()
}

fn found(dir: &str, name: &str) -> FoundFile {
    FoundFile { dir: dir.to_string(), name: name.to_string() }
}

#[test]
fn defaults_are_empty() {
    let p = PluginViewModel::default();
    assert!(p.name.is_empty() && !p.enabled);
    let m = ModViewModel::default();
    assert!(m.full_name.is_empty() && !m.enabled);
    let i = ModInfo::default();
    assert!(i.path.is_empty() && !i.enabled);
    let a = ArchiveViewModel::default();
    assert!(a.file_name.is_empty() && a.meta_data.is_none());
    let d = ModNexusMetaData::default();
    assert!(d.mod_id.is_none() && d.description.is_none());
    assert!(d.mod_name.is_none() && d.version.is_none());
}

#[test]
fn scales_in_tenths() {
    assert_eq!(EScale::Native.pixels_per_point_tenths(), 12);
    assert_eq!(EScale::Small.pixels_per_point_tenths(), 22);
    assert_eq!(EScale::Medium.pixels_per_point_tenths(), 30);
    assert_eq!(EScale::Large.pixels_per_point_tenths(), 45);
    assert_eq!(EScale::Native.pixels_per_point_tenths() as f32 / 10.0, 1.2_f32);
    assert_eq!(EScale::Small.pixels_per_point_tenths() as f32 / 10.0, 2.2_f32);
    assert_eq!(EScale::Medium.pixels_per_point_tenths() as f32 / 10.0, 3.0_f32);
    assert_eq!(EScale::Large.pixels_per_point_tenths() as f32 / 10.0, 4.5_f32);
    assert_ne!(ETheme::Frappe, ETheme::Mocha);
    assert_eq!(ETabView::Plugins, ETabView::Plugins);
    assert_ne!(ETabView::Downloads, ETabView::Settings);
}

#[test]
fn lines_that_outlast_an_update() {
    assert!(line_outlasts("data=\"C:/Games/Morrowind/Data Files\""));
    assert!(!line_outlasts("data=\"C:/mods/one\""));
    assert!(!line_outlasts("data=C:/Games/Data Files"));
    assert!(line_outlasts("content=Morrowind.esm"));
    assert!(line_outlasts("content=Bloodmoon.esm"));
    assert!(line_outlasts("content=Tribunal.esm"));
    assert!(!line_outlasts("content=mod.esp"));
    assert!(!line_outlasts("content=morrowind.esm"));
    assert!(line_outlasts("fallback=x"));
    assert!(line_outlasts(""));
}

#[test]
fn configuration_from_the_profile() {
    let cfg = lines(&[
        "encoding=win1252",
        "data=\"/game/Data Files\"",
        "data=\"/mods/old\"",
        "content=Morrowind.esm",
        "content=old.esp",
    ]);
    let mods = vec![a_mod("/mods/a", true), a_mod("/mods/b", false), a_mod("/mods/c", true)];
    let plugins = vec![plugin("a.esp", false), plugin("c.esp", true)];
    assert_eq!(
        update_cfg(&cfg, &mods, &plugins, true),
        lines(&[
            "encoding=win1252\n",
            "data=\"/game/Data Files\"\n",
            "content=Morrowind.esm\n",
            "data=\"/mods/a\"\n",
            "data=\"/mods/c\"\n",
            "content=c.esp\n",
        ])
    );
    assert_eq!(
        update_cfg(&cfg, &mods, &plugins, false),
        lines(&[
            "encoding=win1252\n",
            "data=\"/game/Data Files\"\n",
            "content=Morrowind.esm\n",
            "content=c.esp\n",
        ])
    );
    assert!(update_cfg(&Vec::new(), &Vec::new(), &Vec::new(), true).is_empty());
    assert_eq!(update_profile_mods(&mods), lines(&["/mods/a\n", "/mods/c\n"]));
}

#[test]
fn enabling_from_a_list_takes_the_first_of_a_name() {
    let mut plugins =
        vec![plugin("a.esp", false), plugin("b.esp", false), plugin("a.esp", false), plugin("c.esp", true)];
    enable_plugins(&mut plugins, &lines(&["a.esp", "zzz.esp", "a.esp"]));
    assert_eq!(
        plugin_list(&plugins),
        pairs(&[("a.esp", true), ("b.esp", false), ("a.esp", false), ("c.esp", true)])
    );
    let mut mods = vec![a_mod("/m/1", false), a_mod("/m/2", true), a_mod("/m/3", false)];
    enable_mods(&mut mods, &lines(&["/m/3", "/m/2"]));
    assert_eq!(mod_list(&mods), pairs(&[("/m/1", false), ("/m/2", true), ("/m/3", true)]));
    enable_mods(&mut mods, &Vec::new());
    assert_eq!(mod_list(&mods), pairs(&[("/m/1", false), ("/m/2", true), ("/m/3", true)]));
}

#[test]
fn plugins_are_added_once() {
    let mut plugins = vec![plugin("a.esp", true)];
    add_plugins(
        &mut plugins,
        &vec![found("/m/1", "b.esp"), found("/m/1", "a.esp"), found("/m/2", "b.esp"), found("/m/2", "a.esp")],
    );
    assert_eq!(plugin_list(&plugins), pairs(&[("a.esp", true), ("b.esp", false), ("a.esp", false)]));
    add_plugins(&mut plugins, &Vec::new());
    assert_eq!(plugins.len(), 3);
}

#[test]
fn mods_come_from_existing_directories() {
    let data = vec![
        PathProbe { path: "/game/Data Files".to_string(), exists: true, is_file: false, is_dir: true },
        PathProbe { path: "/gone".to_string(), exists: false, is_file: false, is_dir: false },
        PathProbe { path: "/mods/a".to_string(), exists: true, is_file: false, is_dir: true },
    ];
    assert_eq!(mod_list(&import_mods(&data)), pairs(&[("/game/Data Files", false), ("/mods/a", false)]));
}

#[test]
fn a_mod_is_installed_once() {
    let mut mods = vec![a_mod("/lib/one", true)];
    assert!(install_mod(&mut mods, "/lib/two".to_string()));
    assert!(!install_mod(&mut mods, "/lib/one".to_string()));
    assert!(!install_mod(&mut mods, "/lib/two".to_string()));
    assert_eq!(mod_list(&mods), pairs(&[("/lib/one", true), ("/lib/two", false)]));
}

#[test]
fn downloads_are_archives_listed_once() {
    assert!(has_archive_extension("mod.zip"));
    assert!(has_archive_extension("mod.7Z"));
    assert!(has_archive_extension("mod.tar.RaR"));
    assert!(!has_archive_extension("mod.esp"));
    assert!(!has_archive_extension("zip"));
    let library = Folder {
        path: "/dl".to_string(),
        entries: Some(vec![
            FolderEntry { name: "a.zip".to_string(), is_file: true },
            FolderEntry { name: "b.txt".to_string(), is_file: true },
            FolderEntry { name: "c.7z".to_string(), is_file: false },
            FolderEntry { name: "d.rar".to_string(), is_file: true },
            FolderEntry { name: "a.zip".to_string(), is_file: true },
        ]),
    };
    let mut downloads = vec![found("/dl", "d.rar"), found("/other", "a.zip")];
    refresh_downloads(&library, &mut downloads);
    let names: Vec<(String, String)> = downloads.into_iter().map(|f| (f.dir, f.name)).collect();
    assert_eq!(
        names,
        vec![
            ("/dl".to_string(), "d.rar".to_string()),
            ("/other".to_string(), "a.zip".to_string()),
            ("/dl".to_string(), "a.zip".to_string()),
        ]
    );
    let mut untouched = vec![found("/dl", "d.rar")];
    refresh_downloads(&Folder { path: "/dl".to_string(), entries: None }, &mut untouched);
    assert_eq!(untouched.len(), 1);
}

#[test]
fn a_dragged_item_moves_and_the_others_keep_their_order() {
    let names = |plugins: &[PluginViewModel]| -> Vec<String> {
        plugins.iter().map(|p| p.name.clone()).collect()
    };
    let start = || vec![plugin("1", true), plugin("2", false), plugin("3", false), plugin("4", true)];

    let mut plugins = start();
    move_plugin(&mut plugins, 1, 1);
    assert_eq!(names(&plugins), vec!["1", "2", "3", "4"]);
    move_plugin(&mut plugins, 0, 2);
    assert_eq!(names(&plugins), vec!["2", "1", "3", "4"]);
    move_plugin(&mut plugins, 2, 0);
    assert_eq!(names(&plugins), vec!["3", "2", "1", "4"]);
    // the flags travel with their items
    assert_eq!(plugin_list(&plugins), pairs(&[("3", false), ("2", false), ("1", true), ("4", true)]));

    let mut plugins = start();
    move_plugin(&mut plugins, 0, 4);
    assert_eq!(names(&plugins), vec!["2", "3", "4", "1"]);
    move_plugin(&mut plugins, 3, 0);
    assert_eq!(names(&plugins), vec!["1", "2", "3", "4"]);
    move_plugin(&mut plugins, 1, 2);
    assert_eq!(names(&plugins), vec!["1", "2", "3", "4"]);

    let mut mods = vec![a_mod("a", false), a_mod("b", true), a_mod("c", false)];
    move_mod(&mut mods, 2, 1);
    assert_eq!(mod_list(&mods), pairs(&[("a", false), ("c", false), ("b", true)]));
    let mut one = vec![a_mod("a", false)];
    move_mod(&mut one, 0, 1);
    move_mod(&mut one, 0, 0);
    assert_eq!(mod_list(&one), pairs(&[("a", false)]));
}

#[test]
fn mods_are_dropped_place_by_place() {
    let start = || vec![a_mod("0", false), a_mod("1", true), a_mod("2", false), a_mod("3", true), a_mod("4", false)];
    let names = |mods: &[ModViewModel]| -> Vec<String> {
        mods.iter().map(|m| m.full_name.clone()).collect()
    };
    let mut mods = start();
    drop_mods(&mut mods, 0);
    assert_eq!(names(&mods), vec!["0", "1", "2", "3", "4"]);
    drop_mods(&mut mods, 1);
    assert_eq!(names(&mods), vec!["1", "2", "3", "4"]);
    let mut mods = start();
    drop_mods(&mut mods, 2);
    assert_eq!(names(&mods), vec!["1", "3", "4"]);
    let mut mods = start();
    drop_mods(&mut mods, 3);
    assert_eq!(names(&mods), vec!["1", "3"]);
    assert_eq!(mod_list(&mods), pairs(&[("1", true), ("3", true)]));
}
