use omw_util::config::parse_cfg;
use omw_util::plugins::{get_plugins, get_plugins_in_folder, Folder, FolderEntry};

fn file(name: &str) -> FolderEntry {
    FolderEntry { name: name.to_string(), is_file: true }
}

fn sub_dir(name: &str) -> FolderEntry {
    FolderEntry { name: name.to_string(), is_file: false }
}

fn folder(path: &str, entries: Vec<FolderEntry>) -> Folder {
    Folder { path: path.to_string(), entries: Some(entries) }
}

/// A configuration with three search directories and five content entries.
fn get_cfg() -> (Vec<String>, usize, usize) {
    let text = [
        "# This is the configuration of the game",
        "fallback-archive=Morrowind.bsa",
        "data=\"tests/assets/Data Files\"",
        "data=\"tests/assets/mods/mod1\"",
        "data=\"tests/assets/mods/mod2\"",
        "encoding=win1252",
        "content=Morrowind.esm",
        "content=Tribunal.esm",
        "content=Bloodmoon.esm",
        "content=mod1.esp",
        "content=mod2.omwaddon",
        "",
    ];
    (text.iter().map(|l| l.to_string()).collect(), 3, 5)
}

/// A large configuration: 806 search directories and 578 content entries,
/// mixed with other lines.
fn get_cfg_full() -> (Vec<String>, usize, usize) {
    let mut lines = vec!["no-sound=0".to_string()];
    for i in 0..806 {
        lines.push(format!("data=\"/mods/{}\"", i));
        if i % 7 == 0 {
            lines.push(format!("fallback=Weather_{},{}", i, i));
        }
    }
    for i in 0..578 {
        lines.push(format!("content=plugin{}.esp", i));
    }
    (lines, 806, 578)
}

/// What lies in the search directories of `get_cfg`.
fn get_folders(data_dirs: &[String]) -> Vec<Folder> {
    vec![
        folder(
            &data_dirs[0],
            vec![
                file("Morrowind.esm"),
                file("Tribunal.esm"),
                file("Bloodmoon.esm"),
                file("Morrowind.bsa"),
                sub_dir("Textures"),
            ],
        ),
        folder(&data_dirs[1], vec![file("mod1.esp"), file("readme.txt")]),
        folder(&data_dirs[2], vec![file("mod2.omwaddon"), file("unused.esp")]),
    ]
}

#[test]
fn test_parse() {
    // parse cfg for data dirs
    let (lines, d, c) = get_cfg();
    let info = parse_cfg(&lines);
    assert_eq!(info.data.len(), d);
    assert_eq!(info.plugins.len(), c);

    // parse full cfg for data dirs
    let (lines, d, c) = get_cfg_full();
    let info = parse_cfg(&lines);
    assert_eq!(info.data.len(), d);
    assert_eq!(info.plugins.len(), c);
}

#[test]
fn test_manifest() {
    // parse cfg for data dirs
    let (lines, d, c) = get_cfg();
    assert!(!lines.is_empty());
    let info = parse_cfg(&lines);
    assert_eq!(info.data.len(), d);
    assert_eq!(info.plugins.len(), c);
    // create a manifest
    let files = get_plugins(&get_folders(&info.data), &info.plugins, true);
    assert_eq!(files.len(), info.plugins.len());
}

#[test]
fn parse_keeps_file_order_and_strips_quotes() {
    let (lines, _, _) = get_cfg();
    let info = parse_cfg(&lines);
    assert_eq!(
        info.data,
        vec![
            "tests/assets/Data Files".to_string(),
            "tests/assets/mods/mod1".to_string(),
            "tests/assets/mods/mod2".to_string(),
        ]
    );
    assert_eq!(
        info.plugins,
        vec![
            "Morrowind.esm".to_string(),
            "Tribunal.esm".to_string(),
            "Bloodmoon.esm".to_string(),
            "mod1.esp".to_string(),
            "mod2.omwaddon".to_string(),
        ]
    );
}

#[test]
fn parse_strips_every_quote_and_keeps_duplicates() {
    let lines: Vec<String> = ["data=a\"b\"c\"", "data=a\"b\"c\"", "data=", "content=", "content= x "]
        .iter()
        .map(|l| l.to_string())
        .collect();
    let info = parse_cfg(&lines);
    assert_eq!(info.data, vec!["abc".to_string(), "abc".to_string(), "".to_string()]);
    assert_eq!(info.plugins, vec!["".to_string(), " x ".to_string()]);
}

#[test]
fn parse_passes_over_other_lines() {
    let lines: Vec<String> = [" data=x", "Data=x", "contents=y", "content", "dat", ""]
        .iter()
        .map(|l| l.to_string())
        .collect();
    let info = parse_cfg(&lines);
    assert!(info.data.is_empty());
    assert!(info.plugins.is_empty());
    let info = parse_cfg(&Vec::new());
    assert!(info.data.is_empty());
    assert!(info.plugins.is_empty());
}

#[test]
fn locator_takes_plugin_files_only() {
    let dir = folder(
        "/data",
        vec![
            file("a.esp"),
            file("B.ESM"),
            file("c.Esp"),
            file("d.omwaddon"),
            file("e.omwscripts"),
            file("f.txt"),
            file("esp"),
            file(".esp"),
            file("g.esp.bak"),
            file("h.bak.esp"),
            file("i."),
            sub_dir("j.esp"),
        ],
    );
    let base: Vec<String> =
        get_plugins_in_folder(&dir, false).into_iter().map(|f| f.name).collect();
    assert_eq!(base, vec!["a.esp", "B.ESM", "c.Esp", "h.bak.esp"]);
    let extended: Vec<String> =
        get_plugins_in_folder(&dir, true).into_iter().map(|f| f.name).collect();
    assert_eq!(
        extended,
        vec!["a.esp", "B.ESM", "c.Esp", "d.omwaddon", "e.omwscripts", "h.bak.esp"]
    );
    for found in get_plugins_in_folder(&dir, true) {
        assert_eq!(found.dir, "/data");
    }
}

#[test]
fn locator_gives_nothing_for_a_missing_directory() {
    let missing = Folder { path: "/nowhere".to_string(), entries: None };
    assert!(get_plugins_in_folder(&missing, true).is_empty());
    assert!(get_plugins_in_folder(&folder("/empty", vec![]), true).is_empty());
}

#[test]
fn locator_gives_the_same_set_for_another_order() {
    let first = folder("/d", vec![file("a.esp"), file("b.txt"), file("c.esm"), file("a.esp")]);
    let second = folder("/d", vec![file("c.esm"), file("a.esp"), file("b.txt")]);
    let mut one: Vec<String> =
        get_plugins_in_folder(&first, false).into_iter().map(|f| f.name).collect();
    let mut two: Vec<String> =
        get_plugins_in_folder(&second, false).into_iter().map(|f| f.name).collect();
    let mut again: Vec<String> =
        get_plugins_in_folder(&first, false).into_iter().map(|f| f.name).collect();
    one.sort();
    one.dedup();
    two.sort();
    two.dedup();
    again.sort();
    again.dedup();
    assert_eq!(one, two);
    assert_eq!(one, again);
}

#[test]
fn resolver_matches_names_exactly() {
    let folders = vec![folder("/a", vec![file("x.esp"), file("X.ESP"), file("y.esp")])];
    let names = vec!["x.esp".to_string(), "z.esp".to_string()];
    let found = get_plugins(&folders, &names, false);
    assert_eq!(found.len(), 1);
    assert_eq!(found[0].dir, "/a");
    assert_eq!(found[0].name, "x.esp");
}

#[test]
fn resolver_goes_by_directory_order_and_keeps_both_copies() {
    let folders = vec![
        folder("/b", vec![file("y.esp"), file("x.esp")]),
        Folder { path: "/gone".to_string(), entries: None },
        folder("/a", vec![file("x.esp")]),
    ];
    let names = vec!["x.esp".to_string(), "y.esp".to_string()];
    let found: Vec<(String, String)> =
        get_plugins(&folders, &names, false).into_iter().map(|f| (f.dir, f.name)).collect();
    assert_eq!(
        found,
        vec![
            ("/b".to_string(), "y.esp".to_string()),
            ("/b".to_string(), "x.esp".to_string()),
            ("/a".to_string(), "x.esp".to_string()),
        ]
    );
}

#[test]
fn resolver_leaves_extended_plugins_out_unless_asked() {
    let (lines, _, _) = get_cfg();
    let info = parse_cfg(&lines);
    let files = get_plugins(&get_folders(&info.data), &info.plugins, false);
    assert_eq!(files.len(), 4);
}
