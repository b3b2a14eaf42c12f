//! The plugin locator and the resolver: which files of a directory are
//! plugins, and which of them a configuration names.

use crate::sequences::{lemma_filter_map_has, lemma_flat_map_add, lemma_flat_map_contains};
use crate::text::{chars_of, lowered, same_text, string_from, to_ascii_lowercase};
use vstd::prelude::*;

verus! {

/// One entry of a directory, as the file system reported it.
#[derive(Debug)]
pub struct FolderEntry {
    /// The entry's file name, without any directory.
    pub name: String,
    /// Whether the entry is a regular file.
    pub is_file: bool,
}

/// A directory with what was found in it.
#[derive(Debug)]
pub struct Folder {
    /// The directory's path.
    pub path: String,
    /// The entries directly inside the directory, in the order in which they
    /// were reported; `None` where the directory does not exist or cannot be
    /// read.
    pub entries: Option<Vec<FolderEntry>>,
}

/// A file that was found in a directory: the directory and the file name.
#[derive(Debug)]
pub struct FoundFile {
    /// The path of the directory that holds the file.
    pub dir: String,
    /// The file name, extension included.
    pub name: String,
}

/// The mathematical value of a [`FolderEntry`].
pub ghost struct FolderEntryView {
    pub name: Seq<char>,
    pub is_file: bool,
}

/// The mathematical value of a [`Folder`].
pub ghost struct FolderView {
    pub path: Seq<char>,
    pub entries: Option<Seq<FolderEntryView>>,
}

/// The mathematical value of a [`FoundFile`].
pub ghost struct FoundFileView {
    pub dir: Seq<char>,
    pub name: Seq<char>,
}

impl View for FolderEntry {
    type V = FolderEntryView;

    open spec fn view(&self) -> FolderEntryView {
        FolderEntryView { name: self.name@, is_file: self.is_file }
    }
}

impl DeepView for FolderEntry {
    type V = FolderEntryView;

    open spec fn deep_view(&self) -> FolderEntryView {
        self@
    }
}

impl View for Folder {
    type V = FolderView;

    open spec fn view(&self) -> FolderView {
        FolderView { path: self.path@, entries: self.entries.deep_view() }
    }
}

impl DeepView for Folder {
    type V = FolderView;

    open spec fn deep_view(&self) -> FolderView {
        self@
    }
}

impl View for FoundFile {
    type V = FoundFileView;

    open spec fn view(&self) -> FoundFileView {
        FoundFileView { dir: self.dir@, name: self.name@ }
    }
}

impl DeepView for FoundFile {
    type V = FoundFileView;

    open spec fn deep_view(&self) -> FoundFileView {
        self@
    }
}

/// The extension of a file name: what follows its last dot, unless that dot
/// is the name's first character. The name `..` has none.
pub open spec fn extension(name: Seq<char>) -> Option<Seq<char>> {
    match name.index_of_last('.') {
        Some(dot) => if dot == 0 || name == seq!['.', '.'] {
            None
        } else {
            Some(name.skip(dot + 1))
        },
        None => None,
    }
}

/// Whether an extension marks a plugin: `esm` or `esp` in any mix of upper
/// and lower case, and with `include_extended` also `omwaddon` and
/// `omwscripts`.
pub open spec fn is_plugin_extension(ext: Seq<char>, include_extended: bool) -> bool {
    let e = lowered(ext);
    e == "esm"@ || e == "esp"@ || (include_extended && (e == "omwaddon"@ || e == "omwscripts"@))
}

/// Whether a file name has a plugin's extension.
pub open spec fn is_plugin_name(name: Seq<char>, include_extended: bool) -> bool {
    match extension(name) {
        Some(ext) => is_plugin_extension(ext, include_extended),
        None => false,
    }
}

/// The plugin that a directory entry is, if it is one: a regular file with a
/// plugin's extension.
pub open spec fn located(dir: Seq<char>, entry: FolderEntryView, include_extended: bool) -> Option<
    FoundFileView,
> {
    if entry.is_file && is_plugin_name(entry.name, include_extended) {
        Some(FoundFileView { dir, name: entry.name })
    } else {
        None
    }
}

/// `located` for one directory, as a function value.
pub open spec fn located_fn(dir: Seq<char>, include_extended: bool) -> spec_fn(
    FolderEntryView,
) -> Option<FoundFileView> {
    |entry: FolderEntryView| located(dir, entry, include_extended)
}

/// The plugins directly inside a directory, in the order of its entries. A
/// directory that is missing or unreadable holds none.
pub open spec fn plugins_in(folder: FolderView, include_extended: bool) -> Seq<FoundFileView> {
    match folder.entries {
        Some(entries) => entries.filter_map(located_fn(folder.path, include_extended)),
        None => Seq::empty(),
    }
}

/// The test that a plugin's file name is one of `names`.
pub open spec fn named_in(names: Seq<Seq<char>>) -> spec_fn(FoundFileView) -> bool {
    |file: FoundFileView| names.contains(file.name)
}

/// The plugins of one directory whose file name is one of `names`.
pub open spec fn resolved_in(
    folder: FolderView,
    names: Seq<Seq<char>>,
    include_extended: bool,
) -> Seq<FoundFileView> {
    plugins_in(folder, include_extended).filter(named_in(names))
}

/// `resolved_in` for one list of names, as a function value.
pub open spec fn resolved_in_fn(names: Seq<Seq<char>>, include_extended: bool) -> spec_fn(
    FolderView,
) -> Seq<FoundFileView> {
    |folder: FolderView| resolved_in(folder, names, include_extended)
}

/// The resolved plugin set: directory by directory in the order given, the
/// plugins whose file name is exactly one of `names`. A name found in two
/// directories is resolved twice.
pub open spec fn resolved(
    folders: Seq<FolderView>,
    names: Seq<Seq<char>>,
    include_extended: bool,
) -> Seq<FoundFileView> {
    folders.flat_map(resolved_in_fn(names, include_extended))
}

/// The extension of a file name, if it has one.
pub fn file_extension(name: &str) -> (r: Option<String>)
    ensures
        match r {
            Some(ext) => extension(name@) == Some(ext@),
            None => extension(name@) is None,
        },
{
    let chars = chars_of(name);
    let mut dot: usize = chars.len();
    while dot > 0 && chars[dot - 1] != '.'
        invariant
            dot <= chars.len(),
            forall|j: int| dot <= j < chars.len() ==> chars@[j] != '.',
        decreases dot,
    {
        dot -= 1;
    }
    proof {
        chars@.index_of_last_ensures('.');
        if dot > 0 {
            assert(chars@[dot - 1] == '.');
            assert(chars@.contains('.'));
            assert(chars@.index_of_last('.') == Some(dot - 1));
        } else {
            if chars@.contains('.') {
                let j = choose|j: int| 0 <= j < chars@.len() && chars@[j] == '.';
                assert(false);
            }
        }
    }
    if dot <= 1 {
        return None;
    }
    if chars.len() == 2 && chars[0] == '.' {
        assert(chars@ =~= seq!['.', '.']);
        return None;
    }
    proof {
        if chars@ == seq!['.', '.'] {
            assert(chars@.len() == 2 && chars@[0] == '.');
        }
    }
    Some(string_from(&chars, dot))
}

/// Whether a file name has a plugin's extension.
pub fn has_plugin_extension(name: &str, include_extended: bool) -> (b: bool)
    ensures
        b == is_plugin_name(name@, include_extended),
{
    match file_extension(name) {
        Some(ext) => {
            let e = to_ascii_lowercase(ext.as_str());
            same_text(e.as_str(), "esm") || same_text(e.as_str(), "esp") || (include_extended && (
                same_text(e.as_str(), "omwaddon") || same_text(e.as_str(), "omwscripts")))
        },
        None => false,
    }
}

/// Lists the plugins directly inside a directory: its regular files with a
/// plugin's extension, in the order of the directory's entries. A directory
/// that is missing or unreadable gives an empty list.
pub fn get_plugins_in_folder(folder: &Folder, use_omw_plugins: bool) -> (results: Vec<FoundFile>)
    ensures
        results.deep_view() == plugins_in(folder@, use_omw_plugins),
{
    let mut results: Vec<FoundFile> = Vec::new();
    match &folder.entries {
        Some(entries) => {
            let ghost all = entries.deep_view();
            let ghost keep = located_fn(folder.path@, use_omw_plugins);
            let mut i: usize = 0;
            while i < entries.len()
                invariant
                    i <= entries.len(),
                    all == entries.deep_view(),
                    keep == located_fn(folder.path@, use_omw_plugins),
                    results.deep_view() == all.take(i as int).filter_map(keep),
                decreases entries.len() - i,
            {
                let entry = &entries[i];
                let ghost before = results.deep_view();
                proof {
                    all.lemma_filter_map_take_succ(keep, i as int);
                    assert(all[i as int] == entry@);
                }
                if entry.is_file && has_plugin_extension(entry.name.as_str(), use_omw_plugins) {
                    let file = FoundFile { dir: folder.path.clone(), name: entry.name.clone() };
                    results.push(file);
                    assert(results.deep_view() =~= before + seq![file@]);
                }
                i += 1;
            }
            proof {
                assert(all.take(entries.len() as int) =~= all);
            }
        },
        None => {},
    }
    results
}

/// Whether `name` is one of `names`.
pub fn is_named(names: &Vec<String>, name: &str) -> (b: bool)
    ensures
        b == names.deep_view().contains(name@),
{
    let mut i: usize = 0;
    while i < names.len()
        invariant
            i <= names.len(),
            forall|j: int| 0 <= j < i ==> names.deep_view()[j] != name@,
        decreases names.len() - i,
    {
        if same_text(names[i].as_str(), name) {
            assert(names.deep_view()[i as int] == name@);
            return true;
        }
        i += 1;
    }
    false
}

/// Resolves the content entries of a configuration against its search
/// directories: for every directory in the order given, the plugins found in
/// it whose file name is exactly one of `plugin_names`.
pub fn get_plugins(data_dirs: &Vec<Folder>, plugin_names: &Vec<String>, use_omw_plugins: bool) -> (manifest:
    Vec<FoundFile>)
    ensures
        manifest.deep_view() == resolved(
            data_dirs.deep_view(),
            plugin_names.deep_view(),
            use_omw_plugins,
        ),
{
    let mut manifest: Vec<FoundFile> = Vec::new();
    let ghost folders = data_dirs.deep_view();
    let ghost names = plugin_names.deep_view();
    let ghost per_folder = resolved_in_fn(names, use_omw_plugins);
    let mut d: usize = 0;
    while d < data_dirs.len()
        invariant
            d <= data_dirs.len(),
            folders == data_dirs.deep_view(),
            names == plugin_names.deep_view(),
            per_folder == resolved_in_fn(names, use_omw_plugins),
            manifest.deep_view() == folders.take(d as int).flat_map(per_folder),
        decreases data_dirs.len() - d,
    {
        let files = get_plugins_in_folder(&data_dirs[d], use_omw_plugins);
        let ghost found = files.deep_view();
        let ghost before = manifest.deep_view();
        proof {
            folders.lemma_flat_map_take_append(per_folder, d as int);
            assert(folders[d as int] == data_dirs[d as int]@);
            reveal(Seq::filter);
        }
        let mut i: usize = 0;
        while i < files.len()
            invariant
                i <= files.len(),
                found == files.deep_view(),
                names == plugin_names.deep_view(),
                manifest.deep_view() == before + found.take(i as int).filter(named_in(names)),
            decreases files.len() - i,
        {
            let file = &files[i];
            let ghost so_far = manifest.deep_view();
            proof {
                let head = found.take(i as int);
                assert(found.take(i + 1) =~= head.push(found[i as int]));
                head.lemma_filter_push(found[i as int], named_in(names));
                assert(found[i as int] == file@);
            }
            if is_named(plugin_names, file.name.as_str()) {
                let kept = FoundFile { dir: file.dir.clone(), name: file.name.clone() };
                manifest.push(kept);
                assert(manifest.deep_view() =~= so_far + seq![kept@]);
            }
            i += 1;
        }
        proof {
            assert(found.take(files.len() as int) =~= found);
        }
        d += 1;
    }
    proof {
        assert(folders.take(data_dirs.len() as int) =~= folders);
    }
    manifest
}

/// The plugins found in a directory do not depend on the order in which its
/// entries are reported: two listings of one directory that hold the same
/// entries give the same set of plugins. In particular, listing an unchanged
/// directory twice gives the same set.
pub proof fn lemma_locator_idempotent(
    path: Seq<char>,
    first: Seq<FolderEntryView>,
    second: Seq<FolderEntryView>,
    include_extended: bool,
)
    requires
        first.to_set() == second.to_set(),
    ensures
        plugins_in(FolderView { path, entries: Some(first) }, include_extended).to_set()
            == plugins_in(FolderView { path, entries: Some(second) }, include_extended).to_set(),
{
    let keep = located_fn(path, include_extended);
    let a = first.filter_map(keep);
    let b = second.filter_map(keep);
    assert forall|file: FoundFileView| a.to_set().contains(file) <==> b.to_set().contains(
        file,
    ) by {
        if a.contains(file) {
            first.lemma_filter_map_contains(keep, file);
            let entry = choose|entry: FolderEntryView| #[trigger]
                first.contains(entry) && keep(entry) == Some(file);
            assert(first.to_set().contains(entry));
            assert(second.to_set().contains(entry));
            lemma_filter_map_has(second, keep, entry, file);
        }
        if b.contains(file) {
            second.lemma_filter_map_contains(keep, file);
            let entry = choose|entry: FolderEntryView| #[trigger]
                second.contains(entry) && keep(entry) == Some(file);
            assert(second.to_set().contains(entry));
            assert(first.to_set().contains(entry));
            lemma_filter_map_has(first, keep, entry, file);
        }
    }
    assert(a.to_set() =~= b.to_set());
}

/// A file is resolved only if its name is exactly one of the content
/// entries, and only from a search directory that lists it as a regular file
/// with a plugin's extension.
pub proof fn lemma_resolved_file(
    folders: Seq<FolderView>,
    names: Seq<Seq<char>>,
    include_extended: bool,
    file: FoundFileView,
)
    requires
        resolved(folders, names, include_extended).contains(file),
    ensures
        names.contains(file.name),
        is_plugin_name(file.name, include_extended),
        exists|k: int|
            0 <= k < folders.len() && (#[trigger] folders[k]).path == file.dir && folders[k].entries
                is Some && folders[k].entries.unwrap().contains(
                FolderEntryView { name: file.name, is_file: true },
            ),
{
    let per_folder = resolved_in_fn(names, include_extended);
    lemma_flat_map_contains(folders, per_folder, file);
    let k = choose|k: int| 0 <= k < folders.len() && (#[trigger] per_folder(folders[k])).contains(file);
    let folder = folders[k];
    let all = plugins_in(folder, include_extended);
    let i = choose|i: int| 0 <= i < resolved_in(folder, names, include_extended).len() && resolved_in(
        folder,
        names,
        include_extended,
    )[i] == file;
    all.lemma_filter_pred(named_in(names), i);
    all.lemma_filter_contains_rev(named_in(names), file);
    let entries = folder.entries.unwrap();
    let keep = located_fn(folder.path, include_extended);
    entries.lemma_filter_map_contains(keep, file);
    let entry = choose|entry: FolderEntryView| #[trigger] entries.contains(entry) && keep(entry) == Some(file);
    assert(entry == FolderEntryView { name: file.name, is_file: true });
}

/// The search directories are gone through in their order: what two runs of
/// directories resolve together is what the first resolves, followed by what
/// the second resolves.
pub proof fn lemma_resolved_in_order(
    first: Seq<FolderView>,
    second: Seq<FolderView>,
    names: Seq<Seq<char>>,
    include_extended: bool,
)
    ensures
        resolved(first + second, names, include_extended) == resolved(
            first,
            names,
            include_extended,
        ) + resolved(second, names, include_extended),
{
    lemma_flat_map_add(first, second, resolved_in_fn(names, include_extended));
}

} // verus!
