//! The state of a mod manager's profile: the mods and plugins that it lists,
//! which of them are enabled, and the configuration that follows from them.

use crate::paths::{PathProbe, PathProbeView};
use crate::plugins::{
    extension, file_extension, is_named, Folder, FolderEntryView, FoundFile, FoundFileView,
};
use crate::rewrite::{content_line, with_eol};
use crate::text::{ends_with, lowered, same_text, starts_with, to_ascii_lowercase};
use vstd::prelude::*;
use vstd::string::StringExecFns;

verus! {

/// The name of the file in which a profile lists its enabled mods.
pub const MODS_LIST_FILE: &'static str = "mods.txt";

/// The name of the file in which a profile lists its enabled plugins.
pub const PLUGINS_LIST_FILE: &'static str = "plugins.txt";

/// The tabs of the side panel.
#[derive(Clone, Copy, Debug, PartialEq, Eq, Structural)]
pub enum ETabView {
    Plugins,
    Downloads,
    Properties,
    Settings,
}

/// The colour themes.
#[derive(Clone, Copy, Debug, PartialEq, Eq, Structural)]
pub enum ETheme {
    Frappe,
    Latte,
    Macchiato,
    Mocha,
}

/// The scales of the user interface.
#[derive(Clone, Copy, Debug, PartialEq, Eq, Structural)]
pub enum EScale {
    Native,
    Small,
    Medium,
    Large,
}

impl EScale {
    /// The pixels per point of a scale, in tenths.
    pub open spec fn tenths(self) -> nat {
        match self {
            EScale::Native => 12,
            EScale::Small => 22,
            EScale::Medium => 30,
            EScale::Large => 45,
        }
    }

    /// The pixels per point of the scale, in tenths: 12 for the native
    /// scale, 22 for the small, 30 for the medium and 45 for the large one.
    pub fn pixels_per_point_tenths(self) -> (t: u32)
        ensures
            t == self.tenths(),
    {
        match self {
            EScale::Native => 12,
            EScale::Small => 22,
            EScale::Medium => 30,
            EScale::Large => 45,
        }
    }
}

/// A plugin as the profile lists it.
#[derive(Debug, PartialEq, Eq)]
pub struct PluginViewModel {
    /// The plugin's file name.
    pub name: String,
    /// Whether the profile loads the plugin.
    pub enabled: bool,
}

/// A mod as the profile lists it.
#[derive(Debug)]
pub struct ModViewModel {
    /// The path of the mod's directory.
    pub full_name: String,
    /// Whether the profile uses the mod.
    pub enabled: bool,
}

/// A mod as an earlier form of the profile listed it.
#[derive(Debug)]
pub struct ModInfo {
    /// The path of the mod's directory.
    pub path: String,
    /// Whether the profile uses the mod.
    pub enabled: bool,
}

/// What a mod site tells about a mod.
#[derive(Debug)]
pub struct ModNexusMetaData {
    pub mod_id: Option<usize>,
    pub description: Option<String>,
    pub mod_name: Option<String>,
    pub version: Option<String>,
}

/// A downloaded archive.
#[derive(Debug)]
pub struct ArchiveViewModel {
    /// The archive's file name.
    pub file_name: String,
    /// What is known about the mod in the archive.
    pub meta_data: Option<ModNexusMetaData>,
}

/// The mathematical value of a [`PluginViewModel`], a [`ModViewModel`] or a
/// [`ModInfo`]: a name and whether it is enabled.
pub ghost struct Listed {
    pub name: Seq<char>,
    pub enabled: bool,
}

impl View for PluginViewModel {
    type V = Listed;

    open spec fn view(&self) -> Listed {
        Listed { name: self.name@, enabled: self.enabled }
    }
}

impl DeepView for PluginViewModel {
    type V = Listed;

    open spec fn deep_view(&self) -> Listed {
        self@
    }
}

impl View for ModViewModel {
    type V = Listed;

    open spec fn view(&self) -> Listed {
        Listed { name: self.full_name@, enabled: self.enabled }
    }
}

impl DeepView for ModViewModel {
    type V = Listed;

    open spec fn deep_view(&self) -> Listed {
        self@
    }
}

impl View for ModInfo {
    type V = Listed;

    open spec fn view(&self) -> Listed {
        Listed { name: self.path@, enabled: self.enabled }
    }
}

impl DeepView for ModInfo {
    type V = Listed;

    open spec fn deep_view(&self) -> Listed {
        self@
    }
}

/// The mathematical value of a [`ModNexusMetaData`].
pub ghost struct MetaDataView {
    pub mod_id: Option<usize>,
    pub description: Option<Seq<char>>,
    pub mod_name: Option<Seq<char>>,
    pub version: Option<Seq<char>>,
}

impl View for ModNexusMetaData {
    type V = MetaDataView;

    open spec fn view(&self) -> MetaDataView {
        MetaDataView {
            mod_id: self.mod_id,
            description: self.description.deep_view(),
            mod_name: self.mod_name.deep_view(),
            version: self.version.deep_view(),
        }
    }
}

impl DeepView for ModNexusMetaData {
    type V = MetaDataView;

    open spec fn deep_view(&self) -> MetaDataView {
        self@
    }
}

/// The mathematical value of an [`ArchiveViewModel`].
pub ghost struct ArchiveView {
    pub file_name: Seq<char>,
    pub meta_data: Option<MetaDataView>,
}

impl View for ArchiveViewModel {
    type V = ArchiveView;

    open spec fn view(&self) -> ArchiveView {
        ArchiveView { file_name: self.file_name@, meta_data: self.meta_data.deep_view() }
    }
}

impl Default for PluginViewModel {
    /// A plugin without a name that is not enabled.
    fn default() -> (p: PluginViewModel)
        ensures
            p@ == (Listed { name: Seq::empty(), enabled: false }),
    {
        PluginViewModel { name: String::new(), enabled: false }
    }
}

impl Default for ModViewModel {
    /// A mod without a path that is not enabled.
    fn default() -> (m: ModViewModel)
        ensures
            m@ == (Listed { name: Seq::empty(), enabled: false }),
    {
        ModViewModel { full_name: String::new(), enabled: false }
    }
}

impl Default for ModInfo {
    /// A mod without a path that is not enabled.
    fn default() -> (m: ModInfo)
        ensures
            m@ == (Listed { name: Seq::empty(), enabled: false }),
    {
        ModInfo { path: String::new(), enabled: false }
    }
}

impl Default for ModNexusMetaData {
    /// Nothing known.
    fn default() -> (m: ModNexusMetaData)
        ensures
            m@ == (MetaDataView { mod_id: None, description: None, mod_name: None, version: None }),
    {
        ModNexusMetaData { mod_id: None, description: None, mod_name: None, version: None }
    }
}

impl Default for ArchiveViewModel {
    /// An archive without a name of which nothing is known.
    fn default() -> (a: ArchiveViewModel)
        ensures
            a@ == (ArchiveView { file_name: Seq::empty(), meta_data: None }),
    {
        ArchiveViewModel { file_name: String::new(), meta_data: None }
    }
}

/// Whether a line of the configuration outlasts an update from the profile:
/// a `data=` line only if it ends in `Data Files"`, a `content=` line only
/// if it ends in the name of one of the game's own three master files, and
/// every other line.
pub open spec fn outlasts(line: Seq<char>) -> bool {
    if "data="@.is_prefix_of(line) {
        "Data Files\""@.is_suffix_of(line)
    } else if "content="@.is_prefix_of(line) {
        "Morrowind.esm"@.is_suffix_of(line) || "Bloodmoon.esm"@.is_suffix_of(line)
            || "Tribunal.esm"@.is_suffix_of(line)
    } else {
        true
    }
}

/// What an update keeps of a line.
pub open spec fn outlasting() -> spec_fn(Seq<char>) -> Option<Seq<char>> {
    |line: Seq<char>|
        if outlasts(line) {
            Some(with_eol(line))
        } else {
            None
        }
}

/// The search-directory line of the configuration for a mod.
pub open spec fn data_line(full_name: Seq<char>) -> Seq<char> {
    with_eol("data=\""@ + full_name + "\""@)
}

/// The line that an enabled mod adds to the configuration.
pub open spec fn enabled_data_line() -> spec_fn(Listed) -> Option<Seq<char>> {
    |item: Listed|
        if item.enabled {
            Some(data_line(item.name))
        } else {
            None
        }
}

/// The line that an enabled plugin adds to the configuration.
pub open spec fn enabled_content_line() -> spec_fn(Listed) -> Option<Seq<char>> {
    |item: Listed|
        if item.enabled {
            Some(content_line(item.name))
        } else {
            None
        }
}

/// The line that an enabled mod adds to the profile's list of mods.
pub open spec fn enabled_name_line() -> spec_fn(Listed) -> Option<Seq<char>> {
    |item: Listed|
        if item.enabled {
            Some(with_eol(item.name))
        } else {
            None
        }
}

/// The configuration after an update from the profile: the lines that
/// outlast it, then with `with_mods` a search-directory line for each
/// enabled mod, then a content line for each enabled plugin.
pub open spec fn updated_cfg(
    lines: Seq<Seq<char>>,
    mods: Seq<Listed>,
    plugins: Seq<Listed>,
    with_mods: bool,
) -> Seq<Seq<char>> {
    lines.filter_map(outlasting()) + (if with_mods {
        mods.filter_map(enabled_data_line())
    } else {
        Seq::empty()
    }) + plugins.filter_map(enabled_content_line())
}

/// Whether a line of the configuration outlasts an update from the profile.
pub fn line_outlasts(line: &str) -> (b: bool)
    ensures
        b == outlasts(line@),
{
    if starts_with(line, "data=") {
        ends_with(line, "Data Files\"")
    } else if starts_with(line, "content=") {
        ends_with(line, "Morrowind.esm") || ends_with(line, "Bloodmoon.esm") || ends_with(
            line,
            "Tribunal.esm",
        )
    } else {
        true
    }
}

/// Writes the profile into a configuration: `lines` are the lines of the
/// configuration as they were read, `with_mods` tells whether a mod library
/// is set. The result keeps the lines that outlast the update and ends with
/// a `data="<path>"` line for each enabled mod (only with a mod library) and
/// a `content=<name>` line for each enabled plugin. Every line of the result
/// ends in a line feed.
pub fn update_cfg(
    lines: &Vec<String>,
    mods: &Vec<ModViewModel>,
    plugins: &Vec<PluginViewModel>,
    with_mods: bool,
) -> (out: Vec<String>)
    ensures
        out.deep_view() == updated_cfg(
            lines.deep_view(),
            mods.deep_view(),
            plugins.deep_view(),
            with_mods,
        ),
{
    let mut out: Vec<String> = Vec::new();
    let ghost all = lines.deep_view();
    let mut i: usize = 0;
    while i < lines.len()
        invariant
            i <= lines.len(),
            all == lines.deep_view(),
            out.deep_view() == all.take(i as int).filter_map(outlasting()),
        decreases lines.len() - i,
    {
        let line = &lines[i];
        let ghost before = out.deep_view();
        proof {
            all.lemma_filter_map_take_succ(outlasting(), i as int);
            assert(all[i as int] == line@);
        }
        if line_outlasts(line.as_str()) {
            let mut written = line.clone();
            written.push('\n');
            out.push(written);
            assert(out.deep_view() =~= before + seq![with_eol(line@)]);
        }
        i += 1;
    }
    let ghost head = out.deep_view();
    let ghost all_mods = mods.deep_view();
    proof {
        assert(all.take(lines.len() as int) =~= all);
        assert(head + Seq::<Seq<char>>::empty() =~= head);
    }
    if with_mods {
        let mut m: usize = 0;
        proof {
            assert(head + all_mods.take(0).filter_map(enabled_data_line()) =~= head);
        }
        while m < mods.len()
            invariant
                m <= mods.len(),
                all_mods == mods.deep_view(),
                out.deep_view() == head + all_mods.take(m as int).filter_map(enabled_data_line()),
            decreases mods.len() - m,
        {
            let item = &mods[m];
            let ghost before = out.deep_view();
            proof {
                all_mods.lemma_filter_map_take_succ(enabled_data_line(), m as int);
                assert(all_mods[m as int] == item@);
            }
            if item.enabled {
                let mut line = "data=\"".to_owned();
                line.append(item.full_name.as_str());
                line.append("\"");
                line.push('\n');
                assert(line@ =~= data_line(item@.name));
                out.push(line);
                assert(out.deep_view() =~= before + seq![line@]);
            }
            m += 1;
        }
        proof {
            assert(all_mods.take(mods.len() as int) =~= all_mods);
        }
    }
    let ghost middle = out.deep_view();
    let ghost all_plugins = plugins.deep_view();
    let mut p: usize = 0;
    proof {
        assert(middle + all_plugins.take(0).filter_map(enabled_content_line()) =~= middle);
    }
    while p < plugins.len()
        invariant
            p <= plugins.len(),
            all_plugins == plugins.deep_view(),
            out.deep_view() == middle + all_plugins.take(p as int).filter_map(
                enabled_content_line(),
            ),
        decreases plugins.len() - p,
    {
        let item = &plugins[p];
        let ghost before = out.deep_view();
        proof {
            all_plugins.lemma_filter_map_take_succ(enabled_content_line(), p as int);
            assert(all_plugins[p as int] == item@);
        }
        if item.enabled {
            let mut line = "content=".to_owned();
            line.append(item.name.as_str());
            line.push('\n');
            assert(line@ =~= content_line(item@.name));
            out.push(line);
            assert(out.deep_view() =~= before + seq![line@]);
        }
        p += 1;
    }
    proof {
        assert(all_plugins.take(plugins.len() as int) =~= all_plugins);
    }
    out
}

/// The profile's list of mods as it is written to its file: one line for
/// each enabled mod, the mod's path with a line feed at its end.
pub fn update_profile_mods(mods: &Vec<ModViewModel>) -> (out: Vec<String>)
    ensures
        out.deep_view() == mods.deep_view().filter_map(enabled_name_line()),
{
    let mut out: Vec<String> = Vec::new();
    let ghost all = mods.deep_view();
    let mut i: usize = 0;
    while i < mods.len()
        invariant
            i <= mods.len(),
            all == mods.deep_view(),
            out.deep_view() == all.take(i as int).filter_map(enabled_name_line()),
        decreases mods.len() - i,
    {
        let item = &mods[i];
        let ghost before = out.deep_view();
        proof {
            all.lemma_filter_map_take_succ(enabled_name_line(), i as int);
            assert(all[i as int] == item@);
        }
        if item.enabled {
            let mut line = item.full_name.clone();
            line.push('\n');
            out.push(line);
            assert(out.deep_view() =~= before + seq![with_eol(item@.name)]);
        }
        i += 1;
    }
    proof {
        assert(all.take(mods.len() as int) =~= all);
    }
    out
}

/// No item before the `i`-th has its name.
pub open spec fn first_of_its_name(items: Seq<Listed>, i: int) -> bool {
    forall|j: int| 0 <= j < i ==> (#[trigger] items[j]).name != items[i].name
}

/// The items after those listed in `names` were enabled: of the items that
/// share a name in `names`, the first becomes enabled; nothing else changes.
pub open spec fn enabled_by(items: Seq<Listed>, names: Seq<Seq<char>>) -> Seq<Listed> {
    Seq::new(
        items.len(),
        |i: int|
            Listed {
                name: items[i].name,
                enabled: items[i].enabled || (names.contains(items[i].name) && first_of_its_name(
                    items,
                    i,
                )),
            },
    )
}

/// The plugin list after the files `found` were added to it, one after
/// another: a file adds a plugin of its name that is not enabled, unless the
/// list holds just that already.
pub open spec fn with_plugins(plugins: Seq<Listed>, found: Seq<FoundFileView>) -> Seq<Listed>
    decreases found.len(),
{
    if found.len() == 0 {
        plugins
    } else {
        let before = with_plugins(plugins, found.drop_last());
        let item = Listed { name: found.last().name, enabled: false };
        if before.contains(item) {
            before
        } else {
            before.push(item)
        }
    }
}

/// The mod that a search directory of the configuration gives, if the
/// directory exists: one that is not enabled.
pub open spec fn existing_mod() -> spec_fn(PathProbeView) -> Option<Listed> {
    |probe: PathProbeView|
        if probe.exists {
            Some(Listed { name: probe.path, enabled: false })
        } else {
            None
        }
}

/// Whether a file name has the extension of an archive: `zip`, `7z` or
/// `rar`, in any mix of upper and lower case.
pub open spec fn is_archive_name(name: Seq<char>) -> bool {
    match extension(name) {
        Some(ext) => {
            let e = lowered(ext);
            e == "zip"@ || e == "7z"@ || e == "rar"@
        },
        None => false,
    }
}

/// The download list after a directory was looked through: each regular
/// file with an archive's extension is added behind the others, unless the
/// list holds it already.
pub open spec fn with_archives(
    downloads: Seq<FoundFileView>,
    dir: Seq<char>,
    entries: Seq<FolderEntryView>,
) -> Seq<FoundFileView>
    decreases entries.len(),
{
    if entries.len() == 0 {
        downloads
    } else {
        let before = with_archives(downloads, dir, entries.drop_last());
        let entry = entries.last();
        let file = FoundFileView { dir, name: entry.name };
        if entry.is_file && is_archive_name(entry.name) && !before.contains(file) {
            before.push(file)
        } else {
            before
        }
    }
}

/// The list after `count` items were dropped from it one after another:
/// first the item at place 0, then the item at place 1 of what is left,
/// then the item at place 2 of what is left, and so on.
pub open spec fn thinned<T>(items: Seq<T>, count: nat) -> Seq<T>
    decreases count,
{
    if count == 0 {
        items
    } else {
        thinned(items, (count - 1) as nat).remove(count - 1)
    }
}

/// The list after the item at `from` was dragged to `to`: the item leaves
/// its place and enters at `to`, counted before it left.
pub open spec fn shifted<T>(items: Seq<T>, from: int, to: int) -> Seq<T> {
    items.remove(from).insert(
        if to > from {
            to - 1
        } else {
            to
        },
        items[from],
    )
}

/// Whether an item before the `i`-th has its name.
fn mod_named_before(mods: &Vec<ModViewModel>, i: usize) -> (b: bool)
    requires
        i < mods.len(),
    ensures
        b == !first_of_its_name(mods.deep_view(), i as int),
{
    let mut j: usize = 0;
    while j < i
        invariant
            j <= i < mods.len(),
            forall|k: int|
                0 <= k < j ==> (#[trigger] mods.deep_view()[k]).name
                    != mods.deep_view()[i as int].name,
        decreases i - j,
    {
        if same_text(mods[j].full_name.as_str(), mods[i].full_name.as_str()) {
            assert(mods.deep_view()[j as int].name == mods.deep_view()[i as int].name);
            return true;
        }
        j += 1;
    }
    false
}

/// Whether an item before the `i`-th has its name.
fn plugin_named_before(plugins: &Vec<PluginViewModel>, i: usize) -> (b: bool)
    requires
        i < plugins.len(),
    ensures
        b == !first_of_its_name(plugins.deep_view(), i as int),
{
    let mut j: usize = 0;
    while j < i
        invariant
            j <= i < plugins.len(),
            forall|k: int|
                0 <= k < j ==> (#[trigger] plugins.deep_view()[k]).name
                    != plugins.deep_view()[i as int].name,
        decreases i - j,
    {
        if same_text(plugins[j].name.as_str(), plugins[i].name.as_str()) {
            assert(plugins.deep_view()[j as int].name == plugins.deep_view()[i as int].name);
            return true;
        }
        j += 1;
    }
    false
}

/// Enables the mods that the profile's list of mods names: for each name in
/// `names`, the first mod with that path becomes enabled.
pub fn enable_mods(mods: &mut Vec<ModViewModel>, names: &Vec<String>)
    ensures
        final(mods).deep_view() == enabled_by(old(mods).deep_view(), names.deep_view()),
{
    let mut out: Vec<ModViewModel> = Vec::new();
    let ghost items = mods.deep_view();
    let ghost marked = enabled_by(items, names.deep_view());
    let mut i: usize = 0;
    while i < mods.len()
        invariant
            i <= mods.len(),
            items == mods.deep_view(),
            marked == enabled_by(items, names.deep_view()),
            out.deep_view() == marked.take(i as int),
        decreases mods.len() - i,
    {
        let item = &mods[i];
        let ghost before = out.deep_view();
        assert(items[i as int] == item@);
        let enabled = item.enabled || (is_named(names, item.full_name.as_str())
            && !mod_named_before(mods, i));
        let copy = ModViewModel { full_name: item.full_name.clone(), enabled };
        out.push(copy);
        proof {
            assert(copy@ == marked[i as int]);
            assert(out.deep_view() =~= before.push(copy@));
            assert(marked.take(i + 1) =~= marked.take(i as int).push(marked[i as int]));
        }
        i += 1;
    }
    proof {
        assert(marked.take(mods.len() as int) =~= marked);
    }
    *mods = out;
}

/// Enables the plugins that the profile's list of plugins names: for each
/// name in `names`, the first plugin of that name becomes enabled.
pub fn enable_plugins(plugins: &mut Vec<PluginViewModel>, names: &Vec<String>)
    ensures
        final(plugins).deep_view() == enabled_by(old(plugins).deep_view(), names.deep_view()),
{
    let mut out: Vec<PluginViewModel> = Vec::new();
    let ghost items = plugins.deep_view();
    let ghost marked = enabled_by(items, names.deep_view());
    let mut i: usize = 0;
    while i < plugins.len()
        invariant
            i <= plugins.len(),
            items == plugins.deep_view(),
            marked == enabled_by(items, names.deep_view()),
            out.deep_view() == marked.take(i as int),
        decreases plugins.len() - i,
    {
        let item = &plugins[i];
        let ghost before = out.deep_view();
        assert(items[i as int] == item@);
        let enabled = item.enabled || (is_named(names, item.name.as_str())
            && !plugin_named_before(plugins, i));
        let copy = PluginViewModel { name: item.name.clone(), enabled };
        out.push(copy);
        proof {
            assert(copy@ == marked[i as int]);
            assert(out.deep_view() =~= before.push(copy@));
            assert(marked.take(i + 1) =~= marked.take(i as int).push(marked[i as int]));
        }
        i += 1;
    }
    proof {
        assert(marked.take(plugins.len() as int) =~= marked);
    }
    *plugins = out;
}

/// Whether the list holds a plugin of this name that is not enabled.
fn holds_disabled(plugins: &Vec<PluginViewModel>, name: &str) -> (b: bool)
    ensures
        b == plugins.deep_view().contains(Listed { name: name@, enabled: false }),
{
    let ghost item = Listed { name: name@, enabled: false };
    let mut i: usize = 0;
    while i < plugins.len()
        invariant
            i <= plugins.len(),
            item == (Listed { name: name@, enabled: false }),
            forall|k: int| 0 <= k < i ==> plugins.deep_view()[k] != item,
        decreases plugins.len() - i,
    {
        if !plugins[i].enabled && same_text(plugins[i].name.as_str(), name) {
            assert(plugins.deep_view()[i as int] == item);
            return true;
        }
        i += 1;
    }
    false
}

/// Adds the plugins found in a mod's directory to the plugin list: each
/// file adds a plugin of its name that is not enabled, unless the list holds
/// just that already.
pub fn add_plugins(plugins: &mut Vec<PluginViewModel>, found: &Vec<FoundFile>)
    ensures
        final(plugins).deep_view() == with_plugins(old(plugins).deep_view(), found.deep_view()),
{
    let ghost start = plugins.deep_view();
    let ghost all = found.deep_view();
    let mut i: usize = 0;
    proof {
        assert(all.take(0) =~= Seq::<FoundFileView>::empty());
    }
    while i < found.len()
        invariant
            i <= found.len(),
            all == found.deep_view(),
            plugins.deep_view() == with_plugins(start, all.take(i as int)),
        decreases found.len() - i,
    {
        let file = &found[i];
        let ghost before = plugins.deep_view();
        proof {
            assert(all[i as int] == file@);
            assert(all.take(i + 1).drop_last() =~= all.take(i as int));
            assert(all.take(i + 1).last() == all[i as int]);
        }
        if !holds_disabled(plugins, file.name.as_str()) {
            let vm = PluginViewModel { name: file.name.clone(), enabled: false };
            plugins.push(vm);
            assert(plugins.deep_view() =~= before.push(vm@));
        }
        i += 1;
    }
    proof {
        assert(all.take(found.len() as int) =~= all);
    }
}

/// The mods that the search directories of a configuration give: one for
/// each directory that exists, in their order, none of them enabled.
pub fn import_mods(data: &Vec<PathProbe>) -> (mods: Vec<ModViewModel>)
    ensures
        mods.deep_view() == data.deep_view().filter_map(existing_mod()),
{
    let mut mods: Vec<ModViewModel> = Vec::new();
    let ghost all = data.deep_view();
    let mut i: usize = 0;
    while i < data.len()
        invariant
            i <= data.len(),
            all == data.deep_view(),
            mods.deep_view() == all.take(i as int).filter_map(existing_mod()),
        decreases data.len() - i,
    {
        let probe = &data[i];
        let ghost before = mods.deep_view();
        proof {
            all.lemma_filter_map_take_succ(existing_mod(), i as int);
            assert(all[i as int] == probe@);
        }
        if probe.exists {
            let item = ModViewModel { full_name: probe.path.clone(), enabled: false };
            mods.push(item);
            assert(mods.deep_view() =~= before + seq![item@]);
        }
        i += 1;
    }
    proof {
        assert(all.take(data.len() as int) =~= all);
    }
    mods
}

/// Whether a mod of this path is listed.
fn holds_mod(mods: &Vec<ModViewModel>, full_name: &str) -> (b: bool)
    ensures
        b == exists|k: int| 0 <= k < mods.len() && (#[trigger] mods.deep_view()[k]).name == full_name@,
{
    let mut i: usize = 0;
    while i < mods.len()
        invariant
            i <= mods.len(),
            forall|k: int| 0 <= k < i ==> (#[trigger] mods.deep_view()[k]).name != full_name@,
        decreases mods.len() - i,
    {
        if same_text(mods[i].full_name.as_str(), full_name) {
            assert(mods.deep_view()[i as int].name == full_name@);
            return true;
        }
        i += 1;
    }
    false
}

/// Lists a mod that was installed at `install_path`, not enabled, unless a
/// mod of that path is listed already. Tells whether the mod was added.
pub fn install_mod(mods: &mut Vec<ModViewModel>, install_path: String) -> (added: bool)
    ensures
        added == !exists|k: int|
            0 <= k < old(mods).len() && (#[trigger] old(mods).deep_view()[k]).name == install_path@,
        added ==> final(mods).deep_view() == old(mods).deep_view().push(
            Listed { name: install_path@, enabled: false },
        ),
        !added ==> final(mods).deep_view() == old(mods).deep_view(),
{
    if holds_mod(mods, install_path.as_str()) {
        false
    } else {
        let ghost before = mods.deep_view();
        let item = ModViewModel { full_name: install_path, enabled: false };
        mods.push(item);
        assert(mods.deep_view() =~= before.push(item@));
        true
    }
}

/// Whether a file name has the extension of an archive.
pub fn has_archive_extension(name: &str) -> (b: bool)
    ensures
        b == is_archive_name(name@),
{
    match file_extension(name) {
        Some(ext) => {
            let e = to_ascii_lowercase(ext.as_str());
            same_text(e.as_str(), "zip") || same_text(e.as_str(), "7z") || same_text(
                e.as_str(),
                "rar",
            )
        },
        None => false,
    }
}

/// Whether the list holds this file.
fn holds_file(files: &Vec<FoundFile>, dir: &str, name: &str) -> (b: bool)
    ensures
        b == files.deep_view().contains(FoundFileView { dir: dir@, name: name@ }),
{
    let ghost file = FoundFileView { dir: dir@, name: name@ };
    let mut i: usize = 0;
    while i < files.len()
        invariant
            i <= files.len(),
            file == (FoundFileView { dir: dir@, name: name@ }),
            forall|k: int| 0 <= k < i ==> files.deep_view()[k] != file,
        decreases files.len() - i,
    {
        if same_text(files[i].dir.as_str(), dir) && same_text(files[i].name.as_str(), name) {
            assert(files.deep_view()[i as int] == file);
            return true;
        }
        i += 1;
    }
    false
}

/// Refreshes the download list from the download library: each regular file
/// of the library with an archive's extension is added behind the others,
/// unless the list holds it already. A library that is missing or
/// unreadable adds nothing.
pub fn refresh_downloads(library: &Folder, downloads: &mut Vec<FoundFile>)
    ensures
        final(downloads).deep_view() == match library@.entries {
            Some(entries) => with_archives(old(downloads).deep_view(), library@.path, entries),
            None => old(downloads).deep_view(),
        },
{
    match &library.entries {
        Some(entries) => {
            let ghost start = downloads.deep_view();
            let ghost all = entries.deep_view();
            let mut i: usize = 0;
            proof {
                assert(all.take(0) =~= Seq::<FolderEntryView>::empty());
            }
            while i < entries.len()
                invariant
                    i <= entries.len(),
                    all == entries.deep_view(),
                    downloads.deep_view() == with_archives(start, library.path@, all.take(i as int)),
                decreases entries.len() - i,
            {
                let entry = &entries[i];
                let ghost before = downloads.deep_view();
                proof {
                    assert(all[i as int] == entry@);
                    assert(all.take(i + 1).drop_last() =~= all.take(i as int));
                    assert(all.take(i + 1).last() == all[i as int]);
                }
                if entry.is_file && has_archive_extension(entry.name.as_str()) && !holds_file(
                    downloads,
                    library.path.as_str(),
                    entry.name.as_str(),
                ) {
                    let file = FoundFile { dir: library.path.clone(), name: entry.name.clone() };
                    downloads.push(file);
                    assert(downloads.deep_view() =~= before.push(file@));
                }
                i += 1;
            }
            proof {
                assert(all.take(entries.len() as int) =~= all);
            }
        },
        None => {},
    }
}

/// Drops `count` mods from the list, one after another: first the mod at
/// place 0, then the mod at place 1 of what is left, and so on. The list
/// must be long enough for every one of them to find its place.
pub fn drop_mods(mods: &mut Vec<ModViewModel>, count: usize)
    requires
        count == 0 || 2 * (count - 1) < old(mods).len(),
    ensures
        final(mods).deep_view() == thinned(old(mods).deep_view(), count as nat),
        final(mods).len() == old(mods).len() - count,
{
    let mut j: usize = 0;
    while j < count
        invariant
            j <= count,
            count == 0 || 2 * (count - 1) < old(mods).len(),
            mods.len() == old(mods).len() - j,
            mods.deep_view() == thinned(old(mods).deep_view(), j as nat),
        decreases count - j,
    {
        let ghost before = mods.deep_view();
        mods.remove(j);
        assert(mods.deep_view() =~= before.remove(j as int));
        j += 1;
    }
}

/// `egui_dnd::utils::shift_vec` moves the item at `source_idx` of a slice so
/// that it ends up at `target_idx - 1` if `target_idx > source_idx` and at
/// `target_idx` otherwise; the items between the two places move by one, the
/// others stay. It panics if `source_idx >= len` or `target_idx > len`.
/// Taken on trust from its source.
#[verifier::external_body]
fn shift_vec<T>(source_idx: usize, target_idx: usize, vec: &mut Vec<T>)
    requires
        source_idx < old(vec).len(),
        target_idx <= old(vec).len(),
    ensures
        final(vec)@ == shifted(old(vec)@, source_idx as int, target_idx as int),
{
    egui_dnd::utils::shift_vec(source_idx, target_idx, vec)
}

/// Moves a plugin that was dragged from the place `from` to the place `to`
/// of the list.
pub fn move_plugin(plugins: &mut Vec<PluginViewModel>, from: usize, to: usize)
    requires
        from < old(plugins).len(),
        to <= old(plugins).len(),
    ensures
        final(plugins).deep_view() == shifted(old(plugins).deep_view(), from as int, to as int),
        final(plugins).len() == old(plugins).len(),
{
    shift_vec(from, to, plugins);
    proof {
        assert(plugins.deep_view() =~= shifted(old(plugins).deep_view(), from as int, to as int));
    }
}

/// Moves a mod that was dragged from the place `from` to the place `to` of
/// the list.
pub fn move_mod(mods: &mut Vec<ModViewModel>, from: usize, to: usize)
    requires
        from < old(mods).len(),
        to <= old(mods).len(),
    ensures
        final(mods).deep_view() == shifted(old(mods).deep_view(), from as int, to as int),
        final(mods).len() == old(mods).len(),
{
    shift_vec(from, to, mods);
    proof {
        assert(mods.deep_view() =~= shifted(old(mods).deep_view(), from as int, to as int));
    }
}

/// A drag moves one item and keeps every item: the list holds the same
/// items as before, each as often, and the dragged item stands at its new
/// place.
pub proof fn lemma_shifted<T>(items: Seq<T>, from: int, to: int)
    requires
        0 <= from < items.len(),
        0 <= to <= items.len(),
    ensures
        shifted(items, from, to).len() == items.len(),
        shifted(items, from, to).to_multiset() == items.to_multiset(),
        shifted(items, from, to)[if to > from {
            to - 1
        } else {
            to
        }] == items[from],
{
    let rest = items.remove(from);
    let at = if to > from {
        to - 1
    } else {
        to
    };
    vstd::seq_lib::to_multiset_remove(items, from);
    vstd::seq_lib::to_multiset_insert(rest, at, items[from]);
    vstd::seq_lib::to_multiset_contains(items, items[from]);
    assert(items.contains(items[from]));
    assert(items.to_multiset().remove(items[from]).insert(items[from]) =~= items.to_multiset());
}

} // verus!
