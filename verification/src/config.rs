//! The configuration reader: from the lines of a configuration file to its
//! search directories and its content entries.

use crate::sequences::lemma_filter_map_add;
use crate::text::{remove_char, strip_prefix, stripped, without};
use vstd::prelude::*;

verus! {

/// What a configuration file declares: search directories and content
/// entries, each list in the order of the file's lines.
#[derive(Debug)]
pub struct ConfigInfo {
    /// The search directories, one for each `data=` line.
    pub data: Vec<String>,
    /// The plugin file names, one for each `content=` line.
    pub plugins: Vec<String>,
}

/// The mathematical value of a [`ConfigInfo`].
pub ghost struct ConfigInfoView {
    pub data: Seq<Seq<char>>,
    pub plugins: Seq<Seq<char>>,
}

impl View for ConfigInfo {
    type V = ConfigInfoView;

    open spec fn view(&self) -> ConfigInfoView {
        ConfigInfoView { data: self.data.deep_view(), plugins: self.plugins.deep_view() }
    }
}

/// The search directory that a line declares: what follows `data=`, without
/// its double quotes.
pub open spec fn data_dir(line: Seq<char>) -> Option<Seq<char>> {
    match stripped(line, "data="@) {
        Some(rest) => Some(without(rest, '"')),
        None => None,
    }
}

/// The content entry that a line declares: what follows `content=`, as it stands.
pub open spec fn content_entry(line: Seq<char>) -> Option<Seq<char>> {
    stripped(line, "content="@)
}

/// `data_dir`, as a function value.
pub open spec fn data_dir_fn() -> spec_fn(Seq<char>) -> Option<Seq<char>> {
    |line: Seq<char>| data_dir(line)
}

/// `content_entry`, as a function value.
pub open spec fn content_entry_fn() -> spec_fn(Seq<char>) -> Option<Seq<char>> {
    |line: Seq<char>| content_entry(line)
}

/// The search directories that the lines declare, in the order of the lines.
pub open spec fn data_dirs(lines: Seq<Seq<char>>) -> Seq<Seq<char>> {
    lines.filter_map(data_dir_fn())
}

/// The content entries that the lines declare, in the order of the lines.
pub open spec fn content_entries(lines: Seq<Seq<char>>) -> Seq<Seq<char>> {
    lines.filter_map(content_entry_fn())
}

/// Reads a configuration from the lines of its file (each without its line
/// end). A line that starts with `data=` gives a search directory, one that
/// starts with `content=` gives a content entry, any other line is passed
/// over.
pub fn parse_cfg(lines: &Vec<String>) -> (info: ConfigInfo)
    ensures
        info@.data == data_dirs(lines.deep_view()),
        info@.plugins == content_entries(lines.deep_view()),
{
    let mut data: Vec<String> = Vec::new();
    let mut plugins: Vec<String> = Vec::new();
    let ghost all = lines.deep_view();
    let mut i: usize = 0;
    while i < lines.len()
        invariant
            i <= lines.len(),
            all == lines.deep_view(),
            data.deep_view() == data_dirs(all.take(i as int)),
            plugins.deep_view() == content_entries(all.take(i as int)),
        decreases lines.len() - i,
    {
        let line = lines[i].as_str();
        let ghost data_before = data.deep_view();
        let ghost plugins_before = plugins.deep_view();
        proof {
            all.lemma_filter_map_take_succ(data_dir_fn(), i as int);
            all.lemma_filter_map_take_succ(content_entry_fn(), i as int);
            assert(all[i as int] == line@);
        }
        match strip_prefix(line, "data=") {
            Some(rest) => {
                let dir = remove_char(rest.as_str(), '"');
                data.push(dir);
                assert(data.deep_view() =~= data_before + seq![dir@]);
            },
            None => {},
        }
        match strip_prefix(line, "content=") {
            Some(name) => {
                plugins.push(name);
                assert(plugins.deep_view() =~= plugins_before + seq![name@]);
            },
            None => {},
        }
        i += 1;
    }
    proof {
        assert(all.take(lines.len() as int) =~= all);
    }
    ConfigInfo { data, plugins }
}

/// Lines are read one by one: what two runs of lines declare together is
/// what the first declares, followed by what the second declares.
pub proof fn lemma_parse_line_by_line(first: Seq<Seq<char>>, second: Seq<Seq<char>>)
    ensures
        data_dirs(first + second) == data_dirs(first) + data_dirs(second),
        content_entries(first + second) == content_entries(first) + content_entries(second),
{
    lemma_filter_map_add(first, second, data_dir_fn());
    lemma_filter_map_add(first, second, content_entry_fn());
}

} // verus!
