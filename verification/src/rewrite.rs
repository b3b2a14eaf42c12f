//! Rewriting the content list of a line-oriented file: the lines of the kind
//! that is replaced are dropped, every other line stays where it is, and the
//! new content lines follow behind them.

use crate::sequences::{
    lemma_filter_map_add, lemma_filter_map_none, lemma_filter_map_twice, lemma_map_then_filter_map,
};
use crate::text::{decimal, starts_with, to_decimal};
use vstd::prelude::*;
use vstd::string::StringExecFns;

verus! {

/// The name of the INI file that an export rewrites, in the directory above
/// the output directory.
pub const INI_FILE: &'static str = "Morrowind.ini";

/// A line as it is written to the file: with a line feed at its end.
pub open spec fn with_eol(line: Seq<char>) -> Seq<char> {
    line.push('\n')
}

/// What a rewrite keeps of a line: nothing where the line starts with
/// `prefix`, else the line with its line end.
pub open spec fn kept(prefix: Seq<char>) -> spec_fn(Seq<char>) -> Option<Seq<char>> {
    |line: Seq<char>|
        if prefix.is_prefix_of(line) {
            None
        } else {
            Some(with_eol(line))
        }
}

/// The lines that a rewrite keeps, in their order.
pub open spec fn kept_lines(lines: Seq<Seq<char>>, prefix: Seq<char>) -> Seq<Seq<char>> {
    lines.filter_map(kept(prefix))
}

/// The content line of the INI file for the `i`-th plugin.
pub open spec fn game_file_line(i: nat, name: Seq<char>) -> Seq<char> {
    with_eol("GameFile"@ + decimal(i) + seq!['='] + name)
}

/// The content lines of the INI file for `files`, numbered from 0.
pub open spec fn game_file_lines(files: Seq<Seq<char>>) -> Seq<Seq<char>> {
    Seq::new(files.len(), |i: int| game_file_line(i as nat, files[i]))
}

/// The INI file after an export of `files`: the lines that do not start with
/// `GameFile`, then one numbered content line for each file.
pub open spec fn rewritten_ini(lines: Seq<Seq<char>>, files: Seq<Seq<char>>) -> Seq<Seq<char>> {
    kept_lines(lines, "GameFile"@) + game_file_lines(files)
}

/// The content line of the configuration for a plugin.
pub open spec fn content_line(name: Seq<char>) -> Seq<char> {
    with_eol("content="@ + name)
}

/// `content_line`, as a function value.
pub open spec fn content_line_fn() -> spec_fn(Seq<char>) -> Seq<char> {
    |name: Seq<char>| content_line(name)
}

/// The configuration after an import of `names`: the lines that do not start
/// with `content=`, then one content line for each name.
pub open spec fn rewritten_cfg(lines: Seq<Seq<char>>, names: Seq<Seq<char>>) -> Seq<Seq<char>> {
    kept_lines(lines, "content="@) + names.map_values(content_line_fn())
}

/// A line as it is read back from the file: without the line feed at its end.
pub open spec fn without_eol() -> spec_fn(Seq<char>) -> Seq<char> {
    |written: Seq<char>| written.drop_last()
}

/// The lines of a file that holds the written lines: each as it was written,
/// without the line feed at its end.
pub open spec fn read_back(written: Seq<Seq<char>>) -> Seq<Seq<char>> {
    written.map_values(without_eol())
}

/// The lines that do not start with `prefix`, each with a line feed at its
/// end, in their order.
pub fn keep_lines(lines: &Vec<String>, prefix: &str) -> (out: Vec<String>)
    ensures
        out.deep_view() == kept_lines(lines.deep_view(), prefix@),
{
    let mut out: Vec<String> = Vec::new();
    let ghost all = lines.deep_view();
    let mut i: usize = 0;
    while i < lines.len()
        invariant
            i <= lines.len(),
            all == lines.deep_view(),
            out.deep_view() == kept_lines(all.take(i as int), prefix@),
        decreases lines.len() - i,
    {
        let line = &lines[i];
        let ghost before = out.deep_view();
        proof {
            all.lemma_filter_map_take_succ(kept(prefix@), i as int);
            assert(all[i as int] == line@);
        }
        if !starts_with(line.as_str(), prefix) {
            let mut written = line.clone();
            written.push('\n');
            out.push(written);
            assert(out.deep_view() =~= before + seq![with_eol(line@)]);
        }
        i += 1;
    }
    proof {
        assert(all.take(lines.len() as int) =~= all);
    }
    out
}

/// Rewrites the INI file for an export: `lines` are the file's lines as they
/// were read, `files` the files of the export's manifest. Lines that start
/// with `GameFile` are dropped, the others kept in their order, and behind
/// them comes one line `GameFile<i>=<name>` for each file, `i` counting from
/// 0. Every line of the result ends in a line feed.
pub fn rewrite_ini(lines: &Vec<String>, files: &Vec<String>) -> (out: Vec<String>)
    ensures
        out.deep_view() == rewritten_ini(lines.deep_view(), files.deep_view()),
{
    let mut out = keep_lines(lines, "GameFile");
    let ghost head = out.deep_view();
    let ghost names = files.deep_view();
    let mut i: usize = 0;
    while i < files.len()
        invariant
            i <= files.len(),
            names == files.deep_view(),
            out.deep_view() == head + game_file_lines(names).take(i as int),
        decreases files.len() - i,
    {
        let ghost before = out.deep_view();
        let mut line = "GameFile".to_owned();
        let number = to_decimal(i);
        line.append(number.as_str());
        line.push('=');
        line.append(files[i].as_str());
        line.push('\n');
        proof {
            assert(names[i as int] == files[i as int]@);
            assert(line@ =~= game_file_line(i as nat, names[i as int]));
        }
        out.push(line);
        proof {
            let all = game_file_lines(names);
            assert(all.take(i + 1) =~= all.take(i as int).push(all[i as int]));
            assert(out.deep_view() =~= before.push(line@));
        }
        i += 1;
    }
    proof {
        let all = game_file_lines(names);
        assert(all.take(files.len() as int) =~= all);
    }
    out
}

/// Rewrites a configuration for an import: `lines` are the file's lines as
/// they were read, `names` the plugin file names in the order in which they
/// are to load. Lines that start with `content=` are dropped, the others
/// kept in their order, and behind them comes one line `content=<name>` for
/// each name. Every line of the result ends in a line feed.
pub fn rewrite_cfg(lines: &Vec<String>, names: &Vec<String>) -> (out: Vec<String>)
    ensures
        out.deep_view() == rewritten_cfg(lines.deep_view(), names.deep_view()),
{
    let mut out = keep_lines(lines, "content=");
    let ghost head = out.deep_view();
    let ghost all = names.deep_view();
    let mut i: usize = 0;
    while i < names.len()
        invariant
            i <= names.len(),
            all == names.deep_view(),
            out.deep_view() == head + all.take(i as int).map_values(content_line_fn()),
        decreases names.len() - i,
    {
        let ghost before = out.deep_view();
        let mut line = "content=".to_owned();
        line.append(names[i].as_str());
        line.push('\n');
        proof {
            all.lemma_map_take_succ(content_line_fn(), i as int);
            assert(all[i as int] == names[i as int]@);
            assert(line@ =~= content_line(all[i as int]));
        }
        out.push(line);
        proof {
            assert(out.deep_view() =~= before.push(line@));
        }
        i += 1;
    }
    proof {
        assert(all.take(names.len() as int) =~= all);
    }
    out
}

/// What a rewrite kept, it keeps again: the lines that were kept, read back
/// and put through the same rewrite, are kept as they are.
pub proof fn lemma_kept_again(lines: Seq<Seq<char>>, prefix: Seq<char>)
    ensures
        kept_lines(read_back(kept_lines(lines, prefix)), prefix) == kept_lines(lines, prefix),
{
    let first = kept_lines(lines, prefix);
    let again = |written: Seq<char>| kept(prefix)(without_eol()(written));
    lemma_map_then_filter_map(first, without_eol(), kept(prefix), again);
    assert forall|line: Seq<char>| #[trigger]
        kept(prefix)(line) == match kept(prefix)(line) {
            Some(written) => again(written),
            None => None,
        } by {
        assert(with_eol(line).drop_last() =~= line);
    }
    lemma_filter_map_twice(lines, kept(prefix), again, kept(prefix));
}

/// Exporting again changes nothing in the INI file: the file that an export
/// of `files` wrote, read back and rewritten for the same files, comes out
/// as it was written.
pub proof fn lemma_rewrite_ini_again(lines: Seq<Seq<char>>, files: Seq<Seq<char>>)
    ensures
        rewritten_ini(read_back(rewritten_ini(lines, files)), files) == rewritten_ini(lines, files),
{
    let prefix = "GameFile"@;
    let head = kept_lines(lines, prefix);
    let tail = game_file_lines(files);
    assert(read_back(head + tail) =~= read_back(head) + read_back(tail));
    lemma_filter_map_add(read_back(head), read_back(tail), kept(prefix));
    lemma_kept_again(lines, prefix);
    assert forall|i: int| 0 <= i < read_back(tail).len() implies (#[trigger] kept(prefix)(
        read_back(tail)[i],
    )) is None by {
        let line = prefix + decimal(i as nat) + seq!['='] + files[i];
        assert(tail[i] == with_eol(line));
        assert(with_eol(line).drop_last() =~= line);
        assert(line.subrange(0, prefix.len() as int) =~= prefix);
    }
    lemma_filter_map_none(read_back(tail), kept(prefix));
    assert(kept_lines(read_back(tail), prefix) =~= Seq::<Seq<char>>::empty());
    assert(head + Seq::<Seq<char>>::empty() =~= head);
}

/// Importing again changes nothing in the configuration: the file that an
/// import of `names` wrote, read back and rewritten for the same names,
/// comes out as it was written.
pub proof fn lemma_rewrite_cfg_again(lines: Seq<Seq<char>>, names: Seq<Seq<char>>)
    ensures
        rewritten_cfg(read_back(rewritten_cfg(lines, names)), names) == rewritten_cfg(lines, names),
{
    let prefix = "content="@;
    let head = kept_lines(lines, prefix);
    let tail = names.map_values(content_line_fn());
    assert(read_back(head + tail) =~= read_back(head) + read_back(tail));
    lemma_filter_map_add(read_back(head), read_back(tail), kept(prefix));
    lemma_kept_again(lines, prefix);
    assert forall|i: int| 0 <= i < read_back(tail).len() implies (#[trigger] kept(prefix)(
        read_back(tail)[i],
    )) is None by {
        let line = prefix + names[i];
        assert(tail[i] == with_eol(line));
        assert(with_eol(line).drop_last() =~= line);
        assert(line.subrange(0, prefix.len() as int) =~= prefix);
    }
    lemma_filter_map_none(read_back(tail), kept(prefix));
    assert(kept_lines(read_back(tail), prefix) =~= Seq::<Seq<char>>::empty());
    assert(head + Seq::<Seq<char>>::empty() =~= head);
}

} // verus!
