//! What is taken from the files under analysis: which files of a listing are
//! source files, and which lines of a file are kept.
//!
//! The embedding program walks directories and reads files; the rules live
//! here.

use crate::config::{text_of, Config, ConfigView};
use crate::text::same_text;
use vstd::prelude::*;
use vstd::string::*;

verus! {

/// The position of the first line feed in `s`, or the length of `s` when it
/// holds none.
pub open spec fn first_line_feed(s: Seq<char>) -> int
    decreases s.len(),
{
    if s.len() == 0 || s[0] == '\n' {
        0
    } else {
        1 + first_line_feed(s.drop_first())
    }
}

/// A line without the carriage return that preceded its line feed.
pub open spec fn without_carriage_return(line: Seq<char>) -> Seq<char> {
    if line.len() > 0 && line.last() == '\r' {
        line.drop_last()
    } else {
        line
    }
}

/// The lines of a text. A line ends at a line feed, which is dropped
/// together with a carriage return directly in front of it. The last line
/// needs no line feed, and keeps a carriage return at its end when it has
/// none. An empty text has no lines.
pub open spec fn lines_of(s: Seq<char>) -> Seq<Seq<char>>
    decreases s.len(),
{
    let n = first_line_feed(s);
    if s.len() == 0 {
        seq![]
    } else if 0 <= n < s.len() {
        seq![without_carriage_return(s.take(n))] + lines_of(s.skip(n + 1))
    } else {
        seq![s]
    }
}

/// Calls `str::lines` and copies each line into a `String`. The contract
/// restates the documented behaviour of `lines`: see [`lines_of`].
#[verifier::external_body]
pub(crate) fn split_lines(text: &str) -> (r: Vec<String>)
    ensures
        r@.len() == lines_of(text@).len(),
        forall|i: int| 0 <= i < r@.len() ==> (#[trigger] r@[i])@ == lines_of(text@)[i],
{
    text.lines().map(String::from).collect()
}

/// Whether the line with the given number, counted from 1, lies in the range.
pub open spec fn in_range(number: int, start: u32, end: u32) -> bool {
    start <= number <= end
}

/// The lines whose numbers lie in the range, each followed by a line feed.
pub open spec fn selected_lines(lines: Seq<Seq<char>>, start: u32, end: u32) -> Seq<char>
    decreases lines.len(),
{
    if lines.len() == 0 {
        Seq::empty()
    } else if in_range(lines.len() as int, start, end) {
        selected_lines(lines.drop_last(), start, end) + lines.last() + seq!['\n']
    } else {
        selected_lines(lines.drop_last(), start, end)
    }
}

/// What is kept of a file's content: the lines of the range when both of its
/// ends are given, and the whole content otherwise.
pub open spec fn kept_text(content: Seq<char>, start: Option<u32>, end: Option<u32>) -> Seq<char> {
    match (start, end) {
        (Some(first), Some(last)) => selected_lines(lines_of(content), first, last),
        _ => content,
    }
}

/// Cuts the content of a file down to the configured line range.
///
/// With both `start_line` and `end_line` configured, the result holds the
/// lines from the first to the last, both included and counted from 1, each
/// ended by a line feed. Otherwise the content is returned as it is.
pub fn read(config: &Config, content: String) -> (r: String)
    ensures
        r@ == kept_text(content@, config@.start_line, config@.end_line),
{
    let (first, last) = match (config.start_line, config.end_line) {
        (Some(first), Some(last)) => (first, last),
        _ => {
            return content;
        },
    };
    let lines = split_lines(content.as_str());
    let ghost all = lines_of(content@);
    let mut result = String::new();
    let mut i: usize = 0;
    while i < lines.len()
        invariant
            i <= lines.len(),
            lines@.len() == all.len(),
            forall|k: int| 0 <= k < lines@.len() ==> (#[trigger] lines@[k])@ == all[k],
            result@ == selected_lines(all.take(i as int), first, last),
        decreases lines.len() - i,
    {
        proof {
            assert(all.take(i + 1).drop_last() =~= all.take(i as int));
            assert(all.take(i + 1).last() == lines@[i as int]@);
        }
        if i < u32::MAX as usize {
            let number: u32 = (i + 1) as u32;
            if first <= number && number <= last {
                result.append(lines[i].as_str());
                result.append("\n");
                proof {
                    reveal_strlit("\n");
                    assert("\n"@ =~= seq!['\n']);
                }
            }
        }
        i = i + 1;
    }
    assert(all.take(i as int) =~= all);
    result
}

/// One entry of a listing: the path of a file and the extension of its name,
/// when it has one.
#[derive(Debug)]
pub struct FileEntry {
    pub path: String,
    pub extension: Option<String>,
}

/// The mathematical value of a [`FileEntry`].
pub struct FileEntryView {
    pub path: Seq<char>,
    pub extension: Option<Seq<char>>,
}

impl View for FileEntry {
    type V = FileEntryView;

    open spec fn view(&self) -> FileEntryView {
        FileEntryView { path: self.path@, extension: text_of(self.extension) }
    }
}

/// Whether files with this extension are analysed: C, C++, C#, Go, Java,
/// JavaScript, Python, Rust and TypeScript sources.
pub open spec fn is_source_extension(extension: Seq<char>) -> bool {
    ||| extension == "c"@
    ||| extension == "h"@
    ||| extension == "cpp"@
    ||| extension == "hpp"@
    ||| extension == "cc"@
    ||| extension == "hh"@
    ||| extension == "cxx"@
    ||| extension == "hxx"@
    ||| extension == "cs"@
    ||| extension == "go"@
    ||| extension == "java"@
    ||| extension == "js"@
    ||| extension == "py"@
    ||| extension == "rs"@
    ||| extension == "ts"@
}

/// Whether a file with this extension, if any, is analysed.
pub open spec fn is_source_file(extension: Option<Seq<char>>) -> bool {
    match extension {
        Some(e) => is_source_extension(e),
        None => false,
    }
}

/// Whether files with this extension are analysed.
pub fn allowed_extension(extension: &str) -> (r: bool)
    ensures
        r == is_source_extension(extension@),
{
    same_text(extension, "c") || same_text(extension, "h") || same_text(extension, "cpp")
        || same_text(extension, "hpp") || same_text(extension, "cc") || same_text(extension, "hh")
        || same_text(extension, "cxx") || same_text(extension, "hxx") || same_text(
        extension,
        "cs",
    ) || same_text(extension, "go") || same_text(extension, "java") || same_text(extension, "js")
        || same_text(extension, "py") || same_text(extension, "rs") || same_text(extension, "ts")
}

/// The paths of the source files of a listing, in the order of the listing.
pub open spec fn source_paths(entries: Seq<FileEntryView>) -> Seq<Seq<char>>
    decreases entries.len(),
{
    if entries.len() == 0 {
        seq![]
    } else if is_source_file(entries.last().extension) {
        source_paths(entries.drop_last()).push(entries.last().path)
    } else {
        source_paths(entries.drop_last())
    }
}

/// The mathematical values of a listing, in order.
pub open spec fn entry_views(entries: Seq<FileEntry>) -> Seq<FileEntryView> {
    Seq::new(entries.len(), |i: int| entries[i]@)
}

/// The characters of each of a sequence of texts, in order.
pub open spec fn text_views(texts: Seq<String>) -> Seq<Seq<char>> {
    Seq::new(texts.len(), |i: int| texts[i]@)
}

/// The files that a run analyses, in the order in which it analyses them:
/// the source files of the configured directory, then the configured single
/// file when it is a source file.
pub open spec fn files_to_read(
    config: ConfigView,
    listing: Seq<FileEntryView>,
    file_extension: Option<Seq<char>>,
) -> Seq<Seq<char>> {
    let walked = if config.dir is Some {
        source_paths(listing)
    } else {
        seq![]
    };
    match config.file {
        Some(path) if is_source_file(file_extension) => walked.push(path),
        _ => walked,
    }
}

/// Selects the files that a run analyses.
///
/// `listing` holds the entries found under the configured directory, in the
/// order of the walk; it is not consulted when no directory is configured.
/// `file_extension` is the extension of the configured single file.
pub fn read_files(config: &Config, listing: &Vec<FileEntry>, file_extension: Option<&str>) -> (r:
    Vec<String>)
    ensures
        text_views(r@) == files_to_read(
            config@,
            entry_views(listing@),
            match file_extension {
                Some(e) => Some(e@),
                None => None,
            },
        ),
{
    let mut result: Vec<String> = Vec::new();
    let ghost all = entry_views(listing@);
    assert(text_views(result@) =~= seq![]);
    if config.dir.is_some() {
        let mut i: usize = 0;
        while i < listing.len()
            invariant
                i <= listing.len(),
                all == entry_views(listing@),
                text_views(result@) == source_paths(all.take(i as int)),
            decreases listing.len() - i,
        {
            proof {
                assert(all.take(i + 1).drop_last() =~= all.take(i as int));
                assert(all.take(i + 1).last() == listing@[i as int]@);
            }
            let wanted = match &listing[i].extension {
                Some(e) => allowed_extension(e.as_str()),
                None => false,
            };
            if wanted {
                let ghost before = text_views(result@);
                let path = listing[i].path.clone();
                result.push(path);
                assert(text_views(result@) =~= before.push(listing@[i as int]@.path));
            }
            i = i + 1;
        }
        assert(all.take(i as int) =~= all);
    }
    if let Some(path) = &config.file {
        let wanted = match file_extension {
            Some(e) => allowed_extension(e),
            None => false,
        };
        if wanted {
            let ghost before = text_views(result@);
            result.push(path.clone());
            assert(text_views(result@) =~= before.push(path@));
        }
    }
    result
}

} // verus!
