//! The sources of a compilation: their text, and where in it a span lies.
use std::path::PathBuf;
use std::rc::Rc;

use elsa::FrozenVec;
use vstd::prelude::*;
use vstd::string::StringSliceAdditionalSpecFns;
use vstd::utf8::{
    decode_utf8, encode_utf8, encode_utf8_decode_utf8, encode_utf8_valid_utf8, is_char_boundary,
    is_char_boundary_iff_not_is_continuation_byte, is_char_boundary_start_end_of_seq, valid_utf8,
    valid_utf8_split,
};

use super::{FileLoc, Loc, Span};
use crate::text::push_char;

verus! {

/// A path of the standard library. The library carries it and never looks
/// into it.
#[verifier::external_type_specification]
#[verifier::external_body]
pub struct ExPathBuf(PathBuf);

/// `PathBuf::new` of the standard library: the empty path.
#[verifier::external_body]
fn empty_path() -> PathBuf {
    PathBuf::new()
}

/// `Rc::clone` of the standard library: another handle on the same value.
#[verifier::external_body]
fn share(file: &Rc<SourceFile>) -> (r: Rc<SourceFile>)
    ensures
        r == *file,
{
    file.clone()
}

/// The append-only vector of the `elsa` crate.
#[verifier::external_type_specification]
#[verifier::external_body]
#[verifier::reject_recursive_types(T)]
pub struct ExFrozenVec<T>(FrozenVec<T>);

/// The files that the vector holds, in the order in which they were pushed.
pub uninterp spec fn frozen_files(v: FrozenVec<Box<Rc<SourceFile>>>) -> Seq<Rc<SourceFile>>;

/// `FrozenVec::new`: a vector that holds nothing.
#[verifier::external_body]
fn files_new() -> (v: FrozenVec<Box<Rc<SourceFile>>>)
    ensures
        frozen_files(v) == Seq::<Rc<SourceFile>>::empty(),
{
    FrozenVec::new()
}

/// `FrozenVec::len`: how many files the vector holds.
#[verifier::external_body]
fn files_len(v: &FrozenVec<Box<Rc<SourceFile>>>) -> (n: usize)
    ensures
        n == frozen_files(*v).len(),
{
    v.len()
}

/// `FrozenVec::push`: the file is put behind the others.
#[verifier::external_body]
fn files_push(v: &mut FrozenVec<Box<Rc<SourceFile>>>, file: Rc<SourceFile>)
    ensures
        frozen_files(*final(v)) == frozen_files(*old(v)).push(file),
{
    v.push(Box::new(file))
}

/// `FrozenVec::get`: the file at `index`, if the vector holds that many.
#[verifier::external_body]
fn files_get(v: &FrozenVec<Box<Rc<SourceFile>>>, index: usize) -> (r: Option<&Rc<SourceFile>>)
    ensures
        index < frozen_files(*v).len() ==> r == Some(&frozen_files(*v)[index as int]),
        index >= frozen_files(*v).len() ==> r.is_none(),
{
    v.get(index)
}

/// An index into the files that a source manager holds.
#[derive(Debug, Copy, Clone, PartialEq, Eq, Structural)]
pub struct SourceIndex(pub usize);

/// A name for a source of tokens.
#[derive(Debug)]
pub enum SourceName {
    /// A real file that was included for compilation.
    Real(PathBuf),
    /// Tokens created from the result of a macro expansion.
    MacroExpansion(Span),
}

/// What spans point into: a source file, or the result of a macro expansion.
#[derive(Debug)]
pub struct SourceFile {
    pub name: SourceName,
    /// The place of this file among the files of its source manager.
    pub index: SourceIndex,
    pub src: Option<String>,
    /// Where each line of the text begins and ends, in bytes. The newline
    /// belongs to no line.
    pub lines: Vec<(usize, usize)>,
}

/// The byte of a newline.
pub const NEWLINE: u8 = 10;

/// Where the line begins that holds the byte at `n`: behind the last newline
/// before `n`, or at the start of the text.
pub open spec fn line_start(text: Seq<u8>, n: int) -> int
    decreases n,
{
    if n <= 0 {
        0
    } else if text[n - 1] == NEWLINE {
        n
    } else {
        line_start(text, n - 1)
    }
}

/// The lines that a newline among the first `n` bytes ends, in order.
pub open spec fn ended_lines(text: Seq<u8>, n: int) -> Seq<(usize, usize)>
    decreases n,
{
    if n <= 0 {
        seq![]
    } else if text[n - 1] == NEWLINE {
        ended_lines(text, n - 1).push((line_start(text, n - 1) as usize, (n - 1) as usize))
    } else {
        ended_lines(text, n - 1)
    }
}

/// The lines of a text: those that a newline ends, and the rest of the text
/// as the last line. A text without a newline is one line; so is the empty
/// text.
pub open spec fn line_table(text: Seq<u8>) -> Seq<(usize, usize)> {
    ended_lines(text, text.len() as int).push(
        (line_start(text, text.len() as int) as usize, text.len() as usize),
    )
}

/// Whether there is no newline between the two ends of the line, and both
/// lie in the text.
pub open spec fn is_line(text: Seq<u8>, line: (usize, usize)) -> bool {
    &&& line.0 <= line.1 <= text.len()
    &&& forall|p: int| line.0 <= p < line.1 ==> #[trigger] text[p] != NEWLINE
}

proof fn lemma_ended_lines(text: Seq<u8>, n: int)
    requires
        0 <= n <= text.len() <= usize::MAX,
    ensures
        ({
            let lines = ended_lines(text, n);
            let start = line_start(text, n);
            &&& 0 <= start <= n
            &&& forall|p: int| start <= p < n ==> #[trigger] text[p] != NEWLINE
            &&& start == if lines.len() == 0 {
                0
            } else {
                lines.last().1 + 1
            }
            &&& lines.len() > 0 ==> lines[0].0 == 0
            &&& forall|k: int|
                0 <= k < lines.len() ==> is_line(text, #[trigger] lines[k]) && lines[k].1 < n
                    && text[lines[k].1 as int] == NEWLINE
            &&& forall|k: int|
                0 <= k < lines.len() - 1 ==> (#[trigger] lines[k + 1]).0 == lines[k].1 + 1
        }),
    decreases n,
{
    if n > 0 {
        lemma_ended_lines(text, n - 1);
        let before = ended_lines(text, n - 1);
        let lines = ended_lines(text, n);
        if text[n - 1] == NEWLINE {
            assert forall|k: int| 0 <= k < lines.len() - 1 implies (#[trigger] lines[k + 1]).0
                == lines[k].1 + 1 by {
                if k + 1 < before.len() {
                    assert(before[k + 1].0 == before[k].1 + 1);
                }
            }
        }
    }
}

/// The lines of a text, as the line table has them: the first begins at the
/// start of the text and the last ends at its end; a line holds no newline;
/// behind each line but the last stands a newline, and behind that newline
/// begins the next line.
pub proof fn lemma_line_table(text: Seq<u8>)
    requires
        text.len() <= usize::MAX,
    ensures
        ({
            let lines = line_table(text);
            &&& lines.len() >= 1
            &&& lines[0].0 == 0
            &&& lines.last().1 == text.len()
            &&& forall|k: int| 0 <= k < lines.len() ==> is_line(text, #[trigger] lines[k])
            &&& forall|k: int|
                0 <= k < lines.len() - 1 ==> text[(#[trigger] lines[k]).1 as int] == NEWLINE
                    && lines[k + 1].0 == lines[k].1 + 1
        }),
{
    lemma_ended_lines(text, text.len() as int);
    let ended = ended_lines(text, text.len() as int);
    let lines = line_table(text);
    assert forall|k: int| 0 <= k < lines.len() implies is_line(text, #[trigger] lines[k]) by {
        if k < ended.len() {
            assert(is_line(text, ended[k]));
        }
    }
    assert forall|k: int| 0 <= k < lines.len() - 1 implies text[(#[trigger] lines[k]).1 as int]
        == NEWLINE && lines[k + 1].0 == lines[k].1 + 1 by {
        assert(is_line(text, ended[k]));
        if k + 1 < ended.len() {
            assert(ended[k + 1].0 == ended[k].1 + 1);
        }
    }
}

/// Whether the byte at `pos` belongs to the line.
pub open spec fn line_holds(line: (usize, usize), pos: usize) -> bool {
    line.0 <= pos < line.1
}

/// The index of the first line that holds the byte at `pos`.
pub open spec fn line_of(lines: Seq<(usize, usize)>, pos: usize) -> Option<usize> {
    if exists|i: int| 0 <= i < lines.len() && line_holds(lines[i], pos) {
        let first = choose|i: int|
            0 <= i < lines.len() && line_holds(lines[i], pos) && forall|k: int|
                0 <= k < i ==> !line_holds(lines[k], pos);
        Some(first as usize)
    } else {
        None
    }
}

/// The characters between two byte positions of a text, where the two lie
/// in the text, in order, and none of them inside a character.
pub open spec fn text_between(text: Seq<char>, start: int, end: int) -> Option<Seq<char>> {
    let bytes = encode_utf8(text);
    if 0 <= start <= end <= bytes.len() && is_char_boundary(bytes, start) && is_char_boundary(
        bytes,
        end,
    ) {
        Some(decode_utf8(bytes.subrange(start, end)))
    } else {
        None
    }
}

/// The text with four spaces in place of each tab.
pub open spec fn expand_tabs(text: Seq<char>) -> Seq<char>
    decreases text.len(),
{
    if text.len() == 0 {
        seq![]
    } else if text.last() == '\t' {
        expand_tabs(text.drop_last()) + seq![' ', ' ', ' ', ' ']
    } else {
        expand_tabs(text.drop_last()).push(text.last())
    }
}

/// By how many columns the tabs of the text widen it when each is shown as
/// four spaces: three for each tab, counted in 32 bits.
pub open spec fn tab_offset(text: Seq<char>) -> u32
    decreases text.len(),
{
    if text.len() == 0 {
        0
    } else if text.last() == '\t' {
        tab_offset(text.drop_last()).wrapping_add(3)
    } else {
        tab_offset(text.drop_last())
    }
}

/// How many tabs the text holds.
pub open spec fn count_tabs(text: Seq<char>) -> nat
    decreases text.len(),
{
    if text.len() == 0 {
        0
    } else if text.last() == '\t' {
        count_tabs(text.drop_last()) + 1
    } else {
        count_tabs(text.drop_last())
    }
}

/// The offset of the tabs is three times their number, as far as 32 bits
/// hold it.
pub proof fn lemma_tab_offset(text: Seq<char>)
    ensures
        tab_offset(text) == (3 * count_tabs(text)) % 0x1_0000_0000,
    decreases text.len(),
{
    if text.len() > 0 {
        lemma_tab_offset(text.drop_last());
    }
}

/// The piece of `src` between two byte positions, where `text_between` has
/// one.
fn slice_between<'a>(src: &'a str, start: usize, end: usize) -> (r: Option<&'a str>)
    ensures
        match text_between(src@, start as int, end as int) {
            Some(chars) => r matches Some(s) && s@ == chars,
            None => r.is_none(),
        },
{
    broadcast use {
        encode_utf8_valid_utf8,
        encode_utf8_decode_utf8,
        valid_utf8_split,
        is_char_boundary_start_end_of_seq,
    };

    let ghost bytes = encode_utf8(src@);
    let len: usize = src.as_bytes().len();
    if start <= end && end <= len && src.is_char_boundary(start) && src.is_char_boundary(end) {
        let (head, _) = src.split_at(end);
        proof {
            let prefix = bytes.subrange(0, end as int);
            assert(head.spec_bytes() == prefix);
            assert(valid_utf8(bytes));
            assert(valid_utf8(prefix));
            if start < end {
                is_char_boundary_iff_not_is_continuation_byte(bytes, start as int);
                is_char_boundary_iff_not_is_continuation_byte(prefix, start as int);
            }
        }
        let (_, piece) = head.split_at(start);
        proof {
            assert(piece.spec_bytes() =~= bytes.subrange(start as int, end as int));
            assert(decode_utf8(encode_utf8(piece@)) == piece@);
        }
        Some(piece)
    } else {
        None
    }
}

/// An index at which a line holds `pos`, with no such line before it, is
/// what `line_of` answers.
proof fn lemma_line_of(lines: Seq<(usize, usize)>, pos: usize, i: int)
    requires
        0 <= i < lines.len(),
        line_holds(lines[i], pos),
        forall|k: int| 0 <= k < i ==> !line_holds(lines[k], pos),
    ensures
        line_of(lines, pos) == Some(i as usize),
{
    let j = choose|j: int|
        0 <= j < lines.len() && line_holds(lines[j], pos) && forall|k: int|
            0 <= k < j ==> !line_holds(lines[k], pos);
    assert(j == i);
}

impl SourceFile {
    /// A source of the given name and text, with the table of its lines.
    pub fn new(name: SourceName, src: Option<String>, index: SourceIndex) -> (r: Self)
        ensures
            r.name == name,
            r.index == index,
            r.src == src,
            r.lines@ == match src {
                Some(text) => line_table(encode_utf8(text@)),
                None => Seq::<(usize, usize)>::empty(),
            },
    {
        let mut lines: Vec<(usize, usize)> = Vec::new();
        if let Some(ref text) = src {
            let bytes = text.as_str().as_bytes();
            let len: usize = bytes.len();
            let mut start: usize = 0;
            let mut i: usize = 0;
            while i < len
                invariant
                    i <= len,
                    len == bytes@.len(),
                    start == line_start(bytes@, i as int),
                    start <= i,
                    lines@ == ended_lines(bytes@, i as int),
                decreases len - i,
            {
                if bytes[i] == NEWLINE {
                    lines.push((start, i));
                    start = i + 1;
                }
                i += 1;
            }
            lines.push((start, len));
        }
        Self { name, index, src, lines }
    }

    /// The index of the first line that holds the first byte of the span.
    /// There is none where the span begins on a newline or behind the text.
    pub fn get_line(&self, span: &Span) -> (r: Option<usize>)
        ensures
            r == line_of(self.lines@, span.start),
            match r {
                Some(i) => i < self.lines@.len() && line_holds(self.lines@[i as int], span.start)
                    && forall|k: int| 0 <= k < i ==> !line_holds(self.lines@[k], span.start),
                None => forall|k: int|
                    0 <= k < self.lines@.len() ==> !line_holds(self.lines@[k], span.start),
            },
    {
        let mut i: usize = 0;
        while i < self.lines.len()
            invariant
                i <= self.lines@.len(),
                forall|k: int| 0 <= k < i ==> !line_holds(self.lines@[k], span.start),
            decreases self.lines@.len() - i,
        {
            let (begin, end) = self.lines[i];
            if span.start >= begin && span.start < end {
                proof {
                    lemma_line_of(self.lines@, span.start, i as int);
                }
                return Some(i);
            }
            i += 1;
        }
        None
    }

    /// The text of the line in which the span begins, with four spaces in
    /// place of each tab: the line as it is displayed.
    pub open spec fn line_text(&self, span: Span) -> Option<Seq<char>> {
        match (line_of(self.lines@, span.start), self.src) {
            (Some(i), Some(text)) => {
                let line = self.lines@[i as int];
                match text_between(text@, line.0 as int, line.1 as int) {
                    Some(chars) => Some(expand_tabs(chars)),
                    None => None,
                }
            },
            _ => None,
        }
    }

    /// Where the span begins: the line, the column as the number of bytes
    /// from the start of the line, and the offset that the tabs before the
    /// span add to the column. Both numbers are kept in 32 bits.
    pub open spec fn location(&self, span: Span) -> Option<FileLoc> {
        match (line_of(self.lines@, span.start), self.src) {
            (Some(i), Some(text)) => {
                let line = self.lines@[i as int];
                match text_between(text@, line.0 as int, span.start as int) {
                    Some(before) => Some(
                        FileLoc {
                            line: i,
                            col: (span.start - line.0) as u32,
                            col_offset: tab_offset(before),
                        },
                    ),
                    None => None,
                }
            },
            _ => None,
        }
    }

    /// Returns the location of the span in this file, going by where the
    /// span begins.
    pub fn lookup_location(&self, span: &Span) -> (r: Option<FileLoc>)
        ensures
            r == self.location(*span),
    {
        let index = self.get_line(span)?;
        let line = self.lines[index];
        let col: usize = span.start - line.0;
        let text = match &self.src {
            Some(text) => text,
            None => {
                return None;
            },
        };
        let before_span = slice_between(text.as_str(), line.0, span.start)?;
        let mut col_offset: u32 = 0;
        let chars = before_span.chars();
        for c in it: chars
            invariant
                it.seq() == before_span@,
                col_offset == tab_offset(before_span@.take(it.index() as int)),
        {
            proof {
                let now = before_span@.take(it.index() + 1);
                assert(now.drop_last() =~= before_span@.take(it.index() as int));
            }
            if c == '\t' {
                col_offset = col_offset.wrapping_add(3);
            }
        }
        assert(before_span@.take(before_span@.len() as int) =~= before_span@);
        let col32: u32 = #[verifier::truncate]
        (col as u32);
        Some(FileLoc::new(index, col32, col_offset))
    }

    /// Returns the source line that the span begins in, with each tab
    /// replaced by four spaces for display.
    pub fn span_to_line(&self, span: &Span) -> (r: Option<String>)
        ensures
            match self.line_text(*span) {
                Some(chars) => r matches Some(s) && s@ == chars,
                None => r.is_none(),
            },
    {
        let index = self.get_line(span)?;
        let line = self.lines[index];
        let text = match &self.src {
            Some(text) => text,
            None => {
                return None;
            },
        };
        let line_before = slice_between(text.as_str(), line.0, line.1)?;
        let mut line_after = String::new();
        let chars = line_before.chars();
        for c in it: chars
            invariant
                it.seq() == line_before@,
                line_after@ == expand_tabs(line_before@.take(it.index() as int)),
        {
            proof {
                let now = line_before@.take(it.index() + 1);
                assert(now.drop_last() =~= line_before@.take(it.index() as int));
            }
            if c == '\t' {
                line_after.append("    ");
                proof {
                    reveal_strlit("    ");
                    assert("    "@ =~= seq![' ', ' ', ' ', ' ']);
                }
            } else {
                push_char(&mut line_after, c);
            }
        }
        assert(line_before@.take(line_before@.len() as int) =~= line_before@);
        Some(line_after)
    }

    /// The text of the span.
    pub fn span_to_string(&self, span: &Span) -> (r: Option<String>)
        ensures
            match self.src {
                Some(text) => match text_between(text@, span.start as int, span.end as int) {
                    Some(chars) => r matches Some(s) && s@ == chars,
                    None => r.is_none(),
                },
                None => r.is_none(),
            },
    {
        match &self.src {
            Some(text) => match slice_between(text.as_str(), span.start, span.end) {
                Some(piece) => Some(String::from_str(piece)),
                None => None,
            },
            None => None,
        }
    }
}

/// The sources of a compilation. Files are added and never taken away, so
/// that the index of a file names it for good.
pub struct SourceManager {
    files: FrozenVec<Box<Rc<SourceFile>>>,
}

impl Default for SourceManager {
    fn default() -> (r: Self)
        ensures
            r.files() == Seq::<Rc<SourceFile>>::empty(),
    {
        Self::new()
    }
}

impl SourceManager {
    /// The files of the manager, in the order in which they were added.
    pub closed spec fn files(&self) -> Seq<Rc<SourceFile>> {
        frozen_files(self.files)
    }

    /// The file that the span points into, if the manager holds it.
    pub open spec fn file_of(&self, span: Span) -> Option<Rc<SourceFile>> {
        if span.source < self.files().len() {
            Some(self.files()[span.source as int])
        } else {
            None
        }
    }

    /// The text of the span: the characters between its two ends in the file
    /// that it points into.
    pub open spec fn text_of(&self, span: Span) -> Option<Seq<char>> {
        match self.file_of(span) {
            Some(file) => match file.src {
                Some(text) => text_between(text@, span.start as int, span.end as int),
                None => None,
            },
            None => None,
        }
    }

    /// A manager without files.
    pub fn new() -> (r: Self)
        ensures
            r.files() == Seq::<Rc<SourceFile>>::empty(),
    {
        Self { files: files_new() }
    }

    /// Adds a file. Its index is set to its place among the files.
    pub fn add_file(&mut self, source_file: SourceFile) -> (r: Rc<SourceFile>)
        ensures
            final(self).files() == old(self).files().push(r),
            r.index == SourceIndex(old(self).files().len() as usize),
            r.name == source_file.name,
            r.src == source_file.src,
            r.lines == source_file.lines,
    {
        let mut source_file = source_file;
        source_file.index = SourceIndex(files_len(&self.files));
        let source_file = Rc::new(source_file);
        files_push(&mut self.files, share(&source_file));
        source_file
    }

    /// Adds a source of the given text under an empty path. This is for
    /// tests, not for a compilation.
    pub fn create_dummy_file(&mut self, source: &str) -> (r: Rc<SourceFile>)
        ensures
            final(self).files() == old(self).files().push(r),
            r.index == SourceIndex(old(self).files().len() as usize),
            r.name is Real,
            r.src matches Some(text) && text@ == source@,
            r.lines@ == line_table(encode_utf8(source@)),
    {
        self.new_source_file(SourceName::Real(empty_path()), String::from_str(source))
    }

    /// Adds a source of the given name and text.
    pub fn new_source_file(&mut self, filename: SourceName, src: String) -> (r: Rc<SourceFile>)
        ensures
            final(self).files() == old(self).files().push(r),
            r.index == SourceIndex(old(self).files().len() as usize),
            r.name == filename,
            r.src == Some(src),
            r.lines@ == line_table(encode_utf8(src@)),
    {
        let source_file = SourceFile::new(
            filename,
            Some(src),
            SourceIndex(files_len(&self.files)),
        );
        let source_file = Rc::new(source_file);
        files_push(&mut self.files, share(&source_file));
        source_file
    }

    /// Returns the file at the given index, or `None` if there is none.
    pub fn get_file(&self, index: SourceIndex) -> (r: Option<Rc<SourceFile>>)
        ensures
            r == if index.0 < self.files().len() {
                Some(self.files()[index.0 as int])
            } else {
                None
            },
    {
        match files_get(&self.files, index.0) {
            Some(file) => Some(share(file)),
            None => None,
        }
    }

    /// Returns the file at the given index, which has to be one.
    pub fn get_file_unwrap(&self, index: SourceIndex) -> (r: Rc<SourceFile>)
        requires
            index.0 < self.files().len(),
        ensures
            r == self.files()[index.0 as int],
    {
        match files_get(&self.files, index.0) {
            Some(file) => share(file),
            None => vstd::pervasive::unreached(),
        }
    }

    /// Returns where the span lies: the file that it points into, and its
    /// location there.
    pub fn lookup_location(&self, span: &Span) -> (r: Option<Loc>)
        ensures
            match self.file_of(*span) {
                Some(file) => match file.location(*span) {
                    Some(at) => r matches Some(loc) && loc.file == file && loc.line == at.line
                        && loc.col == at.col && loc.col_offset == at.col_offset,
                    None => r.is_none(),
                },
                None => r.is_none(),
            },
    {
        let source_file = files_get(&self.files, span.source)?;
        let file_loc = source_file.lookup_location(span)?;
        Some(Loc::new(share(source_file), file_loc.line, file_loc.col, file_loc.col_offset))
    }

    /// Returns the source line that the span begins in, with each tab
    /// replaced by four spaces for display.
    pub fn span_to_line(&self, span: &Span) -> (r: Option<String>)
        ensures
            match self.file_of(*span) {
                Some(file) => match file.line_text(*span) {
                    Some(chars) => r matches Some(s) && s@ == chars,
                    None => r.is_none(),
                },
                None => r.is_none(),
            },
    {
        let source_file = files_get(&self.files, span.source)?;
        source_file.span_to_line(span)
    }

    /// Returns the text of the span.
    pub fn span_to_string(&self, span: &Span) -> (r: Option<String>)
        ensures
            match self.text_of(*span) {
                Some(chars) => r matches Some(s) && s@ == chars,
                None => r.is_none(),
            },
    {
        let source_file = files_get(&self.files, span.source)?;
        source_file.span_to_string(span)
    }
}

} // verus!
