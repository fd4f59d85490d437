//! The line buffer: an ordered, never empty sequence of lines, each a rope,
//! with a running count of all characters.

use crate::rope::{rope_chars, rope_remove, rope_to_string};
use ropey::Rope;
use vstd::prelude::*;

verus! {

/// The longest line a document holds: one less than `u16::MAX`, so that the
/// column behind the last character is still a `u16`.
pub const MAX_LINE_LEN: usize = 65534;

/// The most lines a document holds, so that every row is a `u16`.
pub const MAX_LINES: usize = 65535;

/// The number of characters in all of `lines`. Line breaks are not counted.
pub open spec fn total_chars(lines: Seq<Seq<char>>) -> nat
    decreases lines.len(),
{
    if lines.len() == 0 {
        0
    } else {
        total_chars(lines.drop_last()) + lines.last().len()
    }
}

/// Whether `lines` can be a document: at least one line, and no more lines
/// or longer lines than coordinates can address.
pub open spec fn fits(lines: Seq<Seq<char>>) -> bool {
    &&& 1 <= lines.len() <= MAX_LINES
    &&& forall|i: int| 0 <= i < lines.len() ==> (#[trigger] lines[i]).len() <= MAX_LINE_LEN
}

/// The text of each rope, in order.
pub open spec fn texts(ropes: Seq<Rope>) -> Seq<Seq<char>> {
    Seq::new(ropes.len(), |i: int| rope_chars(ropes[i]))
}

/// The lines of `text`: what stands between its line breaks, so one more
/// line than there are breaks.
pub open spec fn split_lines(text: Seq<char>) -> Seq<Seq<char>>
    decreases text.len(),
{
    if text.len() == 0 {
        seq![Seq::<char>::empty()]
    } else {
        let before = split_lines(text.drop_last());
        if text.last() == '\n' {
            before.push(Seq::<char>::empty())
        } else {
            before.update(before.len() - 1, before.last().push(text.last()))
        }
    }
}

/// The lines put together again, a line break between each two.
pub open spec fn joined_lines(lines: Seq<Seq<char>>) -> Seq<char>
    decreases lines.len(),
{
    if lines.len() == 0 {
        Seq::<char>::empty()
    } else if lines.len() == 1 {
        lines[0]
    } else {
        joined_lines(lines.drop_last()) + seq!['\n'] + lines.last()
    }
}

/// `lines` with `ch` put in front of column `col` (0-based) of line `line`.
pub open spec fn with_char(lines: Seq<Seq<char>>, line: int, col: int, ch: char) -> Seq<Seq<char>> {
    lines.update(line, lines[line].insert(col, ch))
}

/// `lines` without the character at column `col` (0-based) of line `line`.
pub open spec fn without_char(lines: Seq<Seq<char>>, line: int, col: int) -> Seq<Seq<char>> {
    lines.update(line, lines[line].remove(col))
}

/// `lines` with line `line` cut in two at column `col`: the line keeps the
/// characters before `col`, and a new line right behind it holds the rest.
pub open spec fn split_at(lines: Seq<Seq<char>>, line: int, col: int) -> Seq<Seq<char>> {
    lines.update(line, lines[line].subrange(0, col)).insert(
        line + 1,
        lines[line].subrange(col, lines[line].len() as int),
    )
}

/// `lines` with line `line` appended to the line before it and taken out.
pub open spec fn joined_at(lines: Seq<Seq<char>>, line: int) -> Seq<Seq<char>> {
    lines.update(line - 1, lines[line - 1] + lines[line]).remove(line)
}

/// A line added at the end adds its characters to the number.
pub proof fn lemma_total_chars_push(lines: Seq<Seq<char>>, text: Seq<char>)
    ensures
        total_chars(lines.push(text)) == total_chars(lines) + text.len(),
{
    assert(lines.push(text).drop_last() =~= lines);
}

/// One empty line holds no character.
pub proof fn lemma_total_chars_empty_line()
    ensures
        total_chars(seq![Seq::<char>::empty()]) == 0,
{
    assert(seq![Seq::<char>::empty()] =~= Seq::<Seq<char>>::empty().push(Seq::<char>::empty()));
    lemma_total_chars_push(Seq::<Seq<char>>::empty(), Seq::<char>::empty());
}

/// A line replaced takes its characters off the number and adds the new ones.
pub proof fn lemma_total_chars_update(lines: Seq<Seq<char>>, line: int, text: Seq<char>)
    requires
        0 <= line < lines.len(),
    ensures
        total_chars(lines.update(line, text)) + lines[line].len() == total_chars(lines) + text.len(),
    decreases lines.len(),
{
    if line == lines.len() - 1 {
        assert(lines.update(line, text).drop_last() =~= lines.drop_last());
    } else {
        assert(lines.update(line, text).drop_last() =~= lines.drop_last().update(line, text));
        lemma_total_chars_update(lines.drop_last(), line, text);
    }
}

/// A line put in anywhere adds its characters to the number.
pub proof fn lemma_total_chars_insert(lines: Seq<Seq<char>>, line: int, text: Seq<char>)
    requires
        0 <= line <= lines.len(),
    ensures
        total_chars(lines.insert(line, text)) == total_chars(lines) + text.len(),
    decreases lines.len(),
{
    if line == lines.len() {
        assert(lines.insert(line, text) =~= lines.push(text));
        lemma_total_chars_push(lines, text);
    } else {
        assert(lines.insert(line, text).drop_last() =~= lines.drop_last().insert(line, text));
        lemma_total_chars_insert(lines.drop_last(), line, text);
    }
}

/// A line taken out takes its characters off the number.
pub proof fn lemma_total_chars_remove(lines: Seq<Seq<char>>, line: int)
    requires
        0 <= line < lines.len(),
    ensures
        total_chars(lines.remove(line)) + lines[line].len() == total_chars(lines),
    decreases lines.len(),
{
    if line == lines.len() - 1 {
        assert(lines.remove(line) =~= lines.drop_last());
    } else {
        assert(lines.remove(line).drop_last() =~= lines.drop_last().remove(line));
        lemma_total_chars_remove(lines.drop_last(), line);
    }
}

/// Lines of at most `bound` characters hold at most `bound` per line in all.
pub proof fn lemma_total_chars_bound(lines: Seq<Seq<char>>, bound: nat)
    requires
        forall|i: int| 0 <= i < lines.len() ==> (#[trigger] lines[i]).len() <= bound,
    ensures
        total_chars(lines) <= lines.len() * bound,
    decreases lines.len(),
{
    if lines.len() > 0 {
        lemma_total_chars_bound(lines.drop_last(), bound);
        assert((lines.len() - 1) * bound + bound == lines.len() * bound) by (nonlinear_arith);
    }
}

/// A document that fits holds fewer characters than a `u32` can count.
pub proof fn lemma_total_chars_fits_u32(lines: Seq<Seq<char>>)
    requires
        fits(lines),
    ensures
        total_chars(lines) <= MAX_LINES * MAX_LINE_LEN < u32::MAX,
{
    lemma_total_chars_bound(lines, MAX_LINE_LEN as nat);
    assert(lines.len() * (MAX_LINE_LEN as nat) <= MAX_LINES * MAX_LINE_LEN) by (nonlinear_arith)
        requires
            lines.len() <= MAX_LINES,
    ;
}

/// Joining a line onto the one before it and splitting the result where the
/// earlier line ended gives back the two lines.
pub proof fn lemma_join_then_split(lines: Seq<Seq<char>>, line: int)
    requires
        1 <= line < lines.len(),
    ensures
        split_at(joined_at(lines, line), line - 1, lines[line - 1].len() as int) == lines,
{
    let joined = joined_at(lines, line);
    let col = lines[line - 1].len() as int;
    assert(joined[line - 1] == lines[line - 1] + lines[line]);
    assert(joined[line - 1].subrange(0, col) =~= lines[line - 1]);
    assert(joined[line - 1].subrange(col, joined[line - 1].len() as int) =~= lines[line]);
    assert(split_at(joined, line - 1, col) =~= lines);
}

/// Splitting a line and joining the new line back gives the line again.
pub proof fn lemma_split_then_join(lines: Seq<Seq<char>>, line: int, col: int)
    requires
        0 <= line < lines.len(),
        0 <= col <= lines[line].len(),
    ensures
        joined_at(split_at(lines, line, col), line + 1) == lines,
{
    let split = split_at(lines, line, col);
    assert(split[line] + split[line + 1] =~= lines[line]);
    assert(joined_at(split, line + 1) =~= lines);
}

/// Splitting a text gives at least one line, no line holds a line break,
/// and the lines joined again are the text.
pub proof fn lemma_split_lines(text: Seq<char>)
    ensures
        split_lines(text).len() >= 1,
        joined_lines(split_lines(text)) == text,
        forall|i: int, j: int|
            0 <= i < split_lines(text).len() && 0 <= j < split_lines(text)[i].len()
                ==> split_lines(text)[i][j] != '\n',
    decreases text.len(),
{
    let lines = split_lines(text);
    if text.len() == 0 {
        assert(joined_lines(lines) =~= text);
    } else {
        let before = split_lines(text.drop_last());
        lemma_split_lines(text.drop_last());
        if text.last() == '\n' {
            assert(lines.drop_last() =~= before);
            assert(joined_lines(lines) =~= text.drop_last().push('\n'));
        } else {
            if lines.len() > 1 {
                assert(lines.drop_last() =~= before.drop_last());
            }
            assert(joined_lines(lines) =~= text.drop_last().push(text.last()));
        }
        assert(text.drop_last().push(text.last()) =~= text);
    }
}

/// One rope for each line of `text`, cut at the line breaks.
pub fn lines_of_text(text: &str) -> (lines: Vec<Rope>)
    ensures
        texts(lines@) == split_lines(text@),
{
    let mut lines: Vec<Rope> = Vec::new();
    lines.push(Rope::new());
    assert(texts(lines@) =~= split_lines(text@.take(0)));
    for c in iter: text.chars()
        invariant
            iter.seq() == text@,
            lines@.len() >= 1,
            texts(lines@) == split_lines(text@.take(iter.index())),
    {
        let ghost done = text@.take(iter.index());
        let ghost earlier = texts(lines@);
        proof {
            assert(text@.take(iter.index() + 1).drop_last() =~= done);
            lemma_split_lines(done);
        }
        if c == '\n' {
            lines.push(Rope::new());
            assert(texts(lines@) =~= earlier.push(Seq::<char>::empty()));
        } else {
            let last: usize = lines.len() - 1;
            let end: usize = lines[last].len_chars();
            lines[last].insert_char(end, c);
            assert(earlier.last().insert(end as int, c) =~= earlier.last().push(c));
            assert(texts(lines@) =~= earlier.update(earlier.len() - 1, earlier.last().push(c)));
        }
    }
    assert(text@.take(text@.len() as int) =~= text@);
    lines
}

/// The number of characters in `lines`, where they fit a document.
fn measure(lines: &Vec<Rope>) -> (total: Option<u32>)
    ensures
        total is Some <==> fits(texts(lines@)),
        total matches Some(n) ==> n == total_chars(texts(lines@)),
{
    let n: usize = lines.len();
    if n == 0 || n > MAX_LINES {
        return None;
    }
    let mut total: u32 = 0;
    let mut i: usize = 0;
    while i < n
        invariant
            n == lines@.len(),
            1 <= n <= MAX_LINES,
            i <= n,
            total == total_chars(texts(lines@).take(i as int)),
            forall|j: int| 0 <= j < i ==> (#[trigger] texts(lines@)[j]).len() <= MAX_LINE_LEN,
            total <= i * MAX_LINE_LEN,
        decreases n - i,
    {
        let len: usize = lines[i].len_chars();
        if len > MAX_LINE_LEN {
            assert(texts(lines@)[i as int].len() > MAX_LINE_LEN);
            return None;
        }
        proof {
            let all = texts(lines@);
            assert(all.take(i as int + 1) =~= all.take(i as int).push(all[i as int]));
            lemma_total_chars_push(all.take(i as int), all[i as int]);
        }
        total = total + len as u32;
        i = i + 1;
    }
    assert(texts(lines@).take(n as int) =~= texts(lines@));
    Some(total)
}

/// The lines of the text being edited.
pub struct Document {
    lines: Vec<Rope>,
    total_length: u32,
}

impl View for Document {
    type V = Seq<Seq<char>>;

    /// The text of each line, in order.
    closed spec fn view(&self) -> Seq<Seq<char>> {
        texts(self.lines@)
    }
}

impl Document {
    /// The running character count that the document keeps.
    pub closed spec fn counted(&self) -> nat {
        self.total_length as nat
    }

    /// The document fits, and its count is the number of its characters.
    pub open spec fn wf(&self) -> bool {
        &&& fits(self@)
        &&& self.counted() == total_chars(self@)
    }

    /// A document of one empty line.
    pub fn new() -> (doc: Document)
        ensures
            doc.wf(),
            doc@ == seq![Seq::<char>::empty()],
            doc.counted() == 0,
    {
        let mut lines: Vec<Rope> = Vec::new();
        lines.push(Rope::new());
        let doc = Document { lines, total_length: 0 };
        proof {
            assert(doc@ =~= seq![Seq::<char>::empty()]);
            lemma_total_chars_empty_line();
        }
        doc
    }

    /// A document of the given lines, if they fit.
    pub fn from_lines(lines: Vec<Rope>) -> (made: Option<Document>)
        ensures
            made is Some <==> fits(texts(lines@)),
            made matches Some(doc) ==> doc.wf() && doc@ == texts(lines@),
    {
        match measure(&lines) {
            Some(total) => Some(Document { lines, total_length: total }),
            None => None,
        }
    }

    /// Whether the document is in order: a check at run time for callers
    /// that Verus does not see.
    pub fn in_order(&self) -> (ok: bool)
        ensures
            ok == self.wf(),
    {
        match measure(&self.lines) {
            Some(total) => total == self.total_length,
            None => false,
        }
    }

    /// The number of lines.
    pub fn line_count(&self) -> (n: usize)
        ensures
            n == self@.len(),
    {
        self.lines.len()
    }

    /// The number of characters in line `line` (0-based).
    pub fn line_len(&self, line: usize) -> (n: usize)
        requires
            line < self@.len(),
        ensures
            n == self@[line as int].len(),
    {
        self.lines[line].len_chars()
    }

    /// The text of line `line` (0-based).
    pub fn line_text(&self, line: usize) -> (text: String)
        requires
            line < self@.len(),
        ensures
            text@ == self@[line as int],
    {
        rope_to_string(&self.lines[line])
    }

    /// The number of characters in the whole document.
    pub fn total_length(&self) -> (n: u32)
        ensures
            n == self.counted(),
    {
        self.total_length
    }

    /// Puts `ch` in front of column `col` (0-based) of line `line`.
    pub fn insert_char(&mut self, line: usize, col: usize, ch: char)
        requires
            old(self).wf(),
            line < old(self)@.len(),
            col <= old(self)@[line as int].len(),
            old(self)@[line as int].len() < MAX_LINE_LEN,
        ensures
            final(self).wf(),
            final(self)@ == with_char(old(self)@, line as int, col as int, ch),
            final(self).counted() == old(self).counted() + 1,
    {
        proof {
            let after = with_char(self@, line as int, col as int, ch);
            lemma_total_chars_update(self@, line as int, self@[line as int].insert(col as int, ch));
            assert(fits(after));
            lemma_total_chars_fits_u32(after);
        }
        self.lines[line].insert_char(col, ch);
        self.total_length = self.total_length + 1;
        assert(self@ =~= with_char(old(self)@, line as int, col as int, ch));
    }

    /// Takes out the character at column `col` (0-based) of line `line`.
    pub fn remove_char(&mut self, line: usize, col: usize)
        requires
            old(self).wf(),
            line < old(self)@.len(),
            col < old(self)@[line as int].len(),
        ensures
            final(self).wf(),
            final(self)@ == without_char(old(self)@, line as int, col as int),
            final(self).counted() == old(self).counted() - 1,
    {
        proof {
            lemma_total_chars_update(self@, line as int, self@[line as int].remove(col as int));
        }
        rope_remove(&mut self.lines[line], col, col + 1);
        self.total_length = self.total_length - 1;
        proof {
            let before = old(self)@[line as int];
            assert(before.subrange(0, col as int) + before.subrange(col as int + 1, before.len() as int)
                =~= before.remove(col as int));
            assert(self@ =~= without_char(old(self)@, line as int, col as int));
        }
    }

    /// Cuts line `line` in two at column `col` (0-based): the line keeps the
    /// characters before `col`, a new line behind it gets the rest.
    pub fn split_line(&mut self, line: usize, col: usize)
        requires
            old(self).wf(),
            line < old(self)@.len(),
            col <= old(self)@[line as int].len(),
            old(self)@.len() < MAX_LINES,
        ensures
            final(self).wf(),
            final(self)@ == split_at(old(self)@, line as int, col as int),
            final(self).counted() == old(self).counted(),
    {
        let right = self.lines[line].split_off(col);
        self.lines.insert(line + 1, right);
        proof {
            let before = old(self)@;
            let text = before[line as int];
            let left = text.subrange(0, col as int);
            let rest = text.subrange(col as int, text.len() as int);
            assert(self@ =~= split_at(before, line as int, col as int));
            lemma_total_chars_update(before, line as int, left);
            lemma_total_chars_insert(before.update(line as int, left), line as int + 1, rest);
        }
    }

    /// Appends line `line` to the line before it and takes it out.
    pub fn join_line(&mut self, line: usize)
        requires
            old(self).wf(),
            1 <= line < old(self)@.len(),
            old(self)@[line as int - 1].len() + old(self)@[line as int].len() <= MAX_LINE_LEN,
        ensures
            final(self).wf(),
            final(self)@ == joined_at(old(self)@, line as int),
            final(self).counted() == old(self).counted(),
    {
        let moved = self.lines.remove(line);
        self.lines[line - 1].append(moved);
        proof {
            let before = old(self)@;
            let both = before[line as int - 1] + before[line as int];
            assert(self@ =~= joined_at(before, line as int));
            lemma_total_chars_update(before, line as int - 1, both);
            lemma_total_chars_remove(before.update(line as int - 1, both), line as int);
        }
    }

    /// Takes out line `line` with all its characters. The last remaining
    /// line of a document cannot be taken out.
    pub fn remove_line(&mut self, line: usize)
        requires
            old(self).wf(),
            line < old(self)@.len(),
            old(self)@.len() >= 2,
        ensures
            final(self).wf(),
            final(self)@ == old(self)@.remove(line as int),
            final(self).counted() == old(self).counted() - old(self)@[line as int].len(),
    {
        proof {
            lemma_total_chars_remove(self@, line as int);
        }
        let gone = self.lines.remove(line);
        let len: usize = gone.len_chars();
        self.total_length = self.total_length - len as u32;
        assert(self@ =~= old(self)@.remove(line as int));
    }

    /// Adds an empty line at the end.
    pub fn push_line(&mut self)
        requires
            old(self).wf(),
            old(self)@.len() < MAX_LINES,
        ensures
            final(self).wf(),
            final(self)@ == old(self)@.push(Seq::<char>::empty()),
            final(self).counted() == old(self).counted(),
    {
        self.lines.push(Rope::new());
        proof {
            assert(self@ =~= old(self)@.push(Seq::<char>::empty()));
            lemma_total_chars_push(old(self)@, Seq::<char>::empty());
        }
    }
}

} // verus!
