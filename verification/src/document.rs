//! A document held as raw bytes together with a derived line index.  The
//! line index is recomputed after every mutation, so it can never go stale
//! relative to the content; its entries provably match the line boundaries
//! that the content itself induces (see `lines_match`).

use vstd::prelude::*;

use crate::error::EditorError;
use crate::text::{
    count_occ, lemma_count_take_all, lemma_count_take_step, lemma_line_bounds,
    lemma_occ_pos_unique, line_count, line_end, line_start,
};

verus! {

/// The byte that ends a line.
pub const NEWLINE: u8 = 10;

/// Descriptor of one line: its first offset, the offset of its terminator
/// (or of the end of the document), and its index.
#[derive(Debug, Clone, Copy)]
pub struct Line {
    start: usize,
    end: usize,
    pub idx: usize,
}

impl Line {
    pub closed spec fn start_spec(self) -> int {
        self.start as int
    }

    pub closed spec fn end_spec(self) -> int {
        self.end as int
    }

    pub closed spec fn idx_spec(self) -> int {
        self.idx as int
    }

    pub fn new(start: usize, end: usize, idx: usize) -> (r: Self)
        ensures
            r.start_spec() == start,
            r.end_spec() == end,
            r.idx_spec() == idx,
    {
        Self { start, end, idx }
    }

    /// Length of the line, its terminator excluded.
    pub fn len(&self) -> (r: usize)
        requires
            self.start_spec() <= self.end_spec(),
        ensures
            r == self.end_spec() - self.start_spec(),
    {
        self.end - self.start
    }

    pub fn index(&self) -> (r: usize)
        ensures
            r == self.idx_spec(),
    {
        self.idx
    }
}

/// The descriptor `ln` is exactly line `l` of the content `s`.
pub open spec fn line_matches(ln: Line, s: Seq<u8>, l: int) -> bool {
    &&& ln.start_spec() == line_start(s, NEWLINE, l)
    &&& ln.end_spec() == line_end(s, NEWLINE, l)
    &&& ln.idx_spec() == l
}

/// `lines` holds one descriptor per line of `s`, in order, each matching
/// the line boundaries that `s` itself induces.
pub open spec fn lines_match(lines: Seq<Line>, s: Seq<u8>) -> bool {
    &&& lines.len() == line_count(s, NEWLINE)
    &&& forall|l: int| 0 <= l < lines.len() ==> #[trigger] line_matches(lines[l], s, l)
}

/// A name for what `String::from_utf8_lossy` decodes from the given bytes.
pub uninterp spec fn lossy_utf8(b: Seq<u8>) -> Seq<char>;

/// Relies on `String::from_utf8_lossy`: the decoding is a function of the
/// bytes alone (well-formed UTF-8 decodes as itself, invalid sequences
/// become replacement characters).
#[verifier::external_body]
fn bytes_to_lossy_string(b: &[u8]) -> (r: String)
    ensures
        r@ == lossy_utf8(b@),
{
    String::from_utf8_lossy(b).to_string()
}

/// A document: its content bytes, its derived line index, and the file it
/// is associated with, if any.
#[derive(Clone)]
pub struct Document {
    pub filename: Option<String>,
    data: Vec<u8>,
    lines: Vec<Line>,
}

impl Document {
    /// The content, the single source of truth for the text.
    pub closed spec fn bytes(self) -> Seq<u8> {
        self.data@
    }

    /// The line index is in step with the content.
    pub closed spec fn wf(self) -> bool {
        lines_match(self.lines@, self.data@)
    }

    /// The file the document is associated with, if any.
    pub closed spec fn filename_spec(self) -> Option<String> {
        self.filename
    }

    /// An empty document: no bytes, one synthetic empty line, no file.
    pub fn new() -> (r: Result<Self, EditorError>)
        ensures
            r matches Ok(d) && d.wf() && d.bytes() == Seq::<u8>::empty() && d.filename_spec() is None,
    {
        let mut lines: Vec<Line> = Vec::new();
        lines.push(Line::new(0, 0, 0));
        let d = Document { filename: None, data: Vec::new(), lines };
        proof {
            assert(d.bytes() =~= Seq::<u8>::empty());
            assert(line_matches(d.lines@[0], d.bytes(), 0));
        }
        Ok(d)
    }

    /// A document over the given bytes, as loaded from a file.  The caller
    /// owns the read; the core derives the line index.
    pub fn from_bytes(filename: Option<String>, data: Vec<u8>) -> (r: Self)
        ensures
            r.wf(),
            r.bytes() == data@,
            r.filename_spec() == filename,
    {
        let lines = Self::get_lines(&data);
        Document { filename, data, lines }
    }

    /// Scan the content once and build the full line index: one descriptor
    /// per newline, plus one for the trailing line.  This gives the
    /// `count + 1` lines stated by `line_count`, also for empty content.
    pub fn get_lines(data: &Vec<u8>) -> (r: Vec<Line>)
        ensures
            lines_match(r@, data@),
    {
        let ghost s = data@;
        let mut lines: Vec<Line> = Vec::new();
        let mut prev: usize = 0;
        let mut idx: usize = 0;
        while idx < data.len()
            invariant
                data@ == s,
                idx <= s.len(),
                prev <= idx,
                lines@.len() == count_occ(s.take(idx as int), NEWLINE),
                prev == line_start(s, NEWLINE, lines@.len() as int),
                forall|l: int| 0 <= l < lines@.len() ==> #[trigger] line_matches(lines@[l], s, l),
            decreases s.len() - idx,
        {
            let b = data[idx];
            proof {
                lemma_count_take_step(s, NEWLINE, idx as int);
            }
            if b == NEWLINE {
                let ghost k = lines@.len() as int;
                let ghost old_lines = lines@;
                proof {
                    lemma_occ_pos_unique(s, NEWLINE, idx as int);
                }
                let ln = Line::new(prev, idx, lines.len());
                lines.push(ln);
                proof {
                    assert forall|l: int| 0 <= l < lines@.len() implies #[trigger] line_matches(
                        lines@[l],
                        s,
                        l,
                    ) by {
                        if l < k {
                            assert(lines@[l] == old_lines[l]);
                            assert(line_matches(old_lines[l], s, l));
                        } else {
                            assert(lines@[l] == ln);
                        }
                    }
                }
                prev = idx + 1;
            }
            idx += 1;
        }
        proof {
            lemma_count_take_all(s, NEWLINE);
        }
        let ghost k = lines@.len() as int;
        let ghost old_lines = lines@;
        let ln = Line::new(prev, data.len(), lines.len());
        lines.push(ln);
        proof {
            assert forall|l: int| 0 <= l < lines@.len() implies #[trigger] line_matches(
                lines@[l],
                s,
                l,
            ) by {
                if l < k {
                    assert(lines@[l] == old_lines[l]);
                    assert(line_matches(old_lines[l], s, l));
                } else {
                    assert(lines@[l] == ln);
                }
            }
        }
        lines
    }

    /// The descriptor of line `index`, or `None` past the last line.
    pub fn get_line(&self, index: usize) -> (r: Option<Line>)
        requires
            self.wf(),
        ensures
            index < line_count(self.bytes(), NEWLINE) ==> (r matches Some(l) && line_matches(
                l,
                self.bytes(),
                index as int,
            )),
            index >= line_count(self.bytes(), NEWLINE) ==> r is None,
    {
        if index < self.lines.len() {
            proof {
                assert(line_matches(self.lines@[index as int], self.bytes(), index as int));
            }
            Some(self.lines[index])
        } else {
            None
        }
    }

    /// The text of line `index`, its terminator excluded, decoded from the
    /// content bytes.
    pub fn get_str_line(&self, index: usize) -> (r: Result<String, EditorError>)
        requires
            self.wf(),
        ensures
            index < line_count(self.bytes(), NEWLINE) ==> (r matches Ok(t) && t@ == lossy_utf8(
                self.bytes().subrange(
                    line_start(self.bytes(), NEWLINE, index as int),
                    line_end(self.bytes(), NEWLINE, index as int),
                ),
            )),
            index >= line_count(self.bytes(), NEWLINE) ==> r == Err::<String, EditorError>(
                EditorError::NoSuchLine,
            ),
    {
        if index >= self.lines.len() {
            return Err(EditorError::NoSuchLine);
        }
        proof {
            assert(line_matches(self.lines@[index as int], self.bytes(), index as int));
            lemma_line_bounds(self.bytes(), NEWLINE, index as int);
        }
        let l = self.lines[index];
        let sl = vstd::slice::slice_subrange(self.data.as_slice(), l.start, l.end);
        Ok(bytes_to_lossy_string(sl))
    }

    /// The index a descriptor carries.
    pub fn get_index(&self, l: &Line) -> (r: usize)
        ensures
            r == l.idx_spec(),
    {
        l.idx
    }

    /// Whether the content is empty.  An empty document still has one line.
    pub fn is_empty(&self) -> (r: bool)
        ensures
            r == (self.bytes().len() == 0),
    {
        self.data.is_empty()
    }

    /// Whether line `index` exists.
    pub fn has_at(&self, index: usize) -> (r: bool)
        requires
            self.wf(),
        ensures
            r == (index < line_count(self.bytes(), NEWLINE)),
    {
        index < self.lines.len()
    }

    /// The number of lines: the newline count plus one, on any content.
    pub fn len(&self) -> (r: usize)
        requires
            self.wf(),
        ensures
            r == line_count(self.bytes(), NEWLINE),
    {
        self.lines.len()
    }

    /// Insert byte `c` before `offset`.  Rejects offsets past the end with
    /// `OutOfRange`; the line index is rebuilt afterwards.
    pub fn insert(&mut self, offset: usize, c: u8) -> (r: Result<(), EditorError>)
        requires
            old(self).wf(),
        ensures
            final(self).wf(),
            final(self).filename_spec() == old(self).filename_spec(),
            offset <= old(self).bytes().len() ==> r is Ok && final(self).bytes() == old(
                self,
            ).bytes().insert(offset as int, c),
            offset > old(self).bytes().len() ==> r == Err::<(), EditorError>(
                EditorError::OutOfRange,
            ) && *final(self) == *old(self),
    {
        if offset > self.data.len() {
            return Err(EditorError::OutOfRange);
        }
        self.data.insert(offset, c);
        let lines = Self::get_lines(&self.data);
        self.lines = lines;
        Ok(())
    }

    /// Remove the byte immediately before `offset` (backspace).  A no-op at
    /// offset 0; rejects offsets past the end with `OutOfRange`.
    pub fn delete(&mut self, offset: usize) -> (r: Result<(), EditorError>)
        requires
            old(self).wf(),
        ensures
            final(self).wf(),
            final(self).filename_spec() == old(self).filename_spec(),
            offset > old(self).bytes().len() ==> r == Err::<(), EditorError>(
                EditorError::OutOfRange,
            ) && *final(self) == *old(self),
            offset == 0 ==> r is Ok && *final(self) == *old(self),
            0 < offset <= old(self).bytes().len() ==> r is Ok && final(self).bytes() == old(
                self,
            ).bytes().remove(offset - 1),
    {
        if offset > self.data.len() {
            return Err(EditorError::OutOfRange);
        }
        if offset == 0 {
            return Ok(());
        }
        self.data.remove(offset - 1);
        let lines = Self::get_lines(&self.data);
        self.lines = lines;
        Ok(())
    }

    /// What a save writes: the target filename and a verbatim copy of the
    /// content.  Fails with `NoTarget` while no filename is set; the caller
    /// owns the actual file write.
    pub fn save(&self) -> (r: Result<(String, Vec<u8>), EditorError>)
        ensures
            self.filename_spec() matches Some(name) ==> (r matches Ok(p) && p.0 == name && p.1@
                == self.bytes()),
            self.filename_spec() is None ==> r == Err::<(String, Vec<u8>), EditorError>(
                EditorError::NoTarget,
            ),
    {
        match &self.filename {
            Some(name) => Ok((name.clone(), copy_bytes(&self.data))),
            None => Err(EditorError::NoTarget),
        }
    }
}

/// A verbatim copy of the given bytes.
fn copy_bytes(v: &Vec<u8>) -> (r: Vec<u8>)
    ensures
        r@ == v@,
{
    let mut out: Vec<u8> = Vec::new();
    let mut i: usize = 0;
    while i < v.len()
        invariant
            i <= v@.len(),
            out@ == v@.take(i as int),
        decreases v@.len() - i,
    {
        out.push(v[i]);
        proof {
            assert(out@ =~= v@.take(i + 1));
        }
        i += 1;
    }
    proof {
        assert(out@ =~= v@);
    }
    out
}

} // verus!
