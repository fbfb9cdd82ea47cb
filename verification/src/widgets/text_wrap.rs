use std::ops::Range;

use vstd::prelude::*;

use crate::text_edit::{boundaries_of, byte_offset, byte_offsets, clusters_of, grapheme_boundaries, grapheme_clusters};
use crate::text_util::{chars_of, is_white_space, string_from_chars, white_space};

verus! {

/// The paragraphs of `t` from a paragraph that began at `start`, scanning from `i`: a
/// paragraph ends at each line feed, which belongs to neither neighbour.
pub open spec fn paragraphs_from(t: Seq<char>, start: int, i: int) -> Seq<(int, int)>
    decreases t.len() - i,
{
    if i >= t.len() {
        seq![(start, t.len() as int)]
    } else if t[i] == '\n' {
        seq![(start, i)] + paragraphs_from(t, i + 1, i + 1)
    } else {
        paragraphs_from(t, start, i + 1)
    }
}

/// The paragraphs of a text as character ranges, split at each line feed.
pub open spec fn paragraphs(t: Seq<char>) -> Seq<(int, int)> {
    paragraphs_from(t, 0, 0)
}

/// A range of offsets as a pair.
pub open spec fn range_pair(r: Range<usize>) -> (int, int) {
    (r.start as int, r.end as int)
}

/// A character range of `t` as the byte range it spans.
pub open spec fn byte_pair(t: Seq<char>, r: (int, int)) -> (int, int) {
    (byte_offset(t, r.0) as int, byte_offset(t, r.1) as int)
}

/// The byte ranges are those of the character ranges, one for one.
pub open spec fn spans_bytes(t: Seq<char>, ranges: Seq<Range<usize>>, pairs: Seq<(int, int)>) -> bool {
    &&& ranges.len() == pairs.len()
    &&& forall|k: int| 0 <= k < pairs.len() ==> #[trigger] range_pair(ranges[k]) == byte_pair(t, pairs[k])
}

/// The pairs of offsets as integers.
pub open spec fn int_pairs(v: Seq<(usize, usize)>) -> Seq<(int, int)> {
    v.map_values(|p: (usize, usize)| (p.0 as int, p.1 as int))
}

/// Every paragraph lies within the text, in order, the first at its start and the last
/// at its end.
pub proof fn lemma_paragraphs_from_bounds(t: Seq<char>, start: int, i: int)
    requires
        0 <= start <= i <= t.len(),
    ensures
        paragraphs_from(t, start, i).len() >= 1,
        paragraphs_from(t, start, i)[0].0 == start,
        paragraphs_from(t, start, i).last().1 == t.len(),
        forall|k: int|
            0 <= k < paragraphs_from(t, start, i).len() ==> start <= (
            #[trigger] paragraphs_from(t, start, i)[k]).0 <= paragraphs_from(t, start, i)[k].1
                <= t.len(),
    decreases t.len() - i,
{
    if i < t.len() {
        if t[i] == '\n' {
            lemma_paragraphs_from_bounds(t, i + 1, i + 1);
            let rest = paragraphs_from(t, i + 1, i + 1);
            assert forall|k: int|
                0 <= k < paragraphs_from(t, start, i).len() implies start <= (
                #[trigger] paragraphs_from(t, start, i)[k]).0 <= paragraphs_from(t, start, i)[k].1
                    <= t.len() by {
                if k > 0 {
                    assert(paragraphs_from(t, start, i)[k] == rest[k - 1]);
                }
            }
        } else {
            lemma_paragraphs_from_bounds(t, start, i + 1);
        }
    }
}

/// The paragraphs of a text lie within it, in order; there is at least one.
pub proof fn lemma_paragraph_bounds(t: Seq<char>)
    ensures
        paragraphs(t).len() >= 1,
        paragraphs(t)[0].0 == 0,
        paragraphs(t).last().1 == t.len(),
        forall|k: int|
            0 <= k < paragraphs(t).len() ==> 0 <= (#[trigger] paragraphs(t)[k]).0
                <= paragraphs(t)[k].1 <= t.len(),
{
    lemma_paragraphs_from_bounds(t, 0, 0);
}

/// Neighbouring paragraphs are separated by exactly one line feed, and no paragraph
/// holds one.
pub proof fn lemma_paragraphs_split_at_line_feeds(t: Seq<char>, start: int, i: int)
    requires
        0 <= start <= i <= t.len(),
        forall|j: int| start <= j < i ==> t[j] != '\n',
    ensures
        forall|k: int|
            0 <= k < paragraphs_from(t, start, i).len() - 1 ==> {
                let p = #[trigger] paragraphs_from(t, start, i)[k];
                let q = paragraphs_from(t, start, i)[k + 1];
                t[p.1] == '\n' && q.0 == p.1 + 1
            },
        forall|k: int, j: int|
            #![trigger paragraphs_from(t, start, i)[k], t[j]]
            0 <= k < paragraphs_from(t, start, i).len() && paragraphs_from(t, start, i)[k].0 <= j
                < paragraphs_from(t, start, i)[k].1 ==> t[j] != '\n',
    decreases t.len() - i,
{
    lemma_paragraphs_from_bounds(t, start, i);
    if i < t.len() {
        if t[i] == '\n' {
            lemma_paragraphs_split_at_line_feeds(t, i + 1, i + 1);
            lemma_paragraphs_from_bounds(t, i + 1, i + 1);
            let rest = paragraphs_from(t, i + 1, i + 1);
            let all = paragraphs_from(t, start, i);
            assert(all == seq![(start, i)] + rest);
            assert(all[0] == (start, i));
            assert(all[1] == rest[0]);
            assert forall|k: int| 0 <= k < all.len() - 1 implies {
                let p = #[trigger] all[k];
                let q = all[k + 1];
                t[p.1] == '\n' && q.0 == p.1 + 1
            } by {
                if k > 0 {
                    assert(all[k] == rest[k - 1]);
                    assert(all[k + 1] == rest[k]);
                }
            }
            assert forall|k: int, j: int|
                #![trigger all[k], t[j]]
                0 <= k < all.len() && all[k].0 <= j < all[k].1 implies t[j] != '\n' by {
                if k > 0 {
                    assert(all[k] == rest[k - 1]);
                }
            }
        } else {
            lemma_paragraphs_split_at_line_feeds(t, start, i + 1);
            assert(paragraphs_from(t, start, i) == paragraphs_from(t, start, i + 1));
        }
    } else {
        assert(paragraphs_from(t, start, i) == seq![(start, t.len() as int)]);
    }
}

/// The empty text is one empty paragraph.
pub proof fn lemma_empty_text_is_one_empty_paragraph()
    ensures
        paragraphs(Seq::<char>::empty()) == seq![(0int, 0int)],
        byte_pair(Seq::<char>::empty(), (0, 0)) == (0int, 0int),
{
    assert(Seq::<char>::empty().subrange(0, 0).len() == 0);
}

/// The paragraphs of the characters, as character ranges.
fn paragraph_ranges(chars: &Vec<char>) -> (r: Vec<(usize, usize)>)
    ensures
        int_pairs(r@) == paragraphs(chars@),
{
    let ghost t = chars@;
    let mut out: Vec<(usize, usize)> = Vec::new();
    let mut start: usize = 0;
    let mut i: usize = 0;
    while i < chars.len()
        invariant
            t == chars@,
            start <= i <= chars@.len(),
            int_pairs(out@) + paragraphs_from(t, start as int, i as int) == paragraphs(t),
        decreases chars@.len() - i,
    {
        if chars[i] == '\n' {
            let ghost before = int_pairs(out@);
            out.push((start, i));
            proof {
                assert(int_pairs(out@) =~= before.push((start as int, i as int)));
                assert(paragraphs_from(t, start as int, i as int) == seq![(start as int, i as int)]
                    + paragraphs_from(t, i + 1, i + 1));
                assert(before + paragraphs_from(t, start as int, i as int) =~= int_pairs(out@)
                    + paragraphs_from(t, i + 1, i + 1));
            }
            start = i + 1;
        }
        i = i + 1;
    }
    let ghost before = int_pairs(out@);
    out.push((start, chars.len()));
    proof {
        assert(int_pairs(out@) =~= before.push((start as int, chars@.len() as int)));
        assert(int_pairs(out@) =~= before + paragraphs_from(t, start as int, i as int));
    }
    out
}

/// The byte ranges of the lines a text holds when broken only at its line feeds. The
/// empty text is one empty line.
pub fn explicit_line_ranges(text: &str) -> (r: Vec<Range<usize>>)
    ensures
        spans_bytes(text@, r@, paragraphs(text@)),
{
    let chars = chars_of(text);
    let offsets = byte_offsets(text);
    let pieces = paragraph_ranges(&chars);
    proof {
        lemma_paragraph_bounds(chars@);
    }
    let mut r: Vec<Range<usize>> = Vec::new();
    let mut k: usize = 0;
    while k < pieces.len()
        invariant
            chars@ == text@,
            offsets@.len() == text@.len() + 1,
            forall|i: int| 0 <= i <= text@.len() ==> #[trigger] offsets@[i] as int == byte_offset(text@, i),
            int_pairs(pieces@) == paragraphs(text@),
            forall|j: int|
                0 <= j < paragraphs(text@).len() ==> 0 <= (#[trigger] paragraphs(text@)[j]).0
                    <= paragraphs(text@)[j].1 <= text@.len(),
            k <= pieces@.len(),
            r@.len() == k,
            forall|j: int| 0 <= j < k ==> #[trigger] range_pair(r@[j]) == byte_pair(text@, paragraphs(text@)[j]),
        decreases pieces@.len() - k,
    {
        let (a, b) = pieces[k];
        assert(paragraphs(text@)[k as int] == (a as int, b as int));
        r.push(offsets[a]..offsets[b]);
        k = k + 1;
    }
    r
}


/// The grapheme boundaries of a paragraph, as offsets into the whole text.
pub open spec fn paragraph_boundaries(t: Seq<char>, p: (int, int)) -> Seq<int> {
    grapheme_boundaries(t.subrange(p.0, p.1)).map_values(|b: int| b + p.0)
}

/// The last grapheme cluster of the text is made of white space only.
pub open spec fn ends_in_blank(seg: Seq<char>) -> bool {
    let clusters = grapheme_clusters(seg);
    &&& clusters.len() > 0
    &&& forall|i: int| 0 <= i < clusters.last().len() ==> is_white_space(#[trigger] clusters.last()[i])
}

/// The state of line breaking as contracts see it: the text, whether lines are bounded
/// in width, the paragraph being broken with its grapheme boundaries, the open line
/// (from boundary `start`, measuring up to boundary `end`, having accepted up to
/// boundary `accepted` and last seen white space end a line at boundary `whitespace`),
/// and the lines emitted so far with the paragraph each belongs to.
pub struct LineBreakerView {
    pub text: Seq<char>,
    pub bounded: bool,
    pub paragraph: int,
    pub boundaries: Seq<int>,
    pub start: int,
    pub end: int,
    pub accepted: int,
    pub whitespace: Option<int>,
    pub lines: Seq<(int, int)>,
    pub owners: Seq<int>,
}

impl LineBreakerView {
    /// Every paragraph has been broken into lines.
    pub open spec fn finished(self) -> bool {
        self.paragraph >= paragraphs(self.text).len()
    }

    /// Each line lies in its paragraph; it is empty only when it is a whole empty
    /// paragraph; a bounded line starts and ends on grapheme boundaries.
    pub open spec fn line_shapes(self) -> bool {
        let ps = paragraphs(self.text);
        forall|i: int|
            0 <= i < self.lines.len() ==> {
                let o = #[trigger] self.owners[i];
                let l = self.lines[i];
                &&& 0 <= o < ps.len()
                &&& ps[o].0 <= l.0 <= l.1 <= ps[o].1
                &&& (l.0 < l.1 || l == ps[o])
                &&& (self.bounded && l.0 < l.1 ==> paragraph_boundaries(self.text, ps[o]).contains(l.0)
                    && paragraph_boundaries(self.text, ps[o]).contains(l.1))
            }
    }

    /// The lines follow one another: the first opens the first paragraph; a line either
    /// continues where the one before ended, in the same paragraph, or opens the next
    /// paragraph after the one before closed its own.
    pub open spec fn links(self) -> bool {
        let ps = paragraphs(self.text);
        &&& self.lines.len() == self.owners.len()
        &&& self.lines.len() > 0 ==> self.owners[0] == 0 && self.lines[0].0 == ps[0].0
        &&& forall|i: int, j: int|
            #![trigger self.owners[i], self.owners[j]]
            0 <= i && j == i + 1 && j < self.lines.len() ==> (self.owners[j] == self.owners[i]
                && self.lines[i].1 == self.lines[j].0) || (self.owners[j] == self.owners[i] + 1
                && self.lines[i].1 == ps[self.owners[i]].1 && self.lines[j].0 == ps[self.owners[j]].0)
    }

    /// While a paragraph is being broken: it is not empty, its boundaries rise from its
    /// start to its end, the open line is well placed, and the lines so far reach the
    /// open line's start.
    pub open spec fn pending_ok(self) -> bool {
        let ps = paragraphs(self.text);
        let p = self.paragraph;
        let b = self.boundaries;
        &&& self.bounded
        &&& ps[p].0 < ps[p].1
        &&& b == paragraph_boundaries(self.text, ps[p])
        &&& b.len() >= 2
        &&& b[0] == ps[p].0
        &&& b.last() == ps[p].1
        &&& forall|j: int, k: int| 0 <= j < k < b.len() ==> b[j] < b[k]
        &&& 0 <= self.start
        &&& self.start + 1 <= self.end < b.len()
        &&& self.accepted == (if self.end == self.start + 1 {
            self.end
        } else {
            self.end - 1
        })
        &&& (self.whitespace matches Some(w) ==> self.start < w < self.end && ends_in_blank(
            self.segment(w),
        ))
        &&& forall|k: int|
            self.last_blank() < k < self.end ==> !ends_in_blank(#[trigger] self.segment(k))
        &&& if self.lines.len() == 0 {
            p == 0 && self.start == 0
        } else if self.owners.last() == p {
            self.lines.last().1 == b[self.start]
        } else {
            self.owners.last() == p - 1 && self.lines.last().1 == ps[p - 1].1 && self.start == 0
        }
    }

    /// The text of the open line up to boundary `k`.
    pub open spec fn segment(self, k: int) -> Seq<char> {
        self.text.subrange(self.boundaries[self.start], self.boundaries[k])
    }

    /// The boundary after the last white space seen on the open line, or its start.
    pub open spec fn last_blank(self) -> int {
        match self.whitespace {
            Some(w) => w,
            None => self.start,
        }
    }

    /// The candidate is refused: it does not fit, and the open line already holds more
    /// than one cluster.
    pub open spec fn stops(self, fits: bool) -> bool {
        !fits && self.accepted > self.start + 1
    }

    /// The open line ends with this step: it stops, or the candidate reaches the end of
    /// the paragraph.
    pub open spec fn closes(self, fits: bool) -> bool {
        self.stops(fits) || self.end + 1 == self.boundaries.len()
    }

    /// The boundary the open line ends at when it closes: after the last white space
    /// that fitted, else after what was accepted, or at the paragraph's end.
    pub open spec fn chosen_end(self, fits: bool) -> int {
        if self.stops(fits) {
            self.last_blank_or_accepted()
        } else {
            self.end
        }
    }

    /// The last white space seen on the open line, else what was accepted.
    pub open spec fn last_blank_or_accepted(self) -> int {
        match self.whitespace {
            Some(w) => w,
            None => self.accepted,
        }
    }

    /// The line that closes.
    pub open spec fn closed_line(self, fits: bool) -> (int, int) {
        (self.boundaries[self.start], self.boundaries[self.chosen_end(fits)])
    }

    /// The state after the candidate is accepted and the open line grows by a cluster.
    pub open spec fn grown(self) -> LineBreakerView {
        LineBreakerView {
            accepted: self.end,
            end: self.end + 1,
            whitespace: if ends_in_blank(self.segment(self.end)) {
                Some(self.end)
            } else {
                self.whitespace
            },
            ..self
        }
    }

    /// The state after a line closes inside the paragraph and the next one opens where
    /// it ended.
    pub open spec fn continued(self, fits: bool) -> LineBreakerView {
        let c = self.chosen_end(fits);
        LineBreakerView {
            start: c,
            end: c + 1,
            accepted: c + 1,
            whitespace: None,
            lines: self.lines.push(self.closed_line(fits)),
            owners: self.owners.push(self.paragraph),
            ..self
        }
    }

    /// Once done, the lines end with the last paragraph.
    pub open spec fn finished_ok(self) -> bool {
        let ps = paragraphs(self.text);
        &&& self.paragraph == ps.len()
        &&& self.lines.len() > 0
        &&& self.owners.last() == ps.len() - 1
        &&& self.lines.last().1 == ps.last().1
    }

    /// The state that line breaking keeps from start to finish.
    pub open spec fn well_formed(self) -> bool {
        &&& 0 <= self.paragraph <= paragraphs(self.text).len()
        &&& self.line_shapes()
        &&& self.links()
        &&& if self.finished() {
            self.finished_ok()
        } else {
            self.pending_ok()
        }
        &&& !self.bounded ==> self.lines == paragraphs(self.text)
    }
}

/// Breaks a text into lines a paragraph at a time: each line ends on a grapheme
/// boundary, and when a line would grow too wide it ends after the last white space
/// that fitted. Whether a stretch of text fits is asked of the caller, which measures
/// it.
pub struct LineBreaker {
    chars: Vec<char>,
    offsets: Vec<usize>,
    bounded: bool,
    paragraph_list: Vec<(usize, usize)>,
    paragraph: usize,
    boundaries: Vec<usize>,
    start: usize,
    end: usize,
    accepted: usize,
    whitespace: Option<usize>,
    lines: Vec<(usize, usize)>,
    owners: Ghost<Seq<int>>,
}

/// The integers from `lo` up to, not including, `hi`.
pub open spec fn counting(lo: int, hi: int) -> Seq<int> {
    Seq::new((hi - lo) as nat, |i: int| lo + i)
}

/// The offsets as integers.
pub open spec fn int_seq(v: Seq<usize>) -> Seq<int> {
    v.map_values(|b: usize| b as int)
}

impl View for LineBreaker {
    type V = LineBreakerView;

    closed spec fn view(&self) -> LineBreakerView {
        LineBreakerView {
            text: self.chars@,
            bounded: self.bounded,
            paragraph: self.paragraph as int,
            boundaries: int_seq(self.boundaries@),
            start: self.start as int,
            end: self.end as int,
            accepted: self.accepted as int,
            whitespace: match self.whitespace {
                Some(w) => Some(w as int),
                None => None,
            },
            lines: int_pairs(self.lines@),
            owners: self.owners@,
        }
    }
}

/// Closing the open line at boundary `c` keeps the lines in shape and in sequence.
proof fn lemma_close_line(v: LineBreakerView, c: int)
    requires
        v.well_formed(),
        !v.finished(),
        v.start < c < v.boundaries.len(),
    ensures
        ({
            let w = LineBreakerView {
                lines: v.lines.push((v.boundaries[v.start], v.boundaries[c])),
                owners: v.owners.push(v.paragraph),
                ..v
            };
            w.line_shapes() && w.links()
        }),
{
    let ps = paragraphs(v.text);
    let b = v.boundaries;
    let w = LineBreakerView {
        lines: v.lines.push((b[v.start], b[c])),
        owners: v.owners.push(v.paragraph),
        ..v
    };
    lemma_paragraph_bounds(v.text);
    assert(b[0] <= b[v.start]) by {
        if v.start > 0 {
            assert(b[0] < b[v.start]);
        }
    }
    assert(b[c] <= b.last()) by {
        if c < b.len() - 1 {
            assert(b[c] < b[b.len() - 1]);
        }
    }
    assert(b[v.start] < b[c]);
    assert(paragraph_boundaries(v.text, ps[v.paragraph])[v.start] == b[v.start]);
    assert(paragraph_boundaries(v.text, ps[v.paragraph])[c] == b[c]);
    assert forall|i: int| 0 <= i < w.lines.len() implies {
        let o = #[trigger] w.owners[i];
        let l = w.lines[i];
        &&& 0 <= o < ps.len()
        &&& ps[o].0 <= l.0 <= l.1 <= ps[o].1
        &&& (l.0 < l.1 || l == ps[o])
        &&& (w.bounded && l.0 < l.1 ==> paragraph_boundaries(w.text, ps[o]).contains(l.0)
            && paragraph_boundaries(w.text, ps[o]).contains(l.1))
    } by {
        if i < v.lines.len() {
            assert(w.owners[i] == v.owners[i]);
            assert(w.lines[i] == v.lines[i]);
        }
    }
    assert forall|i: int, j: int|
        #![trigger w.owners[i], w.owners[j]]
        0 <= i && j == i + 1 && j < w.lines.len() implies (w.owners[j] == w.owners[i]
            && w.lines[i].1 == w.lines[j].0) || (w.owners[j] == w.owners[i] + 1 && w.lines[i].1
            == ps[w.owners[i]].1 && w.lines[j].0 == ps[w.owners[j]].0) by {
        if j < v.lines.len() {
            assert(w.owners[i] == v.owners[i]);
            assert(w.owners[j] == v.owners[j]);
            assert(w.lines[i] == v.lines[i]);
            assert(w.lines[j] == v.lines[j]);
        } else {
            assert(w.owners[i] == v.owners.last());
            assert(w.lines[i] == v.lines.last());
        }
    }
}

/// Once every paragraph is broken, the lines cover the text in order: the first starts
/// at its start, the last ends at its end, each line starts where the one before ended
/// or just past the line feed that ended it, and no line holds a line feed.
pub proof fn lemma_finished_lines_cover_text(v: LineBreakerView)
    requires
        v.well_formed(),
        v.finished(),
    ensures
        v.lines.len() >= 1,
        v.lines[0].0 == 0,
        v.lines.last().1 == v.text.len(),
        forall|i: int|
            0 <= i < v.lines.len() ==> 0 <= (#[trigger] v.lines[i]).0 <= v.lines[i].1 <= v.text.len(),
        forall|i: int|
            0 <= i < v.lines.len() - 1 ==> (#[trigger] v.lines[i]).1 == v.lines[i + 1].0 || (
            v.text[v.lines[i].1] == '\n' && v.lines[i + 1].0 == v.lines[i].1 + 1),
        forall|i: int, j: int|
            #![trigger v.lines[i], v.text[j]]
            0 <= i < v.lines.len() && v.lines[i].0 <= j < v.lines[i].1 ==> v.text[j] != '\n',
{
    let t = v.text;
    let ps = paragraphs(t);
    lemma_paragraph_bounds(t);
    lemma_paragraphs_split_at_line_feeds(t, 0, 0);
    assert forall|i: int| 0 <= i < v.lines.len() - 1 implies (#[trigger] v.lines[i]).1 == v.lines[i
        + 1].0 || (t[v.lines[i].1] == '\n' && v.lines[i + 1].0 == v.lines[i].1 + 1) by {
        let o = v.owners[i];
        let o2 = v.owners[i + 1];
        if o2 == o + 1 {
            assert(0 <= o < ps.len() - 1);
            assert(ps[o + 1].0 == ps[o].1 + 1);
        }
    }
    assert forall|i: int, j: int|
        #![trigger v.lines[i], v.text[j]]
        0 <= i < v.lines.len() && v.lines[i].0 <= j < v.lines[i].1 implies v.text[j] != '\n' by {
        let o = v.owners[i];
        assert(ps[o].0 <= j < ps[o].1);
    }
    assert forall|i: int|
        0 <= i < v.lines.len() implies 0 <= (#[trigger] v.lines[i]).0 <= v.lines[i].1 <= v.text.len() by {
        let o = v.owners[i];
        assert(0 <= ps[o].0);
    }
}

impl LineBreaker {
    /// The breaker is in a state that `begin_wrap` and `step` leave it in.
    pub closed spec fn valid(&self) -> bool {
        &&& self@.well_formed()
        &&& self.offsets@.len() == self.chars@.len() + 1
        &&& forall|i: int|
            0 <= i <= self.chars@.len() ==> #[trigger] self.offsets@[i] as int == byte_offset(
                self.chars@,
                i,
            )
        &&& int_pairs(self.paragraph_list@) == paragraphs(self.chars@)
    }

    /// Records the empty paragraphs from `q` on as lines of their own, then opens the
    /// next paragraph that is not empty, if any.
    fn advance(&mut self, q: usize)
        requires
            old(self).bounded,
            old(self).offsets@.len() == old(self).chars@.len() + 1,
            forall|i: int|
                0 <= i <= old(self).chars@.len() ==> #[trigger] old(self).offsets@[i] as int
                    == byte_offset(old(self).chars@, i),
            int_pairs(old(self).paragraph_list@) == paragraphs(old(self).chars@),
            q <= paragraphs(old(self).chars@).len(),
            old(self)@.line_shapes(),
            old(self)@.links(),
            if old(self)@.lines.len() == 0 {
                q == 0
            } else {
                old(self)@.owners.last() == q - 1 && old(self)@.lines.last().1 == paragraphs(
                    old(self).chars@,
                )[q - 1].1
            },
        ensures
            final(self).valid(),
            final(self)@.text == old(self)@.text,
            final(self)@.bounded,
            q <= final(self)@.paragraph,
            final(self)@.lines == old(self)@.lines + paragraphs(old(self).chars@).subrange(
                q as int,
                final(self)@.paragraph,
            ),
            final(self)@.owners == old(self)@.owners + counting(q as int, final(self)@.paragraph),
            !final(self)@.finished() ==> final(self)@.start == 0 && final(self)@.end == 1
                && final(self)@.whitespace is None,
            forall|k: int|
                q <= k < final(self)@.paragraph ==> (#[trigger] paragraphs(old(self).chars@)[k]).0
                    == paragraphs(old(self).chars@)[k].1,
    {
        let ghost t = self.chars@;
        let ghost ps = paragraphs(t);
        let ghost lines0 = self@.lines;
        let ghost owners0 = self@.owners;
        proof {
            lemma_paragraph_bounds(t);
        }
        let mut q = q;
        let q0 = q;
        while q < self.paragraph_list.len() && self.paragraph_list[q].0 == self.paragraph_list[q].1
            invariant
                self.bounded,
                self.chars@ == t,
                ps == paragraphs(t),
                self.offsets@.len() == t.len() + 1,
                forall|i: int| 0 <= i <= t.len() ==> #[trigger] self.offsets@[i] as int == byte_offset(t, i),
                int_pairs(self.paragraph_list@) == ps,
                forall|k: int|
                    0 <= k < ps.len() ==> 0 <= (#[trigger] ps[k]).0 <= ps[k].1 <= t.len(),
                ps.len() >= 1,
                ps[0].0 == 0,
                ps.last().1 == t.len(),
                q0 <= q <= ps.len(),
                self@.line_shapes(),
                self@.links(),
                self@.text == t,
                if self@.lines.len() == 0 {
                    q == 0
                } else {
                    self@.owners.last() == q - 1 && self@.lines.last().1 == ps[q - 1].1
                },
                self@.lines == lines0 + ps.subrange(q0 as int, q as int),
                self@.owners == owners0 + counting(q0 as int, q as int),
                forall|k: int| q0 <= k < q ==> (#[trigger] ps[k]).0 == ps[k].1,
            decreases ps.len() - q,
        {
            let (a, b) = self.paragraph_list[q];
            assert(ps[q as int] == (a as int, b as int));
            let ghost before = self@;
            self.lines.push((a, b));
            proof {
                self.owners@ = self.owners@.push(q as int);
                assert(self@.lines =~= before.lines.push((a as int, b as int)));
                assert(self@.owners =~= before.owners.push(q as int));
                let v = self@;
                assert(v.lines =~= lines0 + ps.subrange(q0 as int, q + 1));
                assert(v.owners =~= owners0 + counting(q0 as int, q + 1));
                assert forall|i: int| 0 <= i < v.lines.len() implies {
                    let o = #[trigger] v.owners[i];
                    let l = v.lines[i];
                    &&& 0 <= o < ps.len()
                    &&& ps[o].0 <= l.0 <= l.1 <= ps[o].1
                    &&& (l.0 < l.1 || l == ps[o])
                    &&& (v.bounded && l.0 < l.1 ==> paragraph_boundaries(t, ps[o]).contains(l.0)
                        && paragraph_boundaries(t, ps[o]).contains(l.1))
                } by {
                    if i < before.lines.len() {
                        assert(v.owners[i] == before.owners[i]);
                        assert(v.lines[i] == before.lines[i]);
                    }
                }
                assert forall|i: int, j: int|
                    #![trigger v.owners[i], v.owners[j]]
                    0 <= i && j == i + 1 && j < v.lines.len() implies (v.owners[j] == v.owners[i]
                        && v.lines[i].1 == v.lines[j].0) || (v.owners[j] == v.owners[i] + 1
                        && v.lines[i].1 == ps[v.owners[i]].1 && v.lines[j].0 == ps[v.owners[j]].0) by {
                    if j < before.lines.len() {
                        assert(v.owners[i] == before.owners[i]);
                        assert(v.owners[j] == before.owners[j]);
                        assert(v.lines[i] == before.lines[i]);
                        assert(v.lines[j] == before.lines[j]);
                    } else {
                        assert(v.owners[i] == before.owners.last());
                        assert(v.lines[i] == before.lines.last());
                    }
                }
            }
            q = q + 1;
        }
        self.paragraph = q;
        if q < self.paragraph_list.len() {
            let (a, b) = self.paragraph_list[q];
            assert(ps[q as int] == (a as int, b as int));
            let mut piece: Vec<char> = Vec::new();
            let mut i: usize = a;
            while i < b
                invariant
                    self.chars@ == t,
                    a <= i <= b <= t.len(),
                    piece@ == t.subrange(a as int, i as int),
                decreases b - i,
            {
                piece.push(self.chars[i]);
                i = i + 1;
                assert(piece@ =~= t.subrange(a as int, i as int));
            }
            let sub = string_from_chars(piece.as_slice());
            let relative = boundaries_of(sub.as_str());
            let ghost g = grapheme_boundaries(t.subrange(a as int, b as int));
            let mut absolute: Vec<usize> = Vec::new();
            let mut k: usize = 0;
            while k < relative.len()
                invariant
                    sub@ == t.subrange(a as int, b as int),
                    g == grapheme_boundaries(sub@),
                    relative@.len() == g.len(),
                    forall|j: int| 0 <= j < relative@.len() ==> #[trigger] relative@[j] as int == g[j],
                    forall|j: int| 0 <= j < relative@.len() ==> relative@[j] <= sub@.len(),
                    a <= b <= t.len(),
                    sub@.len() == b - a,
                    k <= relative@.len(),
                    absolute@.len() == k,
                    forall|j: int| 0 <= j < k ==> #[trigger] absolute@[j] as int == g[j] + a,
                decreases relative@.len() - k,
            {
                absolute.push(a + relative[k]);
                k = k + 1;
            }
            self.boundaries = absolute;
            self.start = 0;
            self.end = 1;
            self.accepted = 1;
            self.whitespace = None;
            proof {
                assert(int_seq(self.boundaries@) =~= paragraph_boundaries(t, ps[q as int]));
                assert(a < b);
                assert(relative@.len() >= 2);
                let bs = self@.boundaries;
                assert(bs[0] == a);
                assert(bs.last() == b);
                assert forall|j: int, k: int| 0 <= j < k < bs.len() implies bs[j] < bs[k] by {
                    assert(relative@[j] < relative@[k]);
                }
            }
        }
    }
}

/// Starts breaking `text` into lines. Unbounded, the lines are its paragraphs and
/// nothing is left to measure; bounded, the leading empty paragraphs are lines at once
/// and the first paragraph that is not empty is opened at its first cluster.
pub fn begin_wrap(text: &str, bounded: bool) -> (b: LineBreaker)
    ensures
        b.valid(),
        b@.well_formed(),
        b@.text == text@,
        b@.bounded == bounded,
        !bounded ==> b@.finished() && b@.lines == paragraphs(text@),
        bounded ==> b@.lines == paragraphs(text@).subrange(0, b@.paragraph) && b@.owners
            == counting(0, b@.paragraph) && forall|k: int|
            0 <= k < b@.paragraph ==> (#[trigger] paragraphs(text@)[k]).0 == paragraphs(
                text@,
            )[k].1,
        bounded && !b@.finished() ==> b@.start == 0 && b@.end == 1 && b@.whitespace is None,
{
    let chars = chars_of(text);
    let offsets = byte_offsets(text);
    let paragraph_list = paragraph_ranges(&chars);
    let ghost ps = paragraphs(text@);
    proof {
        lemma_paragraph_bounds(text@);
    }
    if !bounded {
        let mut lines: Vec<(usize, usize)> = Vec::new();
        let mut k: usize = 0;
        while k < paragraph_list.len()
            invariant
                int_pairs(paragraph_list@) == ps,
                k <= paragraph_list@.len(),
                int_pairs(lines@) == ps.subrange(0, k as int),
            decreases paragraph_list@.len() - k,
        {
            let ghost before = int_pairs(lines@);
            lines.push(paragraph_list[k]);
            assert(int_pairs(lines@) =~= before.push(ps[k as int]));
            assert(ps.subrange(0, k + 1) =~= ps.subrange(0, k as int).push(ps[k as int]));
            k = k + 1;
        }
        let n = paragraph_list.len();
        let b = LineBreaker {
            chars,
            offsets,
            bounded,
            paragraph_list,
            paragraph: n,
            boundaries: Vec::new(),
            start: 0,
            end: 1,
            accepted: 1,
            whitespace: None,
            lines,
            owners: Ghost(counting(0, n as int)),
        };
        proof {
            let v = b@;
            assert(v.lines =~= ps);
            assert forall|i: int, j: int|
                #![trigger v.owners[i], v.owners[j]]
                0 <= i && j == i + 1 && j < v.lines.len() implies (v.owners[j] == v.owners[i]
                    && v.lines[i].1 == v.lines[j].0) || (v.owners[j] == v.owners[i] + 1
                    && v.lines[i].1 == ps[v.owners[i]].1 && v.lines[j].0 == ps[v.owners[j]].0) by {
            }
            assert(v.links());
            assert(v.line_shapes());
        }
        b
    } else {
        let mut b = LineBreaker {
            chars,
            offsets,
            bounded,
            paragraph_list,
            paragraph: 0,
            boundaries: Vec::new(),
            start: 0,
            end: 1,
            accepted: 1,
            whitespace: None,
            lines: Vec::new(),
            owners: Ghost(Seq::empty()),
        };
        proof {
            assert(b@.lines =~= Seq::<(int, int)>::empty());
        }
        b.advance(0);
        proof {
            assert(b@.lines =~= paragraphs(text@).subrange(0, b@.paragraph));
            assert(b@.owners =~= counting(0, b@.paragraph));
        }
        b
    }
}

impl LineBreaker {
    /// Whether every paragraph has been broken into lines.
    pub fn is_finished(&self) -> (done: bool)
        requires
            self.valid(),
        ensures
            done == self@.finished(),
    {
        proof {
            lemma_paragraph_bounds(self.chars@);
        }
        self.paragraph >= self.paragraph_list.len()
    }

    /// The byte range the caller measures next: the open line with one more cluster,
    /// or nothing once every paragraph is broken.
    pub fn candidate(&self) -> (c: Option<Range<usize>>)
        requires
            self.valid(),
        ensures
            c is None <==> self@.finished(),
            c matches Some(r) ==> range_pair(r) == byte_pair(
                self@.text,
                (self@.boundaries[self@.start], self@.boundaries[self@.end]),
            ),
    {
        proof {
            lemma_paragraph_bounds(self.chars@);
        }
        if self.paragraph >= self.paragraph_list.len() {
            None
        } else {
            let ghost ps = paragraphs(self.chars@);
            let ghost p = self.paragraph as int;
            assert(self@.boundaries[self@.end] <= ps[p].1) by {
                if self@.end < self@.boundaries.len() - 1 {
                    assert(self@.boundaries[self@.end] < self@.boundaries.last());
                }
            }
            assert(0 <= ps[p].0 <= self@.boundaries[self@.start]) by {
                if self@.start > 0 {
                    assert(self@.boundaries[0] < self@.boundaries[self@.start]);
                }
            }
            let lo = self.boundaries[self.start];
            let hi = self.boundaries[self.end];
            Some(self.offsets[lo]..self.offsets[hi])
        }
    }

    /// The byte ranges of the lines emitted so far.
    pub fn emitted_lines(&self) -> (r: Vec<Range<usize>>)
        requires
            self.valid(),
        ensures
            spans_bytes(self@.text, r@, self@.lines),
    {
        let ghost ps = paragraphs(self.chars@);
        proof {
            lemma_paragraph_bounds(self.chars@);
        }
        let mut r: Vec<Range<usize>> = Vec::new();
        let mut k: usize = 0;
        while k < self.lines.len()
            invariant
                self.valid(),
                ps == paragraphs(self.chars@),
                forall|j: int|
                    0 <= j < ps.len() ==> 0 <= (#[trigger] ps[j]).0 <= ps[j].1 <= self.chars@.len(),
                k <= self.lines@.len(),
                r@.len() == k,
                forall|j: int|
                    0 <= j < k ==> #[trigger] range_pair(r@[j]) == byte_pair(self@.text, self@.lines[j]),
            decreases self.lines@.len() - k,
        {
            let (a, b) = self.lines[k];
            assert(self@.lines[k as int] == (a as int, b as int));
            let ghost o = self@.owners[k as int];
            assert(ps[o].0 <= a <= b <= ps[o].1);
            r.push(self.offsets[a]..self.offsets[b]);
            k = k + 1;
        }
        r
    }

    /// Whether the last grapheme cluster of the characters from `lo` to `hi` is white
    /// space, as `UnicodeSegmentation::graphemes` splits that stretch.
    fn segment_ends_in_blank(&self, lo: usize, hi: usize) -> (blank: bool)
        requires
            lo <= hi <= self.chars@.len(),
        ensures
            blank == ends_in_blank(self.chars@.subrange(lo as int, hi as int)),
    {
        let ghost t = self.chars@;
        let mut piece: Vec<char> = Vec::new();
        let mut i: usize = lo;
        while i < hi
            invariant
                self.chars@ == t,
                lo <= i <= hi <= t.len(),
                piece@ == t.subrange(lo as int, i as int),
            decreases hi - i,
        {
            piece.push(self.chars[i]);
            i = i + 1;
            assert(piece@ =~= t.subrange(lo as int, i as int));
        }
        let stretch = string_from_chars(piece.as_slice());
        let clusters = clusters_of(stretch.as_str());
        if clusters.len() == 0 {
            return false;
        }
        let last = chars_of(clusters[clusters.len() - 1].as_str());
        let ghost g = grapheme_clusters(stretch@);
        assert(stretch@ == t.subrange(lo as int, hi as int));
        assert(g.last() == last@);
        let mut k: usize = 0;
        while k < last.len()
            invariant
                k <= last@.len(),
                forall|j: int| 0 <= j < k ==> is_white_space(#[trigger] last@[j]),
                g == grapheme_clusters(t.subrange(lo as int, hi as int)),
                g.len() > 0,
                g.last() == last@,
                t == self.chars@,
            decreases last@.len() - k,
        {
            if !white_space(last[k]) {
                assert(!is_white_space(g.last()[k as int]));
                return false;
            }
            k = k + 1;
        }
        true
    }

    /// Answers whether the candidate fits. A candidate that fits, or that leaves the
    /// open line at most two clusters long, is accepted, and the open line grows unless
    /// it has reached the end of the paragraph. A refused candidate closes the open line
    /// after the last white space cluster seen on it, else after what was accepted; the
    /// next line opens there. Reaching the end of a paragraph closes the line there, then
    /// records the empty paragraphs that follow and opens the next. Once every
    /// paragraph is broken, the byte ranges of all the lines come back.
    pub fn step(&mut self, fits: bool) -> (lines: Option<Vec<Range<usize>>>)
        requires
            old(self).valid(),
        ensures
            final(self).valid(),
            final(self)@.well_formed(),
            final(self)@.text == old(self)@.text,
            final(self)@.bounded == old(self)@.bounded,
            old(self)@.finished() ==> final(self)@ == old(self)@,
            !old(self)@.finished() && !old(self)@.closes(fits) ==> final(self)@ == old(self)@.grown(),
            !old(self)@.finished() && old(self)@.closes(fits) && old(self)@.chosen_end(fits) + 1
                < old(self)@.boundaries.len() ==> final(self)@ == old(self)@.continued(fits),
            !old(self)@.finished() && old(self)@.closes(fits) && old(self)@.chosen_end(fits) + 1
                == old(self)@.boundaries.len() ==> {
                let ps = paragraphs(old(self)@.text);
                let p = old(self)@.paragraph;
                &&& p < final(self)@.paragraph
                &&& final(self)@.lines == old(self)@.lines.push(old(self)@.closed_line(fits))
                    + ps.subrange(p + 1, final(self)@.paragraph)
                &&& final(self)@.owners == old(self)@.owners.push(p) + counting(
                    p + 1,
                    final(self)@.paragraph,
                )
                &&& forall|k: int|
                    p < k < final(self)@.paragraph ==> (#[trigger] ps[k]).0 == ps[k].1
                &&& !final(self)@.finished() ==> final(self)@.start == 0 && final(self)@.end == 1
                    && final(self)@.whitespace is None
            },
            lines is Some <==> final(self)@.finished(),
            lines matches Some(r) ==> spans_bytes(final(self)@.text, r@, final(self)@.lines),
    {
        proof {
            lemma_paragraph_bounds(self.chars@);
        }
        if self.paragraph >= self.paragraph_list.len() {
            return Some(self.emitted_lines());
        }
        let ghost v = self@;
        let ghost ps = paragraphs(self.chars@);
        assert(self@.boundaries[self@.end] <= self.chars@.len()) by {
            if self@.end < self@.boundaries.len() - 1 {
                assert(self@.boundaries[self@.end] < self@.boundaries.last());
            }
        }
        assert(0 <= self@.boundaries[self@.start] < self@.boundaries[self@.end]);
        assert(self.end < self.boundaries.len());
        let stops = !fits && self.accepted > self.start + 1;
        if !stops && self.end + 1 < self.boundaries.len() {
            let lo = self.boundaries[self.start];
            let hi = self.boundaries[self.end];
            let blank = self.segment_ends_in_blank(lo, hi);
            self.accepted = self.end;
            if blank {
                self.whitespace = Some(self.end);
            }
            self.end = self.end + 1;
            proof {
                assert(self@ == v.grown());
                let w = self@;
                assert forall|k: int| w.last_blank() < k < w.end implies !ends_in_blank(
                    #[trigger] w.segment(k),
                ) by {
                    assert(w.segment(k) == v.segment(k));
                    if k < v.end {
                        assert(v.last_blank() <= w.last_blank());
                    }
                }
            }
            return None;
        }
        let chosen = if stops {
            match self.whitespace {
                Some(w) => w,
                None => self.accepted,
            }
        } else {
            self.end
        };
        let line = (self.boundaries[self.start], self.boundaries[chosen]);
        proof {
            lemma_close_line(v, chosen as int);
        }
        self.lines.push(line);
        proof {
            self.owners@ = self.owners@.push(self.paragraph as int);
            assert(self@.lines =~= v.lines.push(v.closed_line(fits)));
        }
        if chosen + 1 < self.boundaries.len() {
            self.start = chosen;
            self.end = chosen + 1;
            self.accepted = chosen + 1;
            self.whitespace = None;
            proof {
                assert(self@ == v.continued(fits));
            }
            None
        } else {
            let next = self.paragraph + 1;
            let ghost mid = self@;
            self.advance(next);
            proof {
                assert(self@.lines =~= v.lines.push(v.closed_line(fits)) + ps.subrange(
                    v.paragraph + 1,
                    self@.paragraph,
                ));
                assert(self@.owners =~= v.owners.push(v.paragraph) + counting(
                    v.paragraph + 1,
                    self@.paragraph,
                ));
            }
            if self.paragraph >= self.paragraph_list.len() {
                Some(self.emitted_lines())
            } else {
                None
            }
        }
    }
}

} // verus!
