use std::ops::Range;

use unicode_segmentation::UnicodeSegmentation;
use vstd::prelude::*;

use crate::text_util::{chars_of, string_from_chars, views};

verus! {

/// Names the extended grapheme clusters that `unicode-segmentation` finds in a text.
pub uninterp spec fn grapheme_clusters(text: Seq<char>) -> Seq<Seq<char>>;

/// The parts written one after another.
pub open spec fn concat(parts: Seq<Seq<char>>) -> Seq<char>
    decreases parts.len(),
{
    if parts.len() == 0 {
        seq![]
    } else {
        concat(parts.drop_last()) + parts.last()
    }
}

/// The character offsets at which the parts start, followed by the total length.
pub open spec fn prefix_lengths(parts: Seq<Seq<char>>) -> Seq<int>
    decreases parts.len(),
{
    if parts.len() == 0 {
        seq![0]
    } else {
        prefix_lengths(parts.drop_last()).push(concat(parts).len() as int)
    }
}

/// The grapheme boundaries of a text, as character offsets from its start to its end.
pub open spec fn grapheme_boundaries(text: Seq<char>) -> Seq<int> {
    prefix_lengths(grapheme_clusters(text))
}

/// `p` is the last grapheme boundary before offset `c`.
pub open spec fn is_previous_boundary(text: Seq<char>, c: int, p: int) -> bool {
    let b = grapheme_boundaries(text);
    &&& b.contains(p)
    &&& p < c
    &&& forall|k: int| 0 <= k < b.len() && #[trigger] b[k] < c ==> b[k] <= p
}

/// `n` is the first grapheme boundary after offset `c`.
pub open spec fn is_next_boundary(text: Seq<char>, c: int, n: int) -> bool {
    let b = grapheme_boundaries(text);
    &&& b.contains(n)
    &&& c < n
    &&& forall|k: int| 0 <= k < b.len() && #[trigger] b[k] > c ==> n <= b[k]
}

/// The grapheme clusters of the text; `UnicodeSegmentation::graphemes` with extended
/// clusters. Its source yields the consecutive slices between one boundary and the
/// next, from the start of the text to its end, so the clusters are non-empty and
/// written one after another give back the text.
#[verifier::external_body]
pub(crate) fn clusters_of(text: &str) -> (clusters: Vec<String>)
    ensures
        views(clusters@) == grapheme_clusters(text@),
        concat(views(clusters@)) == text@,
        forall|i: int| 0 <= i < clusters@.len() ==> #[trigger] clusters@[i]@.len() > 0,
{
    text.graphemes(true).map(|g| g.to_owned()).collect()
}

/// The number of bytes that UTF-8 spends on a character.
pub open spec fn char_width(c: char) -> nat {
    let u = c as u32;
    if u <= 0x7f {
        1
    } else if u <= 0x7ff {
        2
    } else if u <= 0xffff {
        3
    } else {
        4
    }
}

/// The number of bytes of the UTF-8 encoding of a text.
pub open spec fn utf8_width(s: Seq<char>) -> nat
    decreases s.len(),
{
    if s.len() == 0 {
        0
    } else {
        char_width(s[0]) + utf8_width(s.drop_first())
    }
}

/// The byte offset of the character offset `i`.
pub open spec fn byte_offset(s: Seq<char>, i: int) -> nat {
    utf8_width(s.subrange(0, i))
}

/// `i` is the last character offset whose byte offset does not pass `byte`.
pub open spec fn char_index_for_byte(s: Seq<char>, byte: int, i: int) -> bool {
    &&& 0 <= i <= s.len()
    &&& byte_offset(s, i) <= byte
    &&& (i < s.len() ==> byte_offset(s, i + 1) > byte)
}

/// The text with the characters between `lo` and `hi` replaced by `ins`.
pub open spec fn spliced(text: Seq<char>, lo: int, hi: int, ins: Seq<char>) -> Seq<char> {
    text.subrange(0, lo) + ins + text.subrange(hi, text.len() as int)
}

pub open spec fn min_of(a: int, b: int) -> int {
    if a <= b {
        a
    } else {
        b
    }
}

pub open spec fn max_of(a: int, b: int) -> int {
    if a <= b {
        b
    } else {
        a
    }
}

proof fn lemma_width_append(a: Seq<char>, b: Seq<char>)
    ensures
        utf8_width(a + b) == utf8_width(a) + utf8_width(b),
    decreases a.len(),
{
    if a.len() == 0 {
        assert(a + b == b);
    } else {
        assert((a + b).drop_first() == a.drop_first() + b);
        lemma_width_append(a.drop_first(), b);
    }
}

proof fn lemma_width_is_encoding_length(s: Seq<char>)
    ensures
        utf8_width(s) == vstd::utf8::encode_utf8(s).len(),
    decreases s.len(),
{
    if s.len() > 0 {
        vstd::utf8::char_is_scalar(s[0]);
        lemma_width_is_encoding_length(s.drop_first());
    }
}

proof fn lemma_prefix_width(s: Seq<char>, i: int, j: int)
    requires
        0 <= i <= j <= s.len(),
    ensures
        byte_offset(s, i) <= byte_offset(s, j) <= utf8_width(s),
        j == i + 1 ==> byte_offset(s, j) == byte_offset(s, i) + char_width(s[i]),
{
    lemma_width_append(s.subrange(0, i), s.subrange(i, j));
    assert(s.subrange(0, i) + s.subrange(i, j) == s.subrange(0, j));
    lemma_width_append(s.subrange(0, j), s.subrange(j, s.len() as int));
    assert(s.subrange(0, j) + s.subrange(j, s.len() as int) == s);
    if j == i + 1 {
        assert(s.subrange(i, j).drop_first().len() == 0);
        assert(utf8_width(s.subrange(i, j).drop_first()) == 0);
        assert(s.subrange(i, j)[0] == s[i]);
    }
}

proof fn lemma_prefix_lengths_start(parts: Seq<Seq<char>>)
    ensures
        prefix_lengths(parts).len() == parts.len() + 1,
        prefix_lengths(parts)[0] == 0,
        prefix_lengths(parts).last() == concat(parts).len(),
    decreases parts.len(),
{
    if parts.len() > 0 {
        lemma_prefix_lengths_start(parts.drop_last());
    }
}

proof fn lemma_concat_take(parts: Seq<Seq<char>>, i: int)
    requires
        0 <= i < parts.len(),
    ensures
        concat(parts.take(i + 1)) == concat(parts.take(i)) + parts[i],
        parts.take(i + 1).drop_last() == parts.take(i),
{
    assert(parts.take(i + 1).drop_last() == parts.take(i));
}

proof fn lemma_concat_take_len(parts: Seq<Seq<char>>, i: int)
    requires
        0 <= i <= parts.len(),
    ensures
        concat(parts.take(i)).len() <= concat(parts).len(),
    decreases parts.len() - i,
{
    if i < parts.len() {
        lemma_concat_take(parts, i);
        lemma_concat_take_len(parts, i + 1);
    } else {
        assert(parts.take(i) == parts);
    }
}

fn char_width_of(c: char) -> (w: usize)
    ensures
        w == char_width(c),
{
    let u = c as u32;
    if u <= 0x7f {
        1
    } else if u <= 0x7ff {
        2
    } else if u <= 0xffff {
        3
    } else {
        4
    }
}

/// The byte offset of character offset `i` in `chars`.
fn byte_offset_of(chars: &[char], i: usize) -> (b: usize)
    requires
        i <= chars@.len(),
        utf8_width(chars@) <= usize::MAX,
    ensures
        b == byte_offset(chars@, i as int),
{
    let mut k: usize = 0;
    let mut b: usize = 0;
    while k < i
        invariant
            k <= i <= chars@.len(),
            utf8_width(chars@) <= usize::MAX,
            b == byte_offset(chars@, k as int),
        decreases i - k,
    {
        proof {
            lemma_prefix_width(chars@, k as int, k + 1);
        }
        b = b + char_width_of(chars[k]);
        k = k + 1;
    }
    b
}

/// The byte offset of every character offset of the text, its end included.
pub(crate) fn byte_offsets(text: &str) -> (offsets: Vec<usize>)
    ensures
        offsets@.len() == text@.len() + 1,
        forall|i: int| 0 <= i <= text@.len() ==> #[trigger] offsets@[i] as int == byte_offset(text@, i),
{
    let chars = chars_of(text);
    let _bytes = text.as_bytes().len();
    proof {
        lemma_width_is_encoding_length(chars@);
    }
    let mut offsets: Vec<usize> = Vec::new();
    let mut b: usize = 0;
    let mut k: usize = 0;
    offsets.push(0);
    proof {
        assert(chars@.subrange(0, 0).len() == 0);
    }
    while k < chars.len()
        invariant
            chars@ == text@,
            utf8_width(chars@) <= usize::MAX,
            k <= chars@.len(),
            b == byte_offset(chars@, k as int),
            offsets@.len() == k + 1,
            forall|i: int| 0 <= i <= k ==> #[trigger] offsets@[i] as int == byte_offset(chars@, i),
        decreases chars@.len() - k,
    {
        proof {
            lemma_prefix_width(chars@, k as int, k + 1);
        }
        b = b + char_width_of(chars[k]);
        offsets.push(b);
        k = k + 1;
    }
    offsets
}

/// The last character offset of `chars` whose byte offset does not pass `byte`.
fn char_index_of(chars: &[char], byte: usize) -> (i: usize)
    requires
        utf8_width(chars@) <= usize::MAX,
    ensures
        char_index_for_byte(chars@, byte as int, i as int),
{
    let mut i: usize = 0;
    let mut b: usize = 0;
    while i < chars.len()
        invariant
            i <= chars@.len(),
            utf8_width(chars@) <= usize::MAX,
            b == byte_offset(chars@, i as int),
            b <= byte,
        decreases chars@.len() - i,
    {
        proof {
            lemma_prefix_width(chars@, i as int, i + 1);
        }
        let w = char_width_of(chars[i]);
        if w > byte - b {
            return i;
        }
        b = b + w;
        i = i + 1;
    }
    i
}

/// The grapheme boundaries of the text.
pub(crate) fn boundaries_of(text: &str) -> (b: Vec<usize>)
    ensures
        b@.len() == grapheme_boundaries(text@).len(),
        forall|k: int| 0 <= k < b@.len() ==> #[trigger] b@[k] as int == grapheme_boundaries(
            text@,
        )[k],
        b@.len() >= 1,
        b@[0] == 0,
        b@.last() == text@.len(),
        forall|j: int, k: int| 0 <= j < k < b@.len() ==> b@[j] < b@[k],
{
    let clusters = clusters_of(text);
    let total = text.unicode_len();
    let ghost parts = views(clusters@);
    let mut b: Vec<usize> = Vec::new();
    b.push(0);
    let mut sum: usize = 0;
    let mut i: usize = 0;
    proof {
        assert(parts.take(0) == Seq::<Seq<char>>::empty());
        lemma_prefix_lengths_start(parts);
    }
    while i < clusters.len()
        invariant
            parts == views(clusters@),
            concat(parts) == text@,
            total == text@.len(),
            i <= clusters@.len(),
            sum == concat(parts.take(i as int)).len(),
            b@.len() == i + 1,
            b@[i as int] == sum,
            forall|j: int, k: int| 0 <= j < k < b@.len() ==> b@[j] < b@[k],
            forall|k: int| 0 <= k < clusters@.len() ==> #[trigger] clusters@[k]@.len() > 0,
            forall|k: int| 0 <= k < b@.len() ==> #[trigger] b@[k] as int == prefix_lengths(
                parts.take(i as int),
            )[k],
        decreases clusters@.len() - i,
    {
        let n = clusters[i].as_str().unicode_len();
        assert(n > 0);
        proof {
            lemma_concat_take(parts, i as int);
            lemma_concat_take_len(parts, i + 1);
            assert(parts[i as int] == clusters@[i as int]@);
        }
        sum = sum + n;
        b.push(sum);
        i = i + 1;
        proof {
            lemma_concat_take(parts, i - 1);
            lemma_prefix_lengths_start(parts.take(i as int));
            lemma_prefix_lengths_start(parts.take(i - 1));
            let pl = prefix_lengths(parts.take(i as int));
            assert(pl == prefix_lengths(parts.take(i - 1)).push(sum as int));
        }
    }
    proof {
        assert(parts.take(i as int) == parts);
        lemma_prefix_lengths_start(parts);
    }
    b
}

/// The last boundary before offset `c`.
fn previous_boundary(text: &str, c: usize) -> (p: usize)
    requires
        0 < c <= text@.len(),
    ensures
        is_previous_boundary(text@, c as int, p as int),
{
    let b = boundaries_of(text);
    let ghost g = grapheme_boundaries(text@);
    let mut best: usize = 0;
    let mut best_index: usize = 0;
    let mut k: usize = 0;
    while k < b.len()
        invariant
            b@.len() == g.len(),
            forall|j: int| 0 <= j < b@.len() ==> #[trigger] b@[j] as int == g[j],
            k <= b@.len(),
            best_index < b@.len(),
            b@[best_index as int] == best,
            best < c,
            forall|j: int| 0 <= j < k && #[trigger] g[j] < c ==> g[j] <= best,
        decreases b@.len() - k,
    {
        if b[k] < c && b[k] > best {
            best = b[k];
            best_index = k;
        }
        k = k + 1;
    }
    assert(g[best_index as int] == best as int);
    best
}

/// The first boundary after offset `c`.
fn next_boundary(text: &str, c: usize) -> (n: usize)
    requires
        c < text@.len(),
    ensures
        is_next_boundary(text@, c as int, n as int),
        n <= text@.len(),
{
    let b = boundaries_of(text);
    let ghost g = grapheme_boundaries(text@);
    let mut best_index: usize = b.len() - 1;
    let mut best: usize = b[best_index];
    let mut k: usize = 0;
    while k < b.len()
        invariant
            b@.len() == g.len(),
            forall|j: int| 0 <= j < b@.len() ==> #[trigger] b@[j] as int == g[j],
            k <= b@.len(),
            best_index < b@.len(),
            b@[best_index as int] == best,
            best > c,
            best <= text@.len(),
            forall|j: int| 0 <= j < k && #[trigger] g[j] > c ==> best <= g[j],
        decreases b@.len() - k,
    {
        if b[k] > c && b[k] < best {
            best = b[k];
            best_index = k;
        }
        k = k + 1;
    }
    assert(g[best_index as int] == best as int);
    best
}

/// The text with the characters between `lo` and `hi` replaced by `ins`.
fn splice(text: &str, lo: usize, hi: usize, ins: &str) -> (r: String)
    requires
        lo <= hi <= text@.len(),
    ensures
        r@ == spliced(text@, lo as int, hi as int, ins@),
{
    let chars = chars_of(text);
    let inserted = chars_of(ins);
    let mut out: Vec<char> = Vec::new();
    let mut i: usize = 0;
    while i < lo
        invariant
            chars@ == text@,
            i <= lo <= hi <= chars@.len(),
            out@ == chars@.subrange(0, i as int),
        decreases lo - i,
    {
        out.push(chars[i]);
        i = i + 1;
    }
    let mut j: usize = 0;
    while j < inserted.len()
        invariant
            j <= inserted@.len(),
            out@ == chars@.subrange(0, lo as int) + inserted@.subrange(0, j as int),
        decreases inserted@.len() - j,
    {
        out.push(inserted[j]);
        j = j + 1;
        assert(out@ == chars@.subrange(0, lo as int) + inserted@.subrange(0, j as int));
    }
    assert(inserted@.subrange(0, inserted@.len() as int) == inserted@);
    let mut k: usize = hi;
    while k < chars.len()
        invariant
            chars@ == text@,
            hi <= k <= chars@.len(),
            out@ == chars@.subrange(0, lo as int) + inserted@ + chars@.subrange(hi as int, k as int),
        decreases chars@.len() - k,
    {
        out.push(chars[k]);
        k = k + 1;
        assert(out@ == chars@.subrange(0, lo as int) + inserted@ + chars@.subrange(
            hi as int,
            k as int,
        ));
    }
    string_from_chars(out.as_slice())
}

/// Grapheme-safe editing state of a text field: the text, and a selection that runs
/// from an anchor to a caret. Offsets are kept in characters and reported in bytes.
#[derive(Debug, PartialEq, Eq)]
pub struct TextEditState {
    text: String,
    anchor: usize,
    caret: usize,
}

impl TextEditState {
    #[verifier::type_invariant]
    closed spec fn offsets_in_text(self) -> bool {
        &&& self.anchor <= self.text@.len()
        &&& self.caret <= self.text@.len()
    }

    /// The characters of the text.
    pub closed spec fn content(self) -> Seq<char> {
        self.text@
    }

    /// The anchor, as a character offset.
    pub closed spec fn anchor_at(self) -> int {
        self.anchor as int
    }

    /// The caret, as a character offset.
    pub closed spec fn caret_at(self) -> int {
        self.caret as int
    }

    /// Both ends of the selection lie within the text.
    pub open spec fn offsets_valid(self) -> bool {
        &&& 0 <= self.anchor_at() <= self.content().len()
        &&& 0 <= self.caret_at() <= self.content().len()
    }

    /// The start of the selection, as a character offset.
    pub open spec fn selection_start(self) -> int {
        min_of(self.anchor_at(), self.caret_at())
    }

    /// The end of the selection, as a character offset.
    pub open spec fn selection_end(self) -> int {
        max_of(self.anchor_at(), self.caret_at())
    }

    /// The state holds `text` with a collapsed selection at character offset `at`.
    pub open spec fn holds_collapsed(self, text: Seq<char>, at: int) -> bool {
        &&& self.content() == text
        &&& self.anchor_at() == at
        &&& self.caret_at() == at
    }

    fn set_offsets(&mut self, anchor: usize, caret: usize)
        requires
            anchor <= old(self).content().len(),
            caret <= old(self).content().len(),
        ensures
            final(self).content() == old(self).content(),
            final(self).anchor_at() == anchor,
            final(self).caret_at() == caret,
    {
        let text = self.text.clone();
        *self = TextEditState { text, anchor, caret };
    }

    /// A state holding `text` with the caret at its end.
    pub fn new(text: &str) -> (state: Self)
        ensures
            state.holds_collapsed(text@, text@.len() as int),
    {
        let text = text.to_owned();
        let end = text.as_str().unicode_len();
        TextEditState { text, anchor: end, caret: end }
    }

    /// The text.
    pub fn text(&self) -> (text: &str)
        ensures
            text@ == self.content(),
    {
        self.text.as_str()
    }

    fn byte_of(&self, index: usize) -> (b: usize)
        requires
            index <= self.content().len(),
        ensures
            b == byte_offset(self.content(), index as int),
    {
        let chars = chars_of(self.text.as_str());
        let n = self.text.as_str().as_bytes().len();
        proof {
            lemma_width_is_encoding_length(chars@);
        }
        byte_offset_of(chars.as_slice(), index)
    }

    fn index_of(&self, byte: usize) -> (i: usize)
        ensures
            char_index_for_byte(self.content(), byte as int, i as int),
    {
        let chars = chars_of(self.text.as_str());
        let n = self.text.as_str().as_bytes().len();
        proof {
            lemma_width_is_encoding_length(chars@);
        }
        char_index_of(chars.as_slice(), byte)
    }

    /// The caret, as a byte offset into the text.
    pub fn caret(&self) -> (offset: usize)
        ensures
            offset == byte_offset(self.content(), self.caret_at()),
    {
        proof {
            use_type_invariant(self);
        }
        self.byte_of(self.caret)
    }

    /// The anchor of the selection, as a byte offset into the text.
    pub fn selection_anchor(&self) -> (offset: usize)
        ensures
            offset == byte_offset(self.content(), self.anchor_at()),
    {
        proof {
            use_type_invariant(self);
        }
        self.byte_of(self.anchor)
    }

    /// The selected bytes, from the earlier end to the later one.
    pub fn selection(&self) -> (range: Range<usize>)
        ensures
            range.start == byte_offset(self.content(), self.selection_start()),
            range.end == byte_offset(self.content(), self.selection_end()),
    {
        proof {
            use_type_invariant(self);
        }
        let (lo, hi) = if self.anchor <= self.caret {
            (self.anchor, self.caret)
        } else {
            (self.caret, self.anchor)
        };
        Range { start: self.byte_of(lo), end: self.byte_of(hi) }
    }

    /// Collapses the selection at the byte offset, moved back to a character boundary.
    pub fn set_caret(&mut self, offset: usize)
        ensures
            final(self).content() == old(self).content(),
            char_index_for_byte(old(self).content(), offset as int, final(self).caret_at()),
            final(self).anchor_at() == final(self).caret_at(),
    {
        let i = self.index_of(offset);
        self.set_offsets(i, i);
    }

    /// Selects from the range's start (the anchor) to its end (the caret), each moved
    /// back to a character boundary.
    pub fn set_selection(&mut self, range: Range<usize>)
        ensures
            final(self).content() == old(self).content(),
            char_index_for_byte(old(self).content(), range.start as int, final(self).anchor_at()),
            char_index_for_byte(old(self).content(), range.end as int, final(self).caret_at()),
    {
        let a = self.index_of(range.start);
        let c = self.index_of(range.end);
        self.set_offsets(a, c);
    }

    /// Selects the whole text, caret at the end.
    pub fn select_all(&mut self)
        ensures
            final(self).content() == old(self).content(),
            final(self).anchor_at() == 0,
            final(self).caret_at() == old(self).content().len(),
    {
        let end = self.text.as_str().unicode_len();
        self.set_offsets(0, end);
    }

    /// Replaces the selection by `text` and collapses the selection after it.
    pub fn replace_selection(&mut self, text: &str)
        ensures
            replaced(*old(self), *final(self), text@),
    {
        proof {
            use_type_invariant(&*self);
        }
        let (lo, hi) = if self.anchor <= self.caret {
            (self.anchor, self.caret)
        } else {
            (self.caret, self.anchor)
        };
        let inserted = text.unicode_len();
        let new_text = splice(self.text.as_str(), lo, hi, text);
        let new_len = new_text.as_str().unicode_len();
        assert(lo + inserted <= new_len);
        *self = TextEditState { text: new_text, anchor: lo + inserted, caret: lo + inserted };
    }

    /// Deletes the selection, or else the grapheme before the caret.
    /// Reports whether anything was deleted.
    pub fn delete_backward(&mut self) -> (deleted: bool)
        ensures
            deleted_backward(*old(self), *final(self), deleted),
    {
        proof {
            use_type_invariant(&*self);
        }
        proof {
            reveal_strlit("");
        }
        if self.anchor != self.caret {
            self.replace_selection("");
            return true;
        }
        if self.caret == 0 {
            return false;
        }
        let p = previous_boundary(self.text.as_str(), self.caret);
        let new_text = splice(self.text.as_str(), p, self.caret, "");
        *self = TextEditState { text: new_text, anchor: p, caret: p };
        assert(is_previous_boundary(old(self).content(), old(self).selection_end(), p as int));
        true
    }

    /// Deletes the selection, or else the grapheme after the caret.
    /// Reports whether anything was deleted.
    pub fn delete_forward(&mut self) -> (deleted: bool)
        ensures
            deleted_forward(*old(self), *final(self), deleted),
    {
        proof {
            use_type_invariant(&*self);
        }
        proof {
            reveal_strlit("");
        }
        if self.anchor != self.caret {
            self.replace_selection("");
            return true;
        }
        let len = self.text.as_str().unicode_len();
        if self.caret == len {
            return false;
        }
        let n = next_boundary(self.text.as_str(), self.caret);
        let new_text = splice(self.text.as_str(), self.caret, n, "");
        let c = self.caret;
        *self = TextEditState { text: new_text, anchor: c, caret: c };
        assert(is_next_boundary(old(self).content(), old(self).selection_start(), n as int));
        true
    }

    /// Moves the caret one grapheme towards the start. Without `selecting`, a
    /// selection collapses to its start instead, and the anchor follows the caret.
    /// Reports whether anything changed.
    pub fn move_backward(&mut self, selecting: bool) -> (changed: bool)
        ensures
            moved_backward(*old(self), *final(self), selecting, changed),
    {
        proof {
            use_type_invariant(&*self);
        }
        if !selecting && self.anchor != self.caret {
            let lo = if self.anchor <= self.caret {
                self.anchor
            } else {
                self.caret
            };
            self.set_offsets(lo, lo);
            return true;
        }
        if self.caret == 0 {
            return false;
        }
        let p = previous_boundary(self.text.as_str(), self.caret);
        let a = if selecting {
            self.anchor
        } else {
            p
        };
        self.set_offsets(a, p);
        true
    }

    /// Moves the caret one grapheme towards the end. Without `selecting`, a
    /// selection collapses to its end instead, and the anchor follows the caret.
    /// Reports whether anything changed.
    pub fn move_forward(&mut self, selecting: bool) -> (changed: bool)
        ensures
            moved_forward(*old(self), *final(self), selecting, changed),
    {
        proof {
            use_type_invariant(&*self);
        }
        if !selecting && self.anchor != self.caret {
            let hi = if self.anchor <= self.caret {
                self.caret
            } else {
                self.anchor
            };
            self.set_offsets(hi, hi);
            return true;
        }
        let len = self.text.as_str().unicode_len();
        if self.caret == len {
            return false;
        }
        let n = next_boundary(self.text.as_str(), self.caret);
        let a = if selecting {
            self.anchor
        } else {
            n
        };
        self.set_offsets(a, n);
        true
    }

    /// Moves the caret to the start of the text, taking the anchor along unless
    /// `selecting`. Reports whether anything changed.
    pub fn move_to_start(&mut self, selecting: bool) -> (changed: bool)
        ensures
            moved_to_start(*old(self), *final(self), selecting, changed),
    {
        proof {
            use_type_invariant(&*self);
        }
        let changed = self.caret != 0 || (!selecting && self.anchor != 0);
        let a = if selecting {
            self.anchor
        } else {
            0
        };
        self.set_offsets(a, 0);
        changed
    }

    /// Moves the caret to the end of the text, taking the anchor along unless
    /// `selecting`. Reports whether anything changed.
    pub fn move_to_end(&mut self, selecting: bool) -> (changed: bool)
        ensures
            moved_to_end(*old(self), *final(self), selecting, changed),
    {
        let end = self.text.as_str().unicode_len();
        proof {
            use_type_invariant(&*self);
        }
        let changed = self.caret != end || (!selecting && self.anchor != end);
        let a = if selecting {
            self.anchor
        } else {
            end
        };
        self.set_offsets(a, end);
        changed
    }
}

/// `after` is `before` with its selection replaced by `ins`, collapsed after the insertion.
pub open spec fn replaced(before: TextEditState, after: TextEditState, ins: Seq<char>) -> bool {
    after.holds_collapsed(
        spliced(before.content(), before.selection_start(), before.selection_end(), ins),
        before.selection_start() + ins.len(),
    )
}

/// Backspace: a selection is deleted; else the grapheme before the caret is, unless the
/// caret is at the start, where nothing changes.
pub open spec fn deleted_backward(before: TextEditState, after: TextEditState, deleted: bool) -> bool {
    let s = before.selection_start();
    let e = before.selection_end();
    let t = before.content();
    if s < e {
        deleted && after.holds_collapsed(spliced(t, s, e, seq![]), s)
    } else if e == 0 {
        !deleted && after == before
    } else {
        deleted && exists|p: int|
            #![trigger is_previous_boundary(t, e, p)]
            is_previous_boundary(t, e, p) && after.holds_collapsed(spliced(t, p, e, seq![]), p)
    }
}

/// Delete: a selection is deleted; else the grapheme after the caret is, unless the
/// caret is at the end, where nothing changes.
pub open spec fn deleted_forward(before: TextEditState, after: TextEditState, deleted: bool) -> bool {
    let s = before.selection_start();
    let e = before.selection_end();
    let t = before.content();
    if s < e {
        deleted && after.holds_collapsed(spliced(t, s, e, seq![]), s)
    } else if s == t.len() {
        !deleted && after == before
    } else {
        deleted && exists|n: int|
            #![trigger is_next_boundary(t, s, n)]
            is_next_boundary(t, s, n) && after.holds_collapsed(spliced(t, s, n, seq![]), s)
    }
}

/// One step towards the start: without `selecting` a selection collapses to its start;
/// otherwise the caret moves to the previous grapheme boundary, the anchor following it
/// unless `selecting`. At the start nothing changes.
pub open spec fn moved_backward(
    before: TextEditState,
    after: TextEditState,
    selecting: bool,
    changed: bool,
) -> bool {
    let a = before.anchor_at();
    let c = before.caret_at();
    let t = before.content();
    &&& after.content() == t
    &&& if !selecting && a != c {
        changed && after.anchor_at() == before.selection_start() && after.caret_at()
            == before.selection_start()
    } else if c == 0 {
        !changed && after == before
    } else {
        changed && is_previous_boundary(t, c, after.caret_at()) && after.anchor_at() == (if selecting {
            a
        } else {
            after.caret_at()
        })
    }
}

/// One step towards the end: without `selecting` a selection collapses to its end;
/// otherwise the caret moves to the next grapheme boundary, the anchor following it
/// unless `selecting`. At the end nothing changes.
pub open spec fn moved_forward(
    before: TextEditState,
    after: TextEditState,
    selecting: bool,
    changed: bool,
) -> bool {
    let a = before.anchor_at();
    let c = before.caret_at();
    let t = before.content();
    &&& after.content() == t
    &&& if !selecting && a != c {
        changed && after.anchor_at() == before.selection_end() && after.caret_at()
            == before.selection_end()
    } else if c == t.len() {
        !changed && after == before
    } else {
        changed && is_next_boundary(t, c, after.caret_at()) && after.anchor_at() == (if selecting {
            a
        } else {
            after.caret_at()
        })
    }
}

/// The caret jumps to the start of the text, the anchor with it unless `selecting`.
pub open spec fn moved_to_start(
    before: TextEditState,
    after: TextEditState,
    selecting: bool,
    changed: bool,
) -> bool {
    &&& after.content() == before.content()
    &&& after.caret_at() == 0
    &&& after.anchor_at() == (if selecting {
        before.anchor_at()
    } else {
        0
    })
    &&& changed == (before.caret_at() != 0 || (!selecting && before.anchor_at() != 0))
}

/// The caret jumps to the end of the text, the anchor with it unless `selecting`.
pub open spec fn moved_to_end(
    before: TextEditState,
    after: TextEditState,
    selecting: bool,
    changed: bool,
) -> bool {
    let end = before.content().len() as int;
    &&& after.content() == before.content()
    &&& after.caret_at() == end
    &&& after.anchor_at() == (if selecting {
        before.anchor_at()
    } else {
        end
    })
    &&& changed == (before.caret_at() != end || (!selecting && before.anchor_at() != end))
}

impl Clone for TextEditState {
    fn clone(&self) -> (copy: Self)
        ensures
            copy == *self,
    {
        proof {
            use_type_invariant(self);
        }
        TextEditState { text: self.text.clone(), anchor: self.anchor, caret: self.caret }
    }
}

impl Default for TextEditState {
    fn default() -> (state: Self)
        ensures
            state.holds_collapsed(seq![], 0),
    {
        TextEditState { text: String::new(), anchor: 0, caret: 0 }
    }
}

} // verus!
