//! The shaped-text model that splitting and width measurement read: one record
//! per character slot of a run, carrying the glyph advance, the whitespace and
//! hard-break classification, and indivisible-piece boundaries.  Shaping is an
//! external collaborator; a run is immutable once built and is shared by every
//! box that references a window of it.

use crate::geometry::MAX_AU;
use vstd::prelude::*;

verus! {

/// What the text metrics provider reports for one character of a shaped run.
#[derive(Clone, Copy, PartialEq, Eq, Structural, Debug)]
pub struct RunChar {
    /// Advance width of this character's glyphs, in app units.
    pub advance: i64,
    /// True when the character is trimmable whitespace.
    pub trimmable: bool,
    /// True when the character is a hard line break.
    pub newline: bool,
    /// True when a new indivisible piece begins at this character; the first
    /// character of any queried range always begins a piece.
    pub piece_start: bool,
}

/// An immutable shaped text run.
#[derive(Debug)]
pub struct TextRun {
    pub chars: Vec<RunChar>,
}

/// Sum of the advances of `len` characters starting at `off`.
pub open spec fn advance_sum(s: Seq<RunChar>, off: int, len: int) -> int
    decreases len,
{
    if len <= 0 {
        0
    } else {
        s[off].advance + advance_sum(s, off + 1, len - 1)
    }
}

/// Every character in the range is trimmable whitespace.
pub open spec fn range_trimmable(s: Seq<RunChar>, off: int, len: int) -> bool {
    forall|i: int| off <= i < off + len ==> s[i].trimmable
}

/// First index in `[j, end)` at which a new indivisible piece begins, or `end`
/// when none does.  A piece that starts at `cur` therefore extends to
/// `piece_end(s, cur + 1, end)`.
pub open spec fn piece_end(s: Seq<RunChar>, j: int, end: int) -> int
    decreases end - j,
{
    if j >= end {
        end
    } else if s[j].piece_start {
        j
    } else {
        piece_end(s, j + 1, end)
    }
}

/// All advances of a run are nonnegative.
pub open spec fn advances_nonneg(s: Seq<RunChar>) -> bool {
    forall|i: int| 0 <= i < s.len() ==> 0 <= s[i].advance
}

/// Maximum over the indivisible pieces of a range of the piece's advance sum;
/// `i` is the next character, `cur` the advance of the still-open piece, and
/// `best` the widest piece closed so far.
pub open spec fn max_piece_rec(s: Seq<RunChar>, i: int, end: int, cur: int, best: int) -> int
    decreases end - i,
{
    if i >= end {
        if cur > best {
            cur
        } else {
            best
        }
    } else if s[i].piece_start {
        max_piece_rec(s, i + 1, end, s[i].advance as int, if cur > best { cur } else { best })
    } else {
        max_piece_rec(s, i + 1, end, cur + s[i].advance, best)
    }
}

/// Minimum content width of a range: the advance of its widest indivisible
/// piece, the narrowest the content can be forced without breaking a piece.
pub open spec fn spec_min_width(s: Seq<RunChar>, off: int, len: int) -> int {
    if len <= 0 {
        0
    } else {
        max_piece_rec(s, off + 1, off + len, s[off].advance as int, 0)
    }
}

/// Maximum over the natural (hard-break-delimited) lines of a range of the
/// line's advance sum; `cur` is the advance of the still-open line and `best`
/// the widest line closed so far.  A hard break closes the line and
/// contributes no advance; an empty line contributes nothing.
pub open spec fn pref_width_rec(s: Seq<RunChar>, i: int, end: int, cur: int, best: int) -> int
    decreases end - i,
{
    if i >= end {
        if cur > best {
            cur
        } else {
            best
        }
    } else if s[i].newline {
        pref_width_rec(s, i + 1, end, 0, if cur > best { cur } else { best })
    } else {
        pref_width_rec(s, i + 1, end, cur + s[i].advance, best)
    }
}

/// Preferred content width of a range: the width it occupies when wrapped only
/// at its own hard line breaks.
pub open spec fn spec_pref_width(s: Seq<RunChar>, off: int, len: int) -> int {
    pref_width_rec(s, off, off + len, 0, 0)
}

/// An advance sum over a range splits at any interior point.
pub proof fn lemma_advance_sum_split(s: Seq<RunChar>, off: int, a: int, b: int)
    requires
        0 <= a,
        0 <= b,
    ensures
        advance_sum(s, off, a + b) == advance_sum(s, off, a) + advance_sum(s, off + a, b),
    decreases a,
{
    if a > 0 {
        lemma_advance_sum_split(s, off + 1, a - 1, b);
    }
}

/// With nonnegative advances, every range sum is nonnegative.
pub proof fn lemma_advance_sum_nonneg(s: Seq<RunChar>, off: int, len: int)
    requires
        advances_nonneg(s),
        0 <= off,
        off + len <= s.len(),
    ensures
        0 <= advance_sum(s, off, len),
    decreases len,
{
    if len > 0 {
        lemma_advance_sum_nonneg(s, off + 1, len - 1);
    }
}

/// With nonnegative advances, a range sum never exceeds the whole run's sum.
pub proof fn lemma_advance_sum_le_total(s: Seq<RunChar>, off: int, len: int)
    requires
        advances_nonneg(s),
        0 <= off,
        0 <= len,
        off + len <= s.len(),
    ensures
        advance_sum(s, off, len) <= advance_sum(s, 0, s.len() as int),
{
    lemma_advance_sum_split(s, 0, off, len);
    lemma_advance_sum_split(s, 0, off + len, s.len() - off - len);
    lemma_advance_sum_nonneg(s, 0, off);
    lemma_advance_sum_nonneg(s, off + len, s.len() - off - len);
}

/// `piece_end` lands inside `[j, end]`.
pub proof fn lemma_piece_end_bounds(s: Seq<RunChar>, j: int, end: int)
    requires
        j <= end,
    ensures
        j <= piece_end(s, j, end) <= end,
    decreases end - j,
{
    if j < end && !s[j].piece_start {
        lemma_piece_end_bounds(s, j + 1, end);
    }
}

impl TextRun {
    /// A run the algorithms may work on: nonnegative advances whose total
    /// stays within `MAX_AU`, so that no sub-range sum overflows.
    pub open spec fn wf(self) -> bool {
        &&& advances_nonneg(self.chars@)
        &&& advance_sum(self.chars@, 0, self.chars@.len() as int) <= MAX_AU
    }

    /// Number of character slots in the run.
    pub fn len(&self) -> (n: usize)
        ensures
            n == self.chars@.len(),
    {
        self.chars.len()
    }

    /// Total advance width of the characters in `[offset, offset + length)`.
    pub fn metrics_for_range(&self, offset: usize, length: usize) -> (r: i64)
        requires
            self.wf(),
            offset + length <= self.chars@.len(),
        ensures
            r == advance_sum(self.chars@, offset as int, length as int),
            0 <= r <= MAX_AU,
    {
        let ghost s = self.chars@;
        // brings the run length's usize bound into scope for the index sums
        let _n: usize = self.chars.len();
        let mut total: i64 = 0;
        let mut i: usize = 0;
        while i < length
            invariant
                self.wf(),
                s == self.chars@,
                s.len() <= usize::MAX,
                offset + length <= s.len(),
                i <= length,
                total == advance_sum(s, offset as int, i as int),
                0 <= total <= MAX_AU,
            decreases length - i,
        {
            proof {
                lemma_advance_sum_split(s, offset as int, i as int, 1);
                lemma_advance_sum_le_total(s, offset as int, i + 1);
                lemma_advance_sum_nonneg(s, offset as int, (i + 1) as int);
                assert(advance_sum(s, offset + i, 1) == s[offset + i].advance + advance_sum(
                    s,
                    offset + i + 1,
                    0,
                ));
            }
            total = total + self.chars[offset + i].advance;
            i = i + 1;
        }
        proof {
            lemma_advance_sum_nonneg(s, offset as int, length as int);
            lemma_advance_sum_le_total(s, offset as int, length as int);
        }
        total
    }

    /// Whether the whole range is trimmable whitespace.
    pub fn range_is_trimmable_whitespace(&self, offset: usize, length: usize) -> (r: bool)
        requires
            offset + length <= self.chars@.len(),
        ensures
            r == range_trimmable(self.chars@, offset as int, length as int),
    {
        // brings the run length's usize bound into scope for the index sums
        let _n: usize = self.chars.len();
        let mut i: usize = 0;
        while i < length
            invariant
                offset + length <= self.chars@.len(),
                self.chars@.len() <= usize::MAX,
                i <= length,
                forall|j: int| offset <= j < offset + i ==> self.chars@[j].trimmable,
            decreases length - i,
        {
            if !self.chars[offset + i].trimmable {
                return false;
            }
            i = i + 1;
        }
        true
    }

    /// First index in `[j, end)` at which a new indivisible piece begins, or
    /// `end` when none does.
    pub fn next_piece_start(&self, j: usize, end: usize) -> (r: usize)
        requires
            j <= end,
            end <= self.chars@.len(),
        ensures
            r == piece_end(self.chars@, j as int, end as int),
            j <= r <= end,
    {
        proof {
            lemma_piece_end_bounds(self.chars@, j as int, end as int);
        }
        let mut k: usize = j;
        while k < end
            invariant
                j <= k <= end,
                end <= self.chars@.len(),
                piece_end(self.chars@, j as int, end as int) == piece_end(
                    self.chars@,
                    k as int,
                    end as int,
                ),
            decreases end - k,
        {
            if self.chars[k].piece_start {
                return k;
            }
            k = k + 1;
        }
        end
    }

    /// Minimum content width of `[offset, offset + length)`: the advance of
    /// its widest indivisible piece.
    pub fn min_width_for_range(&self, offset: usize, length: usize) -> (r: i64)
        requires
            self.wf(),
            offset + length <= self.chars@.len(),
        ensures
            r == spec_min_width(self.chars@, offset as int, length as int),
    {
        if length == 0 {
            return 0;
        }
        let ghost s = self.chars@;
        // brings the run length's usize bound into scope for the index sums
        let _n: usize = self.chars.len();
        let end: usize = offset + length;
        let mut cur: i64 = self.chars[offset].advance;
        let mut best: i64 = 0;
        let mut i: usize = offset + 1;
        let ghost mut p: int = offset as int;
        proof {
            lemma_advance_sum_split(s, offset as int, 1, 0);
            lemma_advance_sum_le_total(s, offset as int, 1);
            lemma_advance_sum_nonneg(s, offset as int, 1);
        }
        while i < end
            invariant
                self.wf(),
                s == self.chars@,
                offset + length == end,
                end <= s.len(),
                offset < end,
                offset + 1 <= i <= end,
                p <= i,
                0 <= p,
                cur == advance_sum(s, p, i - p),
                0 <= cur <= MAX_AU,
                0 <= best <= MAX_AU,
                max_piece_rec(s, i as int, end as int, cur as int, best as int)
                    == spec_min_width(s, offset as int, length as int),
            decreases end - i,
        {
            if self.chars[i].piece_start {
                if cur > best {
                    best = cur;
                }
                proof {
                    lemma_advance_sum_split(s, i as int, 1, 0);
                    lemma_advance_sum_le_total(s, i as int, 1);
                    lemma_advance_sum_nonneg(s, i as int, 1);
                    p = i as int;
                }
                cur = self.chars[i].advance;
            } else {
                proof {
                    lemma_advance_sum_split(s, p, i - p, 1);
                    lemma_advance_sum_le_total(s, p, i + 1 - p);
                    lemma_advance_sum_nonneg(s, p, i + 1 - p);
                    assert(advance_sum(s, i as int, 1) == s[i as int].advance + advance_sum(
                        s,
                        i + 1,
                        0,
                    ));
                }
                cur = cur + self.chars[i].advance;
            }
            i = i + 1;
        }
        if cur > best {
            cur
        } else {
            best
        }
    }

    /// Preferred content width of `[offset, offset + length)`: the advance of
    /// its widest natural (hard-break-delimited) line.
    pub fn pref_width_for_range(&self, offset: usize, length: usize) -> (r: i64)
        requires
            self.wf(),
            offset + length <= self.chars@.len(),
        ensures
            r == spec_pref_width(self.chars@, offset as int, length as int),
    {
        let ghost s = self.chars@;
        // brings the run length's usize bound into scope for the index sums
        let _n: usize = self.chars.len();
        let end: usize = offset + length;
        let mut cur: i64 = 0;
        let mut best: i64 = 0;
        let mut i: usize = offset;
        let ghost mut p: int = offset as int;
        while i < end
            invariant
                self.wf(),
                s == self.chars@,
                offset + length == end,
                end <= s.len(),
                offset <= i <= end,
                p <= i,
                0 <= p,
                cur == advance_sum(s, p, i - p),
                0 <= cur <= MAX_AU,
                0 <= best <= MAX_AU,
                pref_width_rec(s, i as int, end as int, cur as int, best as int)
                    == spec_pref_width(s, offset as int, length as int),
            decreases end - i,
        {
            if self.chars[i].newline {
                if cur > best {
                    best = cur;
                }
                cur = 0;
                proof {
                    p = (i + 1) as int;
                }
            } else {
                proof {
                    lemma_advance_sum_split(s, p, i - p, 1);
                    lemma_advance_sum_le_total(s, p, i + 1 - p);
                    lemma_advance_sum_nonneg(s, p, i + 1 - p);
                    assert(advance_sum(s, i as int, 1) == s[i as int].advance + advance_sum(
                        s,
                        i + 1,
                        0,
                    ));
                }
                cur = cur + self.chars[i].advance;
            }
            i = i + 1;
        }
        if cur > best {
            cur
        } else {
            best
        }
    }
}

} // verus!
