//! The mathematical model of the line-splitting pass: a greedy forward walk
//! over the indivisible pieces of a text box's range, with leading-whitespace
//! trimming on a line-initial box, and the facts the laws build on.

use crate::text_run::advance_sum;
use crate::text_run::advances_nonneg;
use crate::text_run::lemma_advance_sum_split;
use crate::text_run::lemma_piece_end_bounds;
use crate::text_run::piece_end;
use crate::text_run::range_trimmable;
use crate::text_run::RunChar;
use vstd::prelude::*;

verus! {

/// The running state of a split: how many pieces were examined, the width
/// still available, the committed left window, and the forced right remainder
/// once one exists.
pub struct SplitState {
    pub i: int,
    pub remaining: int,
    pub left_offset: int,
    pub left_length: int,
    pub right: Option<(int, int)>,
}

/// One greedy pass over the indivisible pieces of `[cur, end)`, continuing a
/// split with state `st`.  A piece that fits is committed to the left window
/// and its advance deducted, except that the very first piece examined by a
/// line-initial box is skipped without cost when it is trimmable whitespace.
/// The first piece that does not fit stops the walk: trimmable whitespace is
/// trimmed (the remainder, if any, starts after it), ordinary content itself
/// starts the remainder.
pub open spec fn split_loop(
    s: Seq<RunChar>,
    cur: int,
    end: int,
    starts_line: bool,
    st: SplitState,
) -> SplitState
    decreases end - cur,
    via split_loop_decreases
{
    if cur >= end {
        st
    } else {
        let pend = piece_end(s, cur + 1, end);
        let len = pend - cur;
        let adv = advance_sum(s, cur, len);
        if adv <= st.remaining {
            let st2 = if starts_line && st.i == 0 && range_trimmable(s, cur, len) {
                SplitState {
                    i: st.i + 1,
                    remaining: st.remaining,
                    left_offset: st.left_offset + len,
                    left_length: st.left_length,
                    right: st.right,
                }
            } else {
                SplitState {
                    i: st.i + 1,
                    remaining: st.remaining - adv,
                    left_offset: st.left_offset,
                    left_length: st.left_length + len,
                    right: st.right,
                }
            };
            split_loop(s, pend, end, starts_line, st2)
        } else {
            if range_trimmable(s, cur, len) {
                if pend < end {
                    SplitState {
                        i: st.i + 1,
                        remaining: st.remaining,
                        left_offset: st.left_offset,
                        left_length: st.left_length,
                        right: Some((pend, end - pend)),
                    }
                } else {
                    SplitState {
                        i: st.i + 1,
                        remaining: st.remaining,
                        left_offset: st.left_offset,
                        left_length: st.left_length,
                        right: st.right,
                    }
                }
            } else {
                SplitState {
                    i: st.i + 1,
                    remaining: st.remaining,
                    left_offset: st.left_offset,
                    left_length: st.left_length,
                    right: Some((cur, end - cur)),
                }
            }
        }
    }
}

#[via_fn]
proof fn split_loop_decreases(s: Seq<RunChar>, cur: int, end: int, starts_line: bool, st: SplitState) {
    if cur < end {
        lemma_piece_end_bounds(s, cur + 1, end);
    }
}

/// The split of the box window `[off, off + len)` at width `w`.
pub open spec fn spec_split(s: Seq<RunChar>, off: int, len: int, w: int, starts_line: bool) -> SplitState {
    split_loop(
        s,
        off,
        off + len,
        starts_line,
        SplitState { i: 0, remaining: w, left_offset: off, left_length: 0, right: None },
    )
}

/// Range and budget facts every split-loop run preserves: the left window
/// grows inside the box range and stays aligned with the walk, the committed
/// advance is exactly the width consumed, the budget never grows, and a right
/// remainder is a nonempty suffix of the box range.
pub proof fn lemma_split_loop_bounds(
    s: Seq<RunChar>,
    cur: int,
    end: int,
    starts_line: bool,
    st: SplitState,
)
    requires
        advances_nonneg(s),
        0 <= cur <= end <= s.len(),
        0 <= st.left_offset,
        0 <= st.left_length,
        st.left_offset + st.left_length == cur,
        0 <= st.i,
        st.i == 0 ==> st.left_length == 0,
        st.right is None,
    ensures
        ({
            let r = split_loop(s, cur, end, starts_line, st);
            &&& st.left_offset <= r.left_offset
            &&& 0 <= r.left_length
            &&& r.left_offset + r.left_length <= end
            &&& st.i < r.i <= st.i + (end - cur) || (cur == end && r == st)
            &&& r.remaining <= st.remaining
            &&& (r.remaining >= 0 || r.remaining == st.remaining)
            &&& (st.left_length < r.left_length ==> 0 <= r.remaining)
            &&& advance_sum(s, r.left_offset, r.left_length) == advance_sum(
                s,
                st.left_offset,
                st.left_length,
            ) + (st.remaining - r.remaining)
            &&& (st.i >= 1 ==> r.left_offset == st.left_offset)
            &&& (r.right matches Some((ro, rl)) ==> cur <= ro && ro + rl == end && 0 < rl
                && r.left_offset + r.left_length <= ro)
            &&& range_trimmable(s, st.left_offset, r.left_offset - st.left_offset)
            &&& (r.right matches Some((ro, rl)) ==> range_trimmable(
                s,
                r.left_offset + r.left_length,
                ro - (r.left_offset + r.left_length),
            ))
            &&& (r.right is None ==> range_trimmable(
                s,
                r.left_offset + r.left_length,
                end - (r.left_offset + r.left_length),
            ))
        }),
    decreases end - cur,
{
    if cur < end {
        let pend = piece_end(s, cur + 1, end);
        lemma_piece_end_bounds(s, cur + 1, end);
        let len = pend - cur;
        let adv = advance_sum(s, cur, len);
        crate::text_run::lemma_advance_sum_nonneg(s, cur, len);
        if adv <= st.remaining {
            if starts_line && st.i == 0 && range_trimmable(s, cur, len) {
                let st2 = SplitState {
                    i: st.i + 1,
                    remaining: st.remaining,
                    left_offset: st.left_offset + len,
                    left_length: st.left_length,
                    right: st.right,
                };
                lemma_split_loop_bounds(s, pend, end, starts_line, st2);
            } else {
                let st2 = SplitState {
                    i: st.i + 1,
                    remaining: st.remaining - adv,
                    left_offset: st.left_offset,
                    left_length: st.left_length + len,
                    right: st.right,
                };
                lemma_advance_sum_split(s, st.left_offset, st.left_length, len);
                lemma_split_loop_bounds(s, pend, end, starts_line, st2);
            }
        }
    }
}

/// When everything still ahead fits in the remaining width and leading
/// trimming no longer applies, the walk commits the whole rest of the range.
pub proof fn lemma_split_loop_all_fit(
    s: Seq<RunChar>,
    cur: int,
    end: int,
    starts_line: bool,
    st: SplitState,
)
    requires
        advances_nonneg(s),
        0 <= cur <= end <= s.len(),
        0 <= st.i,
        advance_sum(s, cur, end - cur) <= st.remaining,
        st.right is None,
        cur < end ==> !(starts_line && st.i == 0 && range_trimmable(
            s,
            cur,
            piece_end(s, cur + 1, end) - cur,
        )),
    ensures
        ({
            let r = split_loop(s, cur, end, starts_line, st);
            &&& r.right is None
            &&& r.left_offset == st.left_offset
            &&& r.left_length == st.left_length + (end - cur)
            &&& r.remaining == st.remaining - advance_sum(s, cur, end - cur)
        }),
    decreases end - cur,
{
    if cur < end {
        let pend = piece_end(s, cur + 1, end);
        lemma_piece_end_bounds(s, cur + 1, end);
        let len = pend - cur;
        lemma_advance_sum_split(s, cur, len, end - pend);
        crate::text_run::lemma_advance_sum_nonneg(s, cur, len);
        crate::text_run::lemma_advance_sum_nonneg(s, pend, end - pend);
        let adv = advance_sum(s, cur, len);
        let st2 = SplitState {
            i: st.i + 1,
            remaining: st.remaining - adv,
            left_offset: st.left_offset,
            left_length: st.left_length + len,
            right: st.right,
        };
        lemma_split_loop_all_fit(s, pend, end, starts_line, st2);
    }
}

} // verus!
