//! The library's laws: properties that hold of splitting, measurement and
//! paint emission for every input, stated over the same spec functions the
//! functions' own contracts use, and proved here once and for all.

use crate::boxes::RenderBox;
use crate::boxes::SplitBoxResult;
use crate::boxes::TextBoxData;
use crate::context::LayoutContext;
use crate::display_list::DisplayItem;
use crate::geometry::spec_intersects;
use crate::geometry::spec_translate;
use crate::geometry::Point;
use crate::geometry::Rect;
use crate::split::lemma_split_loop_all_fit;
use crate::split::lemma_split_loop_bounds;
use crate::split::spec_split;
use crate::split::split_loop;
use crate::split::SplitState;
use crate::style::BackgroundColor;
use crate::text_run::advance_sum;
use crate::text_run::advances_nonneg;
use crate::text_run::lemma_advance_sum_nonneg;
use crate::text_run::lemma_piece_end_bounds;
use crate::text_run::piece_end;
use crate::text_run::pref_width_rec;
use crate::text_run::range_trimmable;
use crate::text_run::spec_pref_width;
use crate::text_run::RunChar;
use crate::text_run::TextRun;
use vstd::prelude::*;

verus! {

/// A run's character storage is a vector, so its length fits `usize`.
proof fn lemma_run_len_bound(r: TextRun)
    ensures
        r.chars@.len() <= usize::MAX,
{
    vstd::std_specs::vec::axiom_spec_len(&r.chars);
}

/// Law: splitting a line-initial window whose first indivisible piece is
/// trimmable whitespace that fits skips that piece without consuming width.
/// The walk continues past the whitespace with the full width still available,
/// and the left window of the result starts exactly at `off` plus the length
/// of the leading whitespace.
pub proof fn lemma_split_skips_leading_whitespace(s: Seq<RunChar>, off: int, len: int, w: int)
    requires
        advances_nonneg(s),
        0 <= off,
        0 < len,
        off + len <= s.len(),
        range_trimmable(s, off, piece_end(s, off + 1, off + len) - off),
        advance_sum(s, off, piece_end(s, off + 1, off + len) - off) <= w,
    ensures
        ({
            let end = off + len;
            let pend = piece_end(s, off + 1, end);
            let st = spec_split(s, off, len, w, true);
            &&& st == split_loop(
                s,
                pend,
                end,
                true,
                SplitState { i: 1, remaining: w, left_offset: pend, left_length: 0, right: None },
            )
            &&& st.left_offset == pend
        }),
{
    let end = off + len;
    let pend = piece_end(s, off + 1, end);
    lemma_piece_end_bounds(s, off + 1, end);
    let st1 = SplitState { i: 1, remaining: w, left_offset: pend, left_length: 0, right: None };
    assert(spec_split(s, off, len, w, true) == split_loop(s, pend, end, true, st1));
    lemma_split_loop_bounds(s, pend, end, true, st1);
}

/// Law: when the advances of a nonempty text window sum to at most the width
/// and leading trimming does not apply (the box does not start its line, or
/// its first piece is not trimmable whitespace), splitting fits whole: the
/// entire box comes back on the left and there is no remainder.
pub proof fn lemma_box_split_all_fits(b: RenderBox, ctx: LayoutContext, w: i64, starts_line: bool)
    requires
        b is TextBox,
        b.valid_in(ctx),
        0 < b.spec_text_data().length,
        ({
            let t = b.spec_text_data();
            let s = ctx.runs@[t.run as int].chars@;
            let off = t.offset as int;
            let end = off + t.length;
            &&& advance_sum(s, off, t.length as int) <= w
            &&& (starts_line ==> !range_trimmable(s, off, piece_end(s, off + 1, end) - off))
        }),
    ensures
        b.spec_split_result(ctx, w as int, starts_line) == SplitBoxResult::SplitDidFit(
            Some(b),
            None::<RenderBox>,
        ),
{
    let t = b.spec_text_data();
    let s = ctx.runs@[t.run as int].chars@;
    let off = t.offset as int;
    let len = t.length as int;
    let init = SplitState { i: 0, remaining: w as int, left_offset: off, left_length: 0, right: None };
    lemma_split_loop_all_fit(s, off, off + len, starts_line, init);
    assert(b == RenderBox::TextBox(b.spec_d(), t));
}

/// Law: when the very first indivisible piece of a text window is ordinary
/// content whose advance already exceeds the width, nothing fits: the split
/// returns no left box and the whole box as the forced remainder, with the
/// did-not-fit verdict, whether or not the box starts its line.
pub proof fn lemma_box_split_first_too_wide(
    b: RenderBox,
    ctx: LayoutContext,
    w: i64,
    starts_line: bool,
)
    requires
        b is TextBox,
        b.valid_in(ctx),
        0 < b.spec_text_data().length,
        ({
            let t = b.spec_text_data();
            let s = ctx.runs@[t.run as int].chars@;
            let off = t.offset as int;
            let end = off + t.length;
            let plen = piece_end(s, off + 1, end) - off;
            &&& advance_sum(s, off, plen) > w
            &&& !range_trimmable(s, off, plen)
        }),
    ensures
        b.spec_split_result(ctx, w as int, starts_line) == SplitBoxResult::SplitDidNotFit(
            None::<RenderBox>,
            Some(b),
        ),
{
    let t = b.spec_text_data();
    let s = ctx.runs@[t.run as int].chars@;
    let off = t.offset as int;
    let end = off + t.length;
    lemma_piece_end_bounds(s, off + 1, end);
    assert(b == RenderBox::TextBox(b.spec_d(), t));
}

/// Law (idempotence): whenever a split commits a nonempty left window,
/// re-splitting the resulting left box at the same width, no longer
/// line-initial, yields that identical box on the left and no remainder —
/// nothing further can split off.
pub proof fn lemma_box_resplit_left(b: RenderBox, ctx: LayoutContext, w: i64, starts_line: bool)
    requires
        b is TextBox,
        b.valid_in(ctx),
    ensures
        ({
            let t = b.spec_text_data();
            let s = ctx.runs@[t.run as int].chars@;
            let st = spec_split(s, t.offset as int, t.length as int, w as int, starts_line);
            st.left_length > 0 ==> {
                let lb = RenderBox::TextBox(
                    b.spec_d(),
                    TextBoxData {
                        run: t.run,
                        offset: st.left_offset as usize,
                        length: st.left_length as usize,
                    },
                );
                lb.spec_split_result(ctx, w as int, false) == SplitBoxResult::SplitDidFit(
                    Some(lb),
                    None::<RenderBox>,
                )
            }
        }),
{
    let t = b.spec_text_data();
    let run = ctx.runs@[t.run as int];
    let s = run.chars@;
    let off = t.offset as int;
    let len = t.length as int;
    let init = SplitState { i: 0, remaining: w as int, left_offset: off, left_length: 0, right: None };
    lemma_run_len_bound(run);
    lemma_split_loop_bounds(s, off, off + len, starts_line, init);
    let st = spec_split(s, off, len, w as int, starts_line);
    if st.left_length > 0 {
        lemma_advance_sum_nonneg(s, st.left_offset, st.left_length);
        let init2 = SplitState {
            i: 0,
            remaining: w as int,
            left_offset: st.left_offset,
            left_length: 0,
            right: None,
        };
        lemma_split_loop_all_fit(s, st.left_offset, st.left_offset + st.left_length, false, init2);
    }
}

/// Law (reconstruction): the sub-ranges a split commits, together with the
/// whitespace it discards, exactly tile the original window — leading
/// discarded whitespace, then the left window, then discarded whitespace, then
/// the right window reaching the window's end (or only trailing discarded
/// whitespace when no remainder exists).  Every discarded character is
/// trimmable whitespace.
pub proof fn lemma_split_reconstruction(
    s: Seq<RunChar>,
    off: int,
    len: int,
    w: int,
    starts_line: bool,
)
    requires
        advances_nonneg(s),
        0 <= off,
        0 <= len,
        off + len <= s.len(),
    ensures
        ({
            let st = spec_split(s, off, len, w, starts_line);
            let end = off + len;
            let left_end = st.left_offset + st.left_length;
            &&& off <= st.left_offset
            &&& 0 <= st.left_length
            &&& left_end <= end
            &&& range_trimmable(s, off, st.left_offset - off)
            &&& match st.right {
                Some((ro, rl)) => ro + rl == end && left_end <= ro && range_trimmable(
                    s,
                    left_end,
                    ro - left_end,
                ),
                None => range_trimmable(s, left_end, end - left_end),
            }
        }),
{
    let init = SplitState { i: 0, remaining: w, left_offset: off, left_length: 0, right: None };
    lemma_split_loop_bounds(s, off, off + len, starts_line, init);
}

/// Law: the preferred width of a window holding exactly one embedded hard
/// break is the larger of the two lines' advance sums, never their total.
pub proof fn lemma_pref_width_two_lines(s: Seq<RunChar>, off: int, len: int, k: int)
    requires
        advances_nonneg(s),
        0 <= off <= k < off + len,
        off + len <= s.len(),
        s[k].newline,
        forall|j: int| off <= j < off + len && j != k ==> !s[j].newline,
    ensures
        ({
            let first = advance_sum(s, off, k - off);
            let second = advance_sum(s, k + 1, off + len - (k + 1));
            spec_pref_width(s, off, len) == if first >= second {
                first
            } else {
                second
            }
        }),
{
    let end = off + len;
    let first = advance_sum(s, off, k - off);
    let second = advance_sum(s, k + 1, end - (k + 1));
    lemma_advance_sum_nonneg(s, off, k - off);
    lemma_advance_sum_nonneg(s, k + 1, end - (k + 1));
    lemma_pref_rec_advance_to(s, off, k, end, 0, 0);
    assert(pref_width_rec(s, k, end, first, 0) == pref_width_rec(
        s,
        k + 1,
        end,
        0,
        if first > 0 {
            first
        } else {
            0
        },
    ));
    lemma_pref_rec_no_newline(s, k + 1, end, 0, if first > 0 { first } else { 0 });
}

/// Walking characters without a hard break only accumulates their advances.
proof fn lemma_pref_rec_advance_to(s: Seq<RunChar>, i: int, k: int, end: int, cur: int, best: int)
    requires
        i <= k <= end,
        forall|j: int| i <= j < k ==> !s[j].newline,
    ensures
        pref_width_rec(s, i, end, cur, best) == pref_width_rec(
            s,
            k,
            end,
            cur + advance_sum(s, i, k - i),
            best,
        ),
    decreases k - i,
{
    if i < k {
        lemma_pref_rec_advance_to(s, i + 1, k, end, cur + s[i].advance, best);
    }
}

/// A stretch without hard breaks contributes one candidate line: the open
/// line's advance plus everything remaining.
proof fn lemma_pref_rec_no_newline(s: Seq<RunChar>, i: int, end: int, cur: int, best: int)
    requires
        i <= end,
        forall|j: int| i <= j < end ==> !s[j].newline,
    ensures
        pref_width_rec(s, i, end, cur, best) == ({
            let line = cur + advance_sum(s, i, end - i);
            if line > best {
                line
            } else {
                best
            }
        }),
    decreases end - i,
{
    if i < end {
        lemma_pref_rec_no_newline(s, i + 1, end, cur + s[i].advance, best);
    }
}

/// Law: for generic and text boxes the content, border and margin edges all
/// coincide with the stored position — the box-model pass-through.
pub proof fn lemma_box_edges_coincide(b: RenderBox)
    requires
        b is GenericBox || b is TextBox,
    ensures
        b.spec_content_box() == b.spec_d().position,
{
}

/// Law (culling): a box whose translated bounds miss the dirty rectangle
/// paints nothing at all — no background and no border either, specified or
/// not.
pub proof fn lemma_culling(b: RenderBox, dirty: Rect, offset: Point)
    requires
        !spec_intersects(spec_translate(b.spec_box_bounds(), offset), dirty),
    ensures
        b.spec_display_items(dirty, offset) == Seq::<DisplayItem>::empty(),
{
}

/// Law (emission order): with a visible background and a specified border, a
/// visible box's output starts with the background fill and ends with the
/// border stroke; whatever stands between is content, never another fill or
/// stroke.
pub proof fn lemma_emission_order(b: RenderBox, dirty: Rect, offset: Point)
    requires
        spec_intersects(spec_translate(b.spec_box_bounds(), offset), dirty),
        b.spec_d().style.background_color matches BackgroundColor::BgSpecified(c) && c.alpha != 0,
        b.spec_d().style.border_width is Some,
    ensures
        ({
            let items = b.spec_display_items(dirty, offset);
            &&& 2 <= items.len() <= 3
            &&& items[0] is SolidColor
            &&& items[items.len() - 1] is Border
            &&& forall|j: int|
                0 < j < items.len() - 1 ==> !(items[j] is SolidColor) && !(items[j] is Border)
        }),
{
    let abs = spec_translate(b.spec_box_bounds(), offset);
    let items = b.spec_display_items(dirty, offset);
    let bg = b.spec_bg_items(abs);
    let content = b.spec_content_items(abs);
    let border = b.spec_border_items(abs);
    assert(bg.len() == 1);
    assert(border.len() == 1);
    assert(content.len() <= 1);
    assert(items == bg + content + border);
    assert(items[0] == bg[0]);
    assert(items[items.len() - 1] == border[0]);
}

} // verus!
