//! Render boxes: the leaves of the layout tree.  A box cannot position itself;
//! the owning flow writes its `position` between passes.  Four variants exist:
//! a generic box contributing only decoration, an image box, a text box
//! holding a window of a shared shaped run, and raw unscanned text, which must
//! be eliminated by shaping before measurement, splitting or paint run — those
//! operations exclude it by precondition.

use crate::context::LayoutContext;
use crate::display_list::DisplayItem;
use crate::display_list::DisplayList;
use crate::geometry::from_px;
use crate::geometry::point_in_bounds;
use crate::geometry::rect_in_bounds;
use crate::geometry::rect_within;
use crate::geometry::spec_intersects;
use crate::geometry::spec_translate;
use crate::geometry::zero_rect;
use crate::geometry::Point;
use crate::geometry::Rect;
use crate::geometry::Size;
use crate::geometry::AU_PER_PX;
use crate::geometry::MAX_AU;
use crate::image::ImageHolder;
use crate::split::spec_split;
use crate::split::split_loop;
use crate::split::SplitState;
use crate::style::rgb;
use crate::style::rgba;
use crate::style::style_in_bounds;
use crate::style::BackgroundColor;
use crate::style::Color;
use crate::style::ComputedStyle;
use crate::style::CssPosition;
use crate::text_run::spec_min_width;
use crate::text_run::spec_pref_width;
use vstd::pervasive::unreached;
use vstd::prelude::*;

verus! {

/// The state every box variant shares.
#[derive(Clone, Copy, Debug)]
pub struct RenderBoxData {
    /// Originating content-tree node, as an opaque handle.
    pub node: u64,
    /// Owning flow context, as an opaque handle; the flow owns and positions
    /// the box, the box never mutates the flow.
    pub ctx: u64,
    /// Position relative to the owning flow, written by the flow engine.
    pub position: Rect,
    /// Nominal font size, in app units.
    pub font_size: i64,
    /// Debug-only identifier; distinct boxes carry distinct identifiers.
    pub id: i64,
    /// The resolved style of the originating node that painting reads.
    pub style: ComputedStyle,
}

/// Fresh shared state for a new box: zero position and font size.
#[allow(non_snake_case)]
pub fn RenderBoxData(node: u64, ctx: u64, id: i64, style: ComputedStyle) -> (d: RenderBoxData)
    ensures
        d.node == node,
        d.ctx == ctx,
        d.id == id,
        d.style == style,
        d.position == (Rect { origin: Point { x: 0, y: 0 }, size: Size { width: 0, height: 0 } }),
        d.font_size == 0,
{
    RenderBoxData { node, ctx, position: zero_rect(), font_size: 0, id, style }
}

/// A text box's window into a shared run: the run handle (an index into the
/// layout context's run storage; handle equality is run identity) and the
/// `(offset, length)` character range.
#[derive(Clone, Copy, PartialEq, Eq, Structural, Debug)]
pub struct TextBoxData {
    pub run: usize,
    pub offset: usize,
    pub length: usize,
}

/// A render box: the smallest paintable, measurable unit of layout content.
#[derive(Debug)]
pub enum RenderBox {
    GenericBox(RenderBoxData),
    ImageBox(RenderBoxData, ImageHolder),
    TextBox(RenderBoxData, TextBoxData),
    UnscannedTextBox(RenderBoxData, Vec<char>),
}

/// The outcome of a splitting attempt.  Either side of a split may be absent:
/// the left when only trimmed leading whitespace preceded the break, the right
/// when everything (possibly after trailing trimming) fit.
#[derive(Debug)]
pub enum SplitBoxResult {
    CannotSplit(RenderBox),
    SplitDidFit(Option<RenderBox>, Option<RenderBox>),
    SplitDidNotFit(Option<RenderBox>, Option<RenderBox>),
}

/// Which side of a box an inline spacer would stand on.
#[derive(Clone, Copy, PartialEq, Eq, Structural, Debug)]
pub enum InlineSpacerSide {
    LogicalBefore,
    LogicalAfter,
}

/// A whitespace character, as raw unscanned text classifies it.
pub open spec fn is_whitespace_char(c: char) -> bool {
    c == ' ' || c == '\t' || c == '\n' || c == '\r'
}

/// Every character of the sequence is whitespace.
pub open spec fn raw_all_whitespace(s: Seq<char>) -> bool {
    forall|i: int| 0 <= i < s.len() ==> is_whitespace_char(s[i])
}

/// Two distinct boxes may merge when both are unscanned text, or both are
/// text windows of the same run (run identity, not content equality).
pub open spec fn spec_can_merge(a: RenderBox, b: RenderBox) -> bool {
    ||| (a is UnscannedTextBox && b is UnscannedTextBox)
    ||| {
        &&& a matches RenderBox::TextBox(_, t1)
        &&& b matches RenderBox::TextBox(_, t2)
        &&& t1.run == t2.run
    }
}

impl RenderBox {
    /// The shared per-box state.
    pub open spec fn spec_d(self) -> RenderBoxData {
        match self {
            RenderBox::GenericBox(d) => d,
            RenderBox::ImageBox(d, _) => d,
            RenderBox::TextBox(d, _) => d,
            RenderBox::UnscannedTextBox(d, _) => d,
        }
    }

    pub open spec fn is_unscanned(self) -> bool {
        self is UnscannedTextBox
    }

    /// The text window of a text box.
    pub open spec fn spec_text_data(self) -> TextBoxData
        recommends
            self is TextBox,
    {
        match self {
            RenderBox::TextBox(_, t) => t,
            _ => arbitrary(),
        }
    }

    /// A text box's window lies within a well-formed run of the context.
    pub open spec fn valid_in(self, ctx: LayoutContext) -> bool {
        self matches RenderBox::TextBox(_, t) ==> {
            &&& (t.run as int) < ctx.runs@.len()
            &&& ctx.runs@[t.run as int].wf()
            &&& t.offset + t.length <= ctx.runs@[t.run as int].chars@.len()
        }
    }

    /// Geometry and style within machine bounds.
    pub open spec fn wf(self) -> bool {
        &&& rect_in_bounds(self.spec_d().position)
        &&& style_in_bounds(self.spec_d().style)
        &&& (self matches RenderBox::ImageBox(_, h) ==> h.wf())
    }

    /// The shared state record of any variant.
    pub fn d(&self) -> (r: &RenderBoxData)
        ensures
            *r == self.spec_d(),
    {
        match self {
            RenderBox::GenericBox(d) => d,
            RenderBox::ImageBox(d, _) => d,
            RenderBox::TextBox(d, _) => d,
            RenderBox::UnscannedTextBox(d, _) => d,
        }
    }

    /// Only replaced content (an image) is sized from outside the flow.
    pub fn is_replaced(&self) -> (r: bool)
        ensures
            r == (self is ImageBox),
    {
        match self {
            RenderBox::ImageBox(..) => true,
            _ => false,
        }
    }

    /// Only a text box can be split across lines.
    pub fn can_split(&self) -> (r: bool)
        ensures
            r == (self is TextBox),
    {
        match self {
            RenderBox::TextBox(..) => true,
            _ => false,
        }
    }

    /// Raw, unscanned text consisting of whitespace alone.
    pub open spec fn spec_is_whitespace_only(self) -> bool {
        match self {
            RenderBox::UnscannedTextBox(_, raw) => raw_all_whitespace(raw@),
            _ => false,
        }
    }

    /// Whether the box is raw, unscanned text consisting of whitespace alone;
    /// read by the external inline coalescer.
    pub fn is_whitespace_only(&self) -> (r: bool)
        ensures
            r == self.spec_is_whitespace_only(),
    {
        match self {
            RenderBox::UnscannedTextBox(_, raw) => {
                let n = raw.len();
                let mut i: usize = 0;
                while i < n
                    invariant
                        n == raw@.len(),
                        i <= n,
                        self.spec_is_whitespace_only() == raw_all_whitespace(raw@),
                        forall|j: int| 0 <= j < i ==> is_whitespace_char(raw@[j]),
                    decreases n - i,
                {
                    let c = raw[i];
                    if !(c == ' ' || c == '\t' || c == '\n' || c == '\r') {
                        proof {
                            assert(!is_whitespace_char(raw@[i as int]));
                            assert(!raw_all_whitespace(raw@));
                        }
                        return false;
                    }
                    i = i + 1;
                }
                true
            },
            _ => false,
        }
    }

    /// Whether the inline coalescer may merge this box with `other`.  Asking
    /// about a box and itself is a caller contract breach; distinct boxes
    /// carry distinct debug identifiers, which the precondition demands.
    pub fn can_merge_with_box(&self, other: &RenderBox) -> (r: bool)
        requires
            self.spec_d().id != other.spec_d().id,
        ensures
            r == spec_can_merge(*self, *other),
    {
        match (self, other) {
            (RenderBox::UnscannedTextBox(..), RenderBox::UnscannedTextBox(..)) => true,
            (RenderBox::TextBox(_, t1), RenderBox::TextBox(_, t2)) => t1.run == t2.run,
            _ => false,
        }
    }

    /// Minimum content width, per variant.
    pub open spec fn spec_min_width_of(self, ctx: LayoutContext) -> int {
        match self {
            RenderBox::GenericBox(_) => 0,
            RenderBox::ImageBox(_, h) => h.spec_size().width * AU_PER_PX,
            RenderBox::TextBox(_, t) => spec_min_width(
                ctx.runs@[t.run as int].chars@,
                t.offset as int,
                t.length as int,
            ),
            RenderBox::UnscannedTextBox(..) => 0,
        }
    }

    /// Preferred content width, per variant.
    pub open spec fn spec_pref_width_of(self, ctx: LayoutContext) -> int {
        match self {
            RenderBox::GenericBox(_) => 0,
            RenderBox::ImageBox(_, h) => h.spec_size().width * AU_PER_PX,
            RenderBox::TextBox(_, t) => spec_pref_width(
                ctx.runs@[t.run as int].chars@,
                t.offset as int,
                t.length as int,
            ),
            RenderBox::UnscannedTextBox(..) => 0,
        }
    }

    /// Minimum content width: zero for a decoration-only box, intrinsic pixel
    /// width in app units for an image (zero while unknown), the widest
    /// unbreakable piece for text.
    pub fn get_min_width(&self, ctx: &LayoutContext) -> (r: i64)
        requires
            !self.is_unscanned(),
            self.wf(),
            self.valid_in(*ctx),
        ensures
            r == self.spec_min_width_of(*ctx),
    {
        match self {
            RenderBox::GenericBox(_) => 0,
            RenderBox::ImageBox(_, holder) => from_px(holder.size().width),
            RenderBox::TextBox(_, t) => ctx.run(t.run).min_width_for_range(t.offset, t.length),
            RenderBox::UnscannedTextBox(..) => unreached(),
        }
    }

    /// Preferred content width: for text, the width when wrapped only at its
    /// own hard line breaks — the widest natural line, an empty line
    /// contributing nothing.
    pub fn get_pref_width(&self, ctx: &LayoutContext) -> (r: i64)
        requires
            !self.is_unscanned(),
            self.wf(),
            self.valid_in(*ctx),
        ensures
            r == self.spec_pref_width_of(*ctx),
    {
        match self {
            RenderBox::GenericBox(_) => 0,
            RenderBox::ImageBox(_, holder) => from_px(holder.size().width),
            RenderBox::TextBox(_, t) => ctx.run(t.run).pref_width_for_range(t.offset, t.length),
            RenderBox::UnscannedTextBox(..) => unreached(),
        }
    }

    /// Left and right fringe consumed by margin, border and padding: a stub
    /// returning zero, an explicit extension point pending box-model math.
    pub fn get_used_width(&self) -> (r: (i64, i64))
        ensures
            r == (0i64, 0i64),
    {
        (0, 0)
    }

    /// Top and bottom fringe consumed by margin, border and padding: a stub
    /// returning zero, an explicit extension point pending box-model math.
    pub fn get_used_height(&self) -> (r: (i64, i64))
        ensures
            r == (0i64, 0i64),
    {
        (0, 0)
    }

    /// Whether spacer boxes must stand in for this box's node: never, today.
    pub fn requires_inline_spacers(&self) -> (r: bool)
        ensures
            r == false,
    {
        false
    }

    /// Spacer generation is a stub: no spacer is produced yet.
    pub fn create_inline_spacer_for_side(
        &self,
        _ctx: &LayoutContext,
        _side: InlineSpacerSide,
    ) -> (r: Option<RenderBox>)
        ensures
            r is None,
    {
        None
    }

    /// The content-edge rectangle, relative to the owning flow: an image takes
    /// its intrinsic size in app units (zero while unknown); a generic or text
    /// box passes its stored position through unchanged — padding, border and
    /// margin subtraction is an explicit, documented stub.
    pub open spec fn spec_content_box(self) -> Rect {
        match self {
            RenderBox::ImageBox(d, h) => Rect {
                origin: d.position.origin,
                size: Size {
                    width: (h.spec_size().width * AU_PER_PX) as i64,
                    height: (h.spec_size().height * AU_PER_PX) as i64,
                },
            },
            _ => self.spec_d().position,
        }
    }

    /// The content-edge rectangle of this box.
    pub fn content_box(&self) -> (r: Rect)
        requires
            !self.is_unscanned(),
            self.wf(),
        ensures
            r == self.spec_content_box(),
    {
        match self {
            RenderBox::ImageBox(d, holder) => {
                let size = holder.size();
                Rect {
                    origin: d.position.origin,
                    size: Size { width: from_px(size.width), height: from_px(size.height) },
                }
            },
            RenderBox::GenericBox(d) => d.position,
            RenderBox::TextBox(d, _) => d.position,
            RenderBox::UnscannedTextBox(..) => unreached(),
        }
    }

    /// The border-edge rectangle: the content box unchanged, pending real
    /// padding and border expansion (intentional scope limit, kept for
    /// compatibility).
    pub fn border_box(&self) -> (r: Rect)
        requires
            !self.is_unscanned(),
            self.wf(),
        ensures
            r == self.spec_content_box(),
    {
        self.content_box()
    }

    /// The margin-edge rectangle: the content box unchanged, pending real
    /// padding, border and margin expansion (intentional scope limit).
    pub fn margin_box(&self) -> (r: Rect)
        requires
            !self.is_unscanned(),
            self.wf(),
        ensures
            r == self.spec_content_box(),
    {
        self.content_box()
    }

    /// A short, human-readable tag for the box's variant, for debug dumps.
    pub fn debug_str(&self) -> (r: &'static str)
        ensures
            self is GenericBox ==> r@ == "GenericBox"@,
            self is ImageBox ==> r@ == "ImageBox"@,
            self is TextBox ==> r@ == "TextBox"@,
            self is UnscannedTextBox ==> r@ == "UnscannedTextBox"@,
    {
        match self {
            RenderBox::GenericBox(_) => "GenericBox",
            RenderBox::ImageBox(..) => "ImageBox",
            RenderBox::TextBox(..) => "TextBox",
            RenderBox::UnscannedTextBox(..) => "UnscannedTextBox",
        }
    }

    /// The split of this text box's window at `max_width`, as a value: the
    /// committed left window, the forced remainder, and the fit verdict.  The
    /// verdict is `SplitDidNotFit` exactly when a remainder exists and either
    /// only one piece was ever examined or nothing survived into the left.
    pub open spec fn spec_split_result(
        self,
        ctx: LayoutContext,
        max_width: int,
        starts_line: bool,
    ) -> SplitBoxResult
        recommends
            self is TextBox,
    {
        let d = self.spec_d();
        let t = self.spec_text_data();
        let s = ctx.runs@[t.run as int].chars@;
        let st = spec_split(s, t.offset as int, t.length as int, max_width, starts_line);
        let left = if st.left_length > 0 {
            Some(
                RenderBox::TextBox(
                    d,
                    TextBoxData {
                        run: t.run,
                        offset: st.left_offset as usize,
                        length: st.left_length as usize,
                    },
                ),
            )
        } else {
            None::<RenderBox>
        };
        match st.right {
            Some((ro, rl)) => {
                let right = Some(
                    RenderBox::TextBox(
                        d,
                        TextBoxData { run: t.run, offset: ro as usize, length: rl as usize },
                    ),
                );
                if st.i == 1 || st.left_length == 0 {
                    SplitBoxResult::SplitDidNotFit(left, right)
                } else {
                    SplitBoxResult::SplitDidFit(left, right)
                }
            },
            None => SplitBoxResult::SplitDidFit(left, None),
        }
    }

    /// Split the box's content to a target width by a single greedy pass over
    /// its indivisible pieces, trimming leading whitespace on a line-initial
    /// box and trailing whitespace at a break.  New boxes share the original
    /// run; a non-text box cannot split and is returned unchanged.
    pub fn split_to_width(
        self,
        ctx: &LayoutContext,
        max_width: i64,
        starts_line: bool,
    ) -> (result: SplitBoxResult)
        requires
            !self.is_unscanned(),
            self.valid_in(*ctx),
        ensures
            !(self is TextBox) ==> result == SplitBoxResult::CannotSplit(self),
            self is TextBox ==> result == self.spec_split_result(
                *ctx,
                max_width as int,
                starts_line,
            ),
    {
        match self {
            RenderBox::TextBox(d, t) => {
                let run = ctx.run(t.run);
                let ghost s = run.chars@;
                let n: usize = run.len();
                let range_end: usize = t.offset + t.length;
                let ghost goal = spec_split(
                    s,
                    t.offset as int,
                    t.length as int,
                    max_width as int,
                    starts_line,
                );
                let mut i: usize = 0;
                let mut remaining_width: i64 = max_width;
                let mut left_offset: usize = t.offset;
                let mut left_length: usize = 0;
                let mut right: Option<(usize, usize)> = None;
                let mut cur: usize = t.offset;
                while cur < range_end
                    invariant_except_break
                        run == ctx.runs@[t.run as int],
                        run.wf(),
                        s == run.chars@,
                        n == s.len(),
                        range_end == t.offset + t.length,
                        range_end <= n,
                        t.offset <= cur <= range_end,
                        t.offset <= left_offset,
                        left_offset + left_length == cur,
                        i <= cur - t.offset,
                        i == 0 ==> left_length == 0,
                        right is None,
                        goal == split_loop(
                            s,
                            cur as int,
                            range_end as int,
                            starts_line,
                            SplitState {
                                i: i as int,
                                remaining: remaining_width as int,
                                left_offset: left_offset as int,
                                left_length: left_length as int,
                                right: None,
                            },
                        ),
                    ensures
                        t.offset <= left_offset,
                        left_offset + left_length <= range_end,
                        goal == (SplitState {
                            i: i as int,
                            remaining: remaining_width as int,
                            left_offset: left_offset as int,
                            left_length: left_length as int,
                            right: match right {
                                Some((a, b)) => Some((a as int, b as int)),
                                None => None,
                            },
                        }),
                    decreases range_end - cur,
                {
                    let pend = run.next_piece_start(cur + 1, range_end);
                    let advance = run.metrics_for_range(cur, pend - cur);
                    if advance <= remaining_width {
                        if starts_line && i == 0 && run.range_is_trimmable_whitespace(
                            cur,
                            pend - cur,
                        ) {
                            left_offset = left_offset + (pend - cur);
                        } else {
                            remaining_width = remaining_width - advance;
                            left_length = left_length + (pend - cur);
                        }
                        i = i + 1;
                        cur = pend;
                    } else {
                        if run.range_is_trimmable_whitespace(cur, pend - cur) {
                            if pend < range_end {
                                right = Some((pend, range_end - pend));
                            }
                        } else {
                            right = Some((cur, range_end - cur));
                        }
                        i = i + 1;
                        break ;
                    }
                }
                let left_box: Option<RenderBox> = if left_length > 0 {
                    Some(
                        RenderBox::TextBox(
                            d,
                            TextBoxData { run: t.run, offset: left_offset, length: left_length },
                        ),
                    )
                } else {
                    None
                };
                match right {
                    Some((right_off, right_len)) => {
                        let right_box = RenderBox::TextBox(
                            d,
                            TextBoxData { run: t.run, offset: right_off, length: right_len },
                        );
                        if i == 1 || left_length == 0 {
                            SplitBoxResult::SplitDidNotFit(left_box, Some(right_box))
                        } else {
                            SplitBoxResult::SplitDidFit(left_box, Some(right_box))
                        }
                    },
                    None => SplitBoxResult::SplitDidFit(left_box, None),
                }
            },
            other => SplitBoxResult::CannotSplit(other),
        }
    }

    /// The local rectangle painting uses: absolute positioning overrides the
    /// origin with the style's left/top when specified, keeping the stored
    /// size; otherwise the stored position is used unchanged.
    pub open spec fn spec_box_bounds(self) -> Rect {
        let d = self.spec_d();
        if d.style.position is PosAbsolute {
            Rect {
                origin: Point {
                    x: match d.style.left {
                        Some(x) => x,
                        None => d.position.origin.x,
                    },
                    y: match d.style.top {
                        Some(y) => y,
                        None => d.position.origin.y,
                    },
                },
                size: d.position.size,
            }
        } else {
            d.position
        }
    }

    /// Background fill: emitted when a background color is specified and its
    /// alpha is not zero; transparent and unset backgrounds paint nothing.
    pub open spec fn spec_bg_items(self, abs: Rect) -> Seq<DisplayItem> {
        match self.spec_d().style.background_color {
            BackgroundColor::BgSpecified(c) => if c.alpha != 0 {
                seq![DisplayItem::SolidColor(abs, c.red, c.green, c.blue)]
            } else {
                Seq::empty()
            },
            _ => Seq::empty(),
        }
    }

    /// Content primitive by variant: a text window; nothing for a generic box;
    /// an image blit only once decoded pixel data is available — no fallback
    /// placeholder is drawn while it is not (a documented gap).
    pub open spec fn spec_content_items(self, abs: Rect) -> Seq<DisplayItem> {
        match self {
            RenderBox::TextBox(_, t) => seq![DisplayItem::Text(abs, t.run, t.offset, t.length)],
            RenderBox::GenericBox(_) => Seq::empty(),
            RenderBox::ImageBox(_, h) => match h.image {
                Some(handle) => seq![DisplayItem::Image(abs, handle)],
                None => Seq::empty(),
            },
            RenderBox::UnscannedTextBox(..) => Seq::empty(),
        }
    }

    /// Border stroke, when a border width is specified: the bounds grown
    /// outward by half the width on each side, colored with the specified
    /// border color or black.
    pub open spec fn spec_border_items(self, abs: Rect) -> Seq<DisplayItem> {
        let style = self.spec_d().style;
        match style.border_width {
            Some(bw) => {
                let expanded = Rect {
                    origin: Point {
                        x: (abs.origin.x - bw / 2) as i64,
                        y: (abs.origin.y - bw / 2) as i64,
                    },
                    size: Size {
                        width: (abs.size.width + bw) as i64,
                        height: (abs.size.height + bw) as i64,
                    },
                };
                let c = match style.border_color {
                    Some(c) => c,
                    None => Color { red: 0, green: 0, blue: 0, alpha: 255 },
                };
                seq![DisplayItem::Border(expanded, bw, c.red, c.green, c.blue)]
            },
            None => Seq::empty(),
        }
    }

    /// Everything this box paints: nothing when its absolute bounds miss the
    /// dirty rectangle; otherwise background, content and border, in that
    /// order.
    pub open spec fn spec_display_items(self, dirty: Rect, offset: Point) -> Seq<DisplayItem> {
        let abs = spec_translate(self.spec_box_bounds(), offset);
        if !spec_intersects(abs, dirty) {
            Seq::empty()
        } else {
            self.spec_bg_items(abs) + self.spec_content_items(abs) + self.spec_border_items(abs)
        }
    }

    /// Append the background fill this box paints at `abs_bounds`, if any.
    pub fn add_bgcolor_to_list(&self, list: &mut DisplayList, abs_bounds: &Rect)
        ensures
            final(list).list@ == old(list).list@ + self.spec_bg_items(*abs_bounds),
    {
        let d = self.d();
        let bgcolor = match d.style.background_color {
            BackgroundColor::BgSpecified(c) => c,
            _ => rgba(0, 0, 0, 0),
        };
        if bgcolor.alpha != 0 {
            list.append_item(
                DisplayItem::SolidColor(*abs_bounds, bgcolor.red, bgcolor.green, bgcolor.blue),
            );
        }
        proof {
            assert(list.list@ =~= old(list).list@ + self.spec_bg_items(*abs_bounds));
        }
    }

    /// Append the border stroke this box paints around `abs_bounds`, if any.
    pub fn add_border_to_list(&self, list: &mut DisplayList, abs_bounds: Rect)
        requires
            style_in_bounds(self.spec_d().style),
            rect_within(abs_bounds, 2 * MAX_AU as int),
        ensures
            final(list).list@ == old(list).list@ + self.spec_border_items(abs_bounds),
    {
        let d = self.d();
        match d.style.border_width {
            Some(border_width) => {
                let expanded = Rect {
                    origin: Point {
                        x: abs_bounds.origin.x - border_width / 2,
                        y: abs_bounds.origin.y - border_width / 2,
                    },
                    size: Size {
                        width: abs_bounds.size.width + border_width,
                        height: abs_bounds.size.height + border_width,
                    },
                };
                let color = match d.style.border_color {
                    Some(c) => c,
                    None => rgb(0, 0, 0),
                };
                list.append_item(
                    DisplayItem::Border(expanded, border_width, color.red, color.green, color.blue),
                );
            },
            None => {},
        }
        proof {
            assert(list.list@ =~= old(list).list@ + self.spec_border_items(abs_bounds));
        }
    }

    /// Convert this positioned box into paint primitives appended to `list`:
    /// resolve the local rectangle, translate by the cumulative offset, cull
    /// against the dirty rectangle before anything is emitted, then emit
    /// background, content by variant, and border, in that order.
    pub fn build_display_list(&self, dirty: &Rect, offset: &Point, list: &mut DisplayList)
        requires
            !self.is_unscanned(),
            self.wf(),
            point_in_bounds(*offset),
            rect_in_bounds(*dirty),
        ensures
            final(list).list@ == old(list).list@ + self.spec_display_items(*dirty, *offset),
    {
        let d = self.d();
        let box_bounds: Rect = match d.style.position {
            CssPosition::PosAbsolute => {
                let x_offset = match d.style.left {
                    Some(x) => x,
                    None => d.position.origin.x,
                };
                let y_offset = match d.style.top {
                    Some(y) => y,
                    None => d.position.origin.y,
                };
                Rect { origin: Point { x: x_offset, y: y_offset }, size: d.position.size }
            },
            CssPosition::PosStatic => d.position,
        };
        let abs_box_bounds = box_bounds.translate(offset);
        if !abs_box_bounds.intersects(dirty) {
            proof {
                assert(list.list@ =~= old(list).list@ + self.spec_display_items(*dirty, *offset));
            }
            return ;
        }
        self.add_bgcolor_to_list(list, &abs_box_bounds);
        match self {
            RenderBox::TextBox(_, t) => {
                list.append_item(DisplayItem::Text(abs_box_bounds, t.run, t.offset, t.length));
            },
            RenderBox::GenericBox(_) => {},
            RenderBox::ImageBox(_, holder) => {
                match holder.get_image() {
                    Some(image) => {
                        list.append_item(DisplayItem::Image(abs_box_bounds, image));
                    },
                    None => {},
                }
            },
            RenderBox::UnscannedTextBox(..) => {
                proof {
                    assert(false);
                }
            },
        }
        self.add_border_to_list(list, abs_box_bounds);
        proof {
            assert(list.list@ =~= old(list).list@ + self.spec_display_items(*dirty, *offset));
        }
    }
}

} // verus!
