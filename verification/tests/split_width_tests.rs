use render_box::boxes::RenderBox;
use render_box::image::ImageHolder;
use render_box::image::PixelSize;
use render_box::boxes::RenderBoxData;
use render_box::boxes::SplitBoxResult;
use render_box::boxes::TextBoxData;
use render_box::context::LayoutContext;
use render_box::style::BackgroundColor;
use render_box::style::ComputedStyle;
use render_box::style::CssPosition;
use render_box::text_run::RunChar;
use render_box::text_run::TextRun;

fn ch(advance: i64, trimmable: bool, newline: bool, piece_start: bool) -> RunChar {
    RunChar { advance, trimmable, newline, piece_start }
}

fn plain_style() -> ComputedStyle {
    ComputedStyle {
        position: CssPosition::PosStatic,
        left: None,
        top: None,
        background_color: BackgroundColor::BgUnspecified,
        border_width: None,
        border_color: None,
    }
}

fn ctx_of(chars: Vec<RunChar>) -> LayoutContext {
    LayoutContext { runs: vec![TextRun { chars }] }
}

fn text_box(id: i64, run: usize, offset: usize, length: usize) -> RenderBox {
    let d = RenderBoxData(1, 1, id, plain_style());
    RenderBox::TextBox(d, TextBoxData { run, offset, length })
}

fn expect_text(b: &RenderBox) -> (usize, usize, usize) {
    match b {
        RenderBox::TextBox(_, t) => (t.run, t.offset, t.length),
        _ => panic!("expected a text box"),
    }
}

// Leading trimmable whitespace on a line-initial box is skipped without
// consuming width: the left box starts right after it and the rest still fits.
#[test]
fn split_skips_leading_whitespace() {
    // two whitespace characters forming one piece, then the piece "ab"
    let ctx = ctx_of(vec![
        ch(5, true, false, true),
        ch(5, true, false, false),
        ch(10, false, false, true),
        ch(10, false, false, false),
    ]);
    let b = text_box(1, 0, 0, 4);
    match b.split_to_width(&ctx, 25, true) {
        SplitBoxResult::SplitDidFit(Some(left), None) => {
            assert_eq!(expect_text(&left), (0, 2, 2));
        }
        _ => panic!("expected a fit with only a left box"),
    }
    // the whitespace advance (10) was not deducted: 20 <= 25 still fits even
    // though 10 + 20 > 25
}

// When every indivisible piece fits within the width, the whole box comes
// back on the left and there is no remainder.
#[test]
fn split_everything_fits() {
    let ctx = ctx_of(vec![
        ch(10, false, false, true),
        ch(10, false, false, false),
        ch(10, false, false, true),
    ]);
    let b = text_box(1, 0, 0, 3);
    match b.split_to_width(&ctx, 30, false) {
        SplitBoxResult::SplitDidFit(Some(left), None) => {
            assert_eq!(expect_text(&left), (0, 0, 3));
        }
        _ => panic!("expected a fit with only a left box"),
    }
}

// When the very first piece already exceeds the width, nothing fits: no left
// box, and the whole range is the forced remainder.
#[test]
fn split_first_piece_too_wide() {
    let ctx = ctx_of(vec![
        ch(30, false, false, true),
        ch(30, false, false, false),
    ]);
    let b = text_box(1, 0, 0, 2);
    match b.split_to_width(&ctx, 10, true) {
        SplitBoxResult::SplitDidNotFit(None, Some(right)) => {
            assert_eq!(expect_text(&right), (0, 0, 2));
        }
        _ => panic!("expected did-not-fit with only a right box"),
    }
}

// Re-splitting the left result of a fit at the same width yields the identical
// box and no further split.
#[test]
fn split_is_idempotent_on_left_result() {
    // pieces: "aa" (20), " " (10), "bb" (40)
    let ctx = ctx_of(vec![
        ch(10, false, false, true),
        ch(10, false, false, false),
        ch(10, true, false, true),
        ch(20, false, false, true),
        ch(20, false, false, false),
    ]);
    let b = text_box(1, 0, 0, 5);
    let left = match b.split_to_width(&ctx, 30, false) {
        SplitBoxResult::SplitDidFit(Some(left), Some(right)) => {
            assert_eq!(expect_text(&right), (0, 3, 2));
            left
        }
        _ => panic!("expected a fit with both sides"),
    };
    let (run, off, len) = expect_text(&left);
    assert_eq!((run, off, len), (0, 0, 3));
    match left.split_to_width(&ctx, 30, false) {
        SplitBoxResult::SplitDidFit(Some(again), None) => {
            assert_eq!(expect_text(&again), (run, off, len));
        }
        _ => panic!("expected the identical box back"),
    }
}

// Trailing trimmable whitespace at the exact end of the range that does not
// fit is trimmed and produces no right chunk at all.
#[test]
fn split_trailing_whitespace_trimmed() {
    let ctx = ctx_of(vec![
        ch(10, false, false, true),
        ch(10, false, false, false),
        ch(30, true, false, true),
    ]);
    let b = text_box(1, 0, 0, 3);
    match b.split_to_width(&ctx, 25, false) {
        SplitBoxResult::SplitDidFit(Some(left), None) => {
            assert_eq!(expect_text(&left), (0, 0, 2));
        }
        _ => panic!("expected a fit with the whitespace trimmed"),
    }
}

// Trimmable whitespace that does not fit, with content after it, starts the
// right chunk at the piece after the whitespace.
#[test]
fn split_break_at_whitespace_starts_right_after_it() {
    // pieces: "ab" (20), " " (10), "cd" (20)
    let ctx = ctx_of(vec![
        ch(10, false, false, true),
        ch(10, false, false, false),
        ch(10, true, false, true),
        ch(10, false, false, true),
        ch(10, false, false, false),
    ]);
    let b = text_box(1, 0, 0, 5);
    match b.split_to_width(&ctx, 25, false) {
        SplitBoxResult::SplitDidFit(Some(left), Some(right)) => {
            assert_eq!(expect_text(&left), (0, 0, 2));
            assert_eq!(expect_text(&right), (0, 3, 2));
        }
        _ => panic!("expected a fit with both sides"),
    }
}

// A box that is not text cannot split and is returned unchanged.
#[test]
fn split_non_text_cannot_split() {
    let ctx = ctx_of(vec![]);
    let b = RenderBox::GenericBox(RenderBoxData(1, 1, 7, plain_style()));
    match b.split_to_width(&ctx, 100, false) {
        SplitBoxResult::CannotSplit(RenderBox::GenericBox(d)) => assert_eq!(d.id, 7),
        _ => panic!("expected cannot-split with the box unchanged"),
    }
}

// Minimum width of a text range is the advance of its widest unbreakable piece.
#[test]
fn min_width_is_widest_piece() {
    let ctx = ctx_of(vec![
        ch(10, false, false, true),
        ch(15, false, false, true),
        ch(10, false, false, false),
        ch(15, false, false, true),
    ]);
    let b = text_box(1, 0, 0, 4);
    assert_eq!(b.get_min_width(&ctx), 25);
}

// Preferred width with an embedded hard break is the widest single line's
// advance sum, not the total across lines; the break itself contributes
// nothing.
#[test]
fn pref_width_takes_widest_natural_line() {
    let ctx = ctx_of(vec![
        ch(10, false, false, true),
        ch(20, false, false, false),
        ch(5, true, true, true),
        ch(30, false, false, true),
        ch(1, false, false, false),
    ]);
    let b = text_box(1, 0, 0, 5);
    assert_eq!(b.get_pref_width(&ctx), 31);
}

// A line consisting solely of a newline contributes nothing.
#[test]
fn pref_width_of_lone_newline_is_zero() {
    let ctx = ctx_of(vec![ch(5, true, true, true)]);
    let b = text_box(1, 0, 0, 1);
    assert_eq!(b.get_pref_width(&ctx), 0);
}

// Width queries on non-text variants: generic boxes report zero, an image
// reports its intrinsic pixel width in app units, zero while unknown.
#[test]
fn widths_of_generic_and_image_boxes() {
    let ctx = ctx_of(vec![]);
    let g = RenderBox::GenericBox(RenderBoxData(1, 1, 1, plain_style()));
    assert_eq!(g.get_min_width(&ctx), 0);
    assert_eq!(g.get_pref_width(&ctx), 0);
    let known = ImageHolder {
        intrinsic_size: Some(PixelSize { width: 3, height: 2 }),
        image: None,
    };
    let i = RenderBox::ImageBox(RenderBoxData(1, 1, 2, plain_style()), known);
    assert_eq!(i.get_min_width(&ctx), 180);
    assert_eq!(i.get_pref_width(&ctx), 180);
    let unknown = ImageHolder { intrinsic_size: None, image: None };
    let u = RenderBox::ImageBox(RenderBoxData(1, 1, 3, plain_style()), unknown);
    assert_eq!(u.get_min_width(&ctx), 0);
}

// Run-level metrics: advance sums, whitespace classification, piece search.
#[test]
fn run_metrics_and_classification() {
    let run = TextRun {
        chars: vec![
            ch(10, true, false, true),
            ch(20, false, false, false),
            ch(30, false, false, true),
        ],
    };
    assert_eq!(run.metrics_for_range(0, 3), 60);
    assert_eq!(run.metrics_for_range(1, 2), 50);
    assert_eq!(run.metrics_for_range(0, 0), 0);
    assert!(!run.range_is_trimmable_whitespace(0, 2));
    assert!(run.range_is_trimmable_whitespace(0, 1));
    assert!(run.range_is_trimmable_whitespace(1, 0));
    assert_eq!(run.next_piece_start(1, 3), 2);
    assert_eq!(run.next_piece_start(3, 3), 3);
    assert_eq!(run.len(), 3);
}

// Merging: two unscanned text boxes merge; text boxes of different runs do
// not; text boxes of the same run with disjoint ranges do.
#[test]
fn can_merge_rules() {
    let unscanned_a =
        RenderBox::UnscannedTextBox(RenderBoxData(1, 1, 1, plain_style()), vec![' ', 'x']);
    let unscanned_b =
        RenderBox::UnscannedTextBox(RenderBoxData(1, 1, 2, plain_style()), vec!['y']);
    assert!(unscanned_a.can_merge_with_box(&unscanned_b));

    let t_run0 = text_box(3, 0, 0, 2);
    let t_run1 = text_box(4, 1, 0, 2);
    assert!(!t_run0.can_merge_with_box(&t_run1));

    let t_run0_tail = text_box(5, 0, 2, 3);
    assert!(t_run0.can_merge_with_box(&t_run0_tail));

    assert!(!t_run0.can_merge_with_box(&unscanned_a));
}

// Variant predicates and the whitespace-only test on raw text.
#[test]
fn predicates_by_variant() {
    let g = RenderBox::GenericBox(RenderBoxData(1, 1, 1, plain_style()));
    let i = RenderBox::ImageBox(
        RenderBoxData(1, 1, 2, plain_style()),
        ImageHolder { intrinsic_size: None, image: None },
    );
    let t = text_box(3, 0, 0, 1);
    let ws = RenderBox::UnscannedTextBox(
        RenderBoxData(1, 1, 4, plain_style()),
        vec![' ', '\t', '\n', '\r'],
    );
    let nonws =
        RenderBox::UnscannedTextBox(RenderBoxData(1, 1, 5, plain_style()), vec![' ', 'a']);
    assert!(i.is_replaced() && !g.is_replaced() && !t.is_replaced());
    assert!(t.can_split() && !g.can_split() && !i.can_split());
    assert!(ws.is_whitespace_only());
    assert!(!nonws.is_whitespace_only());
    assert!(!g.is_whitespace_only());
    assert!(!g.requires_inline_spacers());
    assert_eq!(g.get_used_width(), (0, 0));
    assert_eq!(g.get_used_height(), (0, 0));
    assert_eq!(g.debug_str(), "GenericBox");
    assert_eq!(t.debug_str(), "TextBox");
}
