use render_box::boxes::InlineSpacerSide;
use render_box::boxes::RenderBox;
use render_box::boxes::RenderBoxData;
use render_box::boxes::TextBoxData;
use render_box::context::LayoutContext;
use render_box::display_list::DisplayItem;
use render_box::display_list::DisplayList;
use render_box::geometry::from_px;
use render_box::geometry::zero_rect;
use render_box::geometry::Point;
use render_box::geometry::Rect;
use render_box::geometry::Size;
use render_box::image::ImageHolder;
use render_box::image::PixelSize;
use render_box::style::rgb;
use render_box::style::rgba;
use render_box::style::BackgroundColor;
use render_box::style::Color;
use render_box::style::ComputedStyle;
use render_box::style::CssPosition;

fn plain_style() -> ComputedStyle {
    ComputedStyle {
        position: CssPosition::PosStatic,
        left: None,
        top: None,
        background_color: BackgroundColor::BgUnspecified,
        border_width: None,
        border_color: None,
    }
}

fn rect(x: i64, y: i64, w: i64, h: i64) -> Rect {
    Rect { origin: Point { x, y }, size: Size { width: w, height: h } }
}

fn positioned(mut d: RenderBoxData, r: Rect) -> RenderBoxData {
    d.position = r;
    d
}

// Content, border and margin boxes are identical for generic and text boxes:
// the stored position passes through unchanged.
#[test]
fn box_edges_coincide_for_generic_and_text() {
    let pos = rect(3, 4, 50, 60);
    let g = RenderBox::GenericBox(positioned(RenderBoxData(1, 1, 1, plain_style()), pos));
    let t = RenderBox::TextBox(
        positioned(RenderBoxData(1, 1, 2, plain_style()), pos),
        TextBoxData { run: 0, offset: 0, length: 0 },
    );
    assert_eq!(g.content_box(), pos);
    assert_eq!(g.border_box(), pos);
    assert_eq!(g.margin_box(), pos);
    assert_eq!(t.content_box(), pos);
    assert_eq!(t.border_box(), pos);
    assert_eq!(t.margin_box(), pos);
}

// An image box's content box combines the stored origin with the intrinsic
// size in app units, falling back to zero size while it is unknown.
#[test]
fn image_content_box_uses_intrinsic_size() {
    let pos = rect(7, 8, 999, 999);
    let known = ImageHolder {
        intrinsic_size: Some(PixelSize { width: 2, height: 3 }),
        image: None,
    };
    let b = RenderBox::ImageBox(positioned(RenderBoxData(1, 1, 1, plain_style()), pos), known);
    assert_eq!(b.content_box(), rect(7, 8, 120, 180));
    let unknown = ImageHolder { intrinsic_size: None, image: None };
    let u = RenderBox::ImageBox(positioned(RenderBoxData(1, 1, 2, plain_style()), pos), unknown);
    assert_eq!(u.content_box(), rect(7, 8, 0, 0));
}

// A box whose absolute bounds miss the dirty rectangle emits nothing at all,
// even though a background and a border are specified.
#[test]
fn culled_box_emits_nothing() {
    let mut style = plain_style();
    style.background_color =
        BackgroundColor::BgSpecified(Color { red: 1, green: 2, blue: 3, alpha: 255 });
    style.border_width = Some(4);
    style.border_color = Some(rgb(9, 9, 9));
    let b = RenderBox::GenericBox(positioned(RenderBoxData(1, 1, 1, style), rect(500, 500, 10, 10)));
    let mut list = DisplayList::new();
    b.build_display_list(&rect(0, 0, 100, 100), &Point { x: 0, y: 0 }, &mut list);
    assert_eq!(list.len(), 0);
}

// With background and border specified, the output holds the background fill
// strictly before the border stroke, content in between, and the border
// bounds are expanded outward by half the border width.
#[test]
fn emission_order_background_content_border() {
    let mut style = plain_style();
    style.background_color =
        BackgroundColor::BgSpecified(Color { red: 10, green: 20, blue: 30, alpha: 255 });
    style.border_width = Some(4);
    style.border_color = Some(rgb(1, 1, 1));
    let b = RenderBox::TextBox(
        positioned(RenderBoxData(1, 1, 1, style), rect(10, 10, 20, 20)),
        TextBoxData { run: 5, offset: 2, length: 3 },
    );
    let mut list = DisplayList::new();
    b.build_display_list(&rect(0, 0, 100, 100), &Point { x: 1, y: 2 }, &mut list);
    assert_eq!(
        list.list,
        vec![
            DisplayItem::SolidColor(rect(11, 12, 20, 20), 10, 20, 30),
            DisplayItem::Text(rect(11, 12, 20, 20), 5, 2, 3),
            DisplayItem::Border(rect(9, 10, 24, 24), 4, 1, 1, 1),
        ]
    );
}

// A border with no specified color strokes in black.
#[test]
fn border_color_falls_back_to_black() {
    let mut style = plain_style();
    style.border_width = Some(2);
    let b = RenderBox::GenericBox(positioned(RenderBoxData(1, 1, 1, style), rect(0, 0, 10, 10)));
    let mut list = DisplayList::new();
    b.build_display_list(&rect(0, 0, 100, 100), &Point { x: 0, y: 0 }, &mut list);
    assert_eq!(
        list.list,
        vec![DisplayItem::Border(rect(-1, -1, 12, 12), 2, 0, 0, 0)]
    );
}

// A specified but fully transparent background paints nothing; a transparent
// or unset background likewise.
#[test]
fn transparent_background_paints_nothing() {
    let mut style = plain_style();
    style.background_color =
        BackgroundColor::BgSpecified(Color { red: 10, green: 20, blue: 30, alpha: 0 });
    let a = RenderBox::GenericBox(positioned(RenderBoxData(1, 1, 1, style), rect(0, 0, 10, 10)));
    let mut style2 = plain_style();
    style2.background_color = BackgroundColor::BgTransparent;
    let b = RenderBox::GenericBox(positioned(RenderBoxData(1, 1, 2, style2), rect(0, 0, 10, 10)));
    let mut list = DisplayList::new();
    a.build_display_list(&rect(0, 0, 100, 100), &Point { x: 0, y: 0 }, &mut list);
    b.build_display_list(&rect(0, 0, 100, 100), &Point { x: 0, y: 0 }, &mut list);
    assert_eq!(list.len(), 0);
}

// An image box whose pixel data is not decoded yet emits no image primitive
// and no fallback placeholder, even though it intersects the dirty rectangle.
#[test]
fn undecoded_image_emits_nothing() {
    let holder = ImageHolder { intrinsic_size: None, image: None };
    let b = RenderBox::ImageBox(
        positioned(RenderBoxData(1, 1, 1, plain_style()), rect(0, 0, 10, 10)),
        holder,
    );
    let mut list = DisplayList::new();
    b.build_display_list(&rect(0, 0, 100, 100), &Point { x: 0, y: 0 }, &mut list);
    assert_eq!(list.len(), 0);
}

// Once pixel data is available, the image primitive carries its shared handle
// at the box's absolute bounds.
#[test]
fn decoded_image_emits_blit() {
    let holder = ImageHolder {
        intrinsic_size: Some(PixelSize { width: 1, height: 1 }),
        image: Some(42),
    };
    let b = RenderBox::ImageBox(
        positioned(RenderBoxData(1, 1, 1, plain_style()), rect(5, 5, 10, 10)),
        holder,
    );
    let mut list = DisplayList::new();
    b.build_display_list(&rect(0, 0, 100, 100), &Point { x: 10, y: 10 }, &mut list);
    assert_eq!(list.list, vec![DisplayItem::Image(rect(15, 15, 10, 10), 42)]);
}

// Absolute positioning overrides the origin with the style's left/top when
// present, keeping the stored size; missing components fall back to the
// stored origin.
#[test]
fn absolute_positioning_overrides_origin() {
    let mut style = plain_style();
    style.position = CssPosition::PosAbsolute;
    style.left = Some(40);
    style.top = None;
    let b = RenderBox::TextBox(
        positioned(RenderBoxData(1, 1, 1, style), rect(10, 20, 30, 30)),
        TextBoxData { run: 0, offset: 0, length: 1 },
    );
    let mut list = DisplayList::new();
    b.build_display_list(&rect(0, 0, 200, 200), &Point { x: 0, y: 0 }, &mut list);
    assert_eq!(list.list, vec![DisplayItem::Text(rect(40, 20, 30, 30), 0, 0, 1)]);
}

// Geometry helpers: translation, intersection, zero rectangle, pixel
// conversion, and the per-box constructor defaults.
#[test]
fn geometry_helpers() {
    let r = rect(1, 2, 10, 10);
    assert_eq!(r.translate(&Point { x: 5, y: 6 }), rect(6, 8, 10, 10));
    assert!(rect(0, 0, 10, 10).intersects(&rect(9, 9, 10, 10)));
    assert!(!rect(0, 0, 10, 10).intersects(&rect(10, 0, 10, 10)));
    assert!(!rect(0, 0, 0, 0).intersects(&rect(0, 0, 10, 10)));
    assert_eq!(zero_rect(), rect(0, 0, 0, 0));
    assert_eq!(from_px(3), 180);
    let d = RenderBoxData(11, 22, 33, plain_style());
    assert_eq!(d.position, zero_rect());
    assert_eq!(d.font_size, 0);
    assert_eq!((d.node, d.ctx, d.id), (11, 22, 33));
}

// Inline spacers are never required or produced (explicit stubs), and colors
// build as stated.
#[test]
fn spacers_and_colors() {
    let ctx = LayoutContext { runs: vec![] };
    let g = RenderBox::GenericBox(RenderBoxData(1, 1, 1, plain_style()));
    assert!(g
        .create_inline_spacer_for_side(&ctx, InlineSpacerSide::LogicalBefore)
        .is_none());
    assert!(g
        .create_inline_spacer_for_side(&ctx, InlineSpacerSide::LogicalAfter)
        .is_none());
    assert_eq!(rgb(1, 2, 3), Color { red: 1, green: 2, blue: 3, alpha: 255 });
    assert_eq!(rgba(1, 2, 3, 4), Color { red: 1, green: 2, blue: 3, alpha: 4 });
}
