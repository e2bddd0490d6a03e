use svg_draw::scalar::Scalar;
use svg_draw::geom::{Vec2, Rect, Transform};
use svg_draw::length::{Length, LengthUnit, Axis};
use svg_draw::color::Color;
use svg_draw::error::Error;
use svg_draw::attrs::Attrs;
use svg_draw::paint::{Paint, GradientStop, ResolvedPaint};
use svg_draw::attrs::ClipPathAttr;
use svg_draw::item::{Item, Svg, TagG, TagRect, TagSvg, TagUse, TagClipPath,
    TagLinearGradient, LengthVector, LengthRect, DrawContext};
use svg_draw::options::DrawOptions;
use svg_draw::scene::DrawOp;
use svg_draw::text::{Chunk, TextFlow};
use svg_draw::animate;
use svg_draw::DrawSvg;

fn px(n: i64) -> Length {
    Length::new(Scalar::from_int(n), LengthUnit::Px)
}

fn lv(x: i64, y: i64) -> LengthVector {
    LengthVector::new(px(x), px(y))
}

fn plain_rect(x: i64, y: i64, w: i64, h: i64, attrs: Attrs) -> Item {
    Item::Rect(TagRect { origin: lv(x, y), size: lv(w, h), attrs })
}

fn empty_doc() -> Svg {
    Svg::new(Item::G(TagG { items: vec![], attrs: Attrs::default() }), vec![])
}

fn options_for(svg: &Svg) -> DrawOptions {
    let ctx = DrawContext::new(svg);
    DrawOptions::new(&ctx)
}

#[test]
fn unit_inch_is_dpi() {
    let doc = empty_doc();
    let o = options_for(&doc);
    let r = o.resolve_length(&Length::new(Scalar::from_int(1), LengthUnit::In));
    assert_eq!(r.unwrap().unwrap(), Scalar::from_int(75));
}

#[test]
fn unit_cm_is_dpi_over_2_54() {
    let doc = empty_doc();
    let o = options_for(&doc);
    let r = o.resolve_length(&Length::new(Scalar::from_int(1), LengthUnit::Cm));
    assert_eq!(r.unwrap().unwrap(), Scalar::new(7500, 254));
}

#[test]
fn unit_mm_is_dpi_over_25_4() {
    let doc = empty_doc();
    let o = options_for(&doc);
    let r = o.resolve_length(&Length::new(Scalar::from_int(1), LengthUnit::Mm));
    assert_eq!(r.unwrap().unwrap(), Scalar::new(750, 254));
}

#[test]
fn unit_pt_is_dpi_over_75() {
    let doc = empty_doc();
    let o = options_for(&doc);
    let r = o.resolve_length(&Length::new(Scalar::from_int(3), LengthUnit::Pt));
    assert_eq!(r.unwrap().unwrap(), Scalar::from_int(3));
}

#[test]
fn unitless_and_px_pass_through() {
    let doc = empty_doc();
    let o = options_for(&doc);
    let raw = Scalar::new(7, 2);
    let a = o.resolve_length(&Length::new(raw, LengthUnit::Unitless));
    let b = o.resolve_length(&Length::new(raw, LengthUnit::Px));
    assert_eq!(a.unwrap().unwrap(), raw);
    assert_eq!(b.unwrap().unwrap(), raw);
}

#[test]
fn unsupported_units_fail_loudly() {
    let doc = empty_doc();
    let o = options_for(&doc);
    for unit in [LengthUnit::Em, LengthUnit::Ex, LengthUnit::Pc] {
        let r = o.resolve_length(&Length::new(Scalar::from_int(1), unit));
        assert_eq!(r, Err(Error::UnsupportedUnit));
    }
}

#[test]
fn percent_without_view_box_is_unresolved() {
    let doc = empty_doc();
    let o = options_for(&doc);
    let pct = Length::new(Scalar::from_int(50), LengthUnit::Percent);
    assert_eq!(o.resolve_length_along(&pct, Axis::X), Ok(None));
    assert_eq!(o.resolve_length_along(&pct, Axis::Y), Ok(None));
}

#[test]
fn percent_resolves_against_view_box() {
    let doc = empty_doc();
    let mut o = options_for(&doc);
    o.view_box = Some(Rect::new(
        Vec2::zero(),
        Vec2::new(Scalar::from_int(200), Scalar::from_int(100)),
    ));
    let pct = Length::new(Scalar::from_int(50), LengthUnit::Percent);
    assert_eq!(o.resolve_length_along(&pct, Axis::X).unwrap().unwrap(),
        Scalar::from_int(100));
    assert_eq!(o.resolve_length_along(&pct, Axis::Y).unwrap().unwrap(),
        Scalar::from_int(50));
}

#[test]
fn cascade_opacity_multiplies() {
    let doc = empty_doc();
    let mut parent = options_for(&doc);
    parent.opacity = Scalar::new(1, 2);
    let mut attrs = Attrs::default();
    attrs.opacity = Some(Scalar::new(2, 5));
    let child = parent.apply(&attrs);
    assert_eq!(child.opacity, Scalar::new(1, 5));
}

#[test]
fn cascade_fill_inherits_and_overrides() {
    let doc = empty_doc();
    let mut parent = options_for(&doc);
    parent.fill = Paint::Solid(Color { r: 1, g: 2, b: 3, a: 255 });
    let child = parent.apply(&Attrs::default());
    assert!(matches!(child.fill, Paint::Solid(Color { r: 1, g: 2, b: 3, a: 255 })));
    let mut attrs = Attrs::default();
    attrs.fill = Some(Paint::Absent);
    let child2 = parent.apply(&attrs);
    assert!(matches!(child2.fill, Paint::Absent));
    let grandchild = child2.apply(&Attrs::default());
    assert!(matches!(grandchild.fill, Paint::Absent));
}

#[test]
fn missing_fill_ref_skips_channel_but_not_siblings() {
    let mut a1 = Attrs::default();
    a1.fill = Some(Paint::Ref("nope".to_owned()));
    let doc = Svg::new(
        Item::G(TagG {
            items: vec![plain_rect(0, 0, 4, 4, a1), plain_rect(5, 5, 4, 4, Attrs::default())],
            attrs: Attrs::default(),
        }),
        vec![],
    );
    let scene = DrawSvg::new_without_fonts(doc).compose().unwrap();
    assert_eq!(scene.draws.len(), 1);
    assert!(matches!(scene.draws[0], DrawOp::Fill { .. }));
}

#[test]
fn gradient_reference_resolves() {
    let grad = Item::LinearGradient(TagLinearGradient {
        from: Vec2::zero(),
        to: Vec2::new(Scalar::from_int(1), Scalar::from_int(0)),
        stops: vec![GradientStop {
            offset: Scalar::zero(),
            color: Color { r: 9, g: 9, b: 9, a: 255 },
            opacity: Scalar::new(1, 2),
        }],
        transform: Transform::identity(),
    });
    let mut attrs = Attrs::default();
    attrs.fill = Some(Paint::Ref("g".to_owned()));
    let doc = Svg::new(plain_rect(0, 0, 4, 4, attrs), vec![("g".to_owned(), grad)]);
    let scene = DrawSvg::new_without_fonts(doc).compose().unwrap();
    assert_eq!(scene.draws.len(), 1);
    assert_eq!(scene.paints.len(), 1);
    match &scene.paints[0] {
        ResolvedPaint::LinearGradient { stops, .. } => {
            assert_eq!(stops.len(), 1);
            // stop alpha: 255 * (1/2 stop opacity * 1 ambient) = 127
            assert_eq!(stops[0].color.a, 127);
        },
        other => panic!("expected a linear gradient, got {:?}", other),
    }
}

#[test]
fn fill_precedes_stroke() {
    let mut attrs = Attrs::default();
    attrs.stroke = Some(Paint::Solid(Color { r: 0, g: 0, b: 0, a: 255 }));
    let doc = Svg::new(plain_rect(0, 0, 4, 4, attrs), vec![]);
    let scene = DrawSvg::new_without_fonts(doc).compose().unwrap();
    assert_eq!(scene.draws.len(), 2);
    assert!(matches!(scene.draws[0], DrawOp::Fill { .. }));
    assert!(matches!(scene.draws[1], DrawOp::Stroke { .. }));
}

#[test]
fn compose_is_deterministic() {
    let mut attrs = Attrs::default();
    attrs.stroke = Some(Paint::Solid(Color { r: 7, g: 8, b: 9, a: 200 }));
    attrs.opacity = Some(Scalar::new(3, 4));
    let make = || {
        Svg::new(
            Item::G(TagG {
                items: vec![plain_rect(1, 2, 3, 4, attrs.clone())],
                attrs: Attrs::default(),
            }),
            vec![],
        )
    };
    let s1 = DrawSvg::new_without_fonts(make()).compose().unwrap();
    let s2 = DrawSvg::new_without_fonts(make()).compose().unwrap();
    assert_eq!(format!("{:?}", s1.draws), format!("{:?}", s2.draws));
    assert_eq!(format!("{:?}", s1.paints), format!("{:?}", s2.paints));
    assert_eq!(format!("{:?}", s1.view_box), format!("{:?}", s2.view_box));
}

#[test]
fn use_cycle_is_a_fatal_error() {
    let cycle = Item::Use(TagUse { href: Some("#a".to_owned()), attrs: Attrs::default() });
    let doc = Svg::new(
        Item::Use(TagUse { href: Some("#a".to_owned()), attrs: Attrs::default() }),
        vec![("a".to_owned(), cycle)],
    );
    let r = DrawSvg::new_without_fonts(doc).compose();
    assert_eq!(r.err(), Some(Error::RecursionLimit));
}

#[test]
fn unsupported_unit_aborts_compose() {
    let mut tag = TagRect { origin: lv(0, 0), size: lv(4, 4), attrs: Attrs::default() };
    tag.size.x = Length::new(Scalar::from_int(2), LengthUnit::Em);
    let doc = Svg::new(Item::Rect(tag), vec![]);
    let r = DrawSvg::new_without_fonts(doc).compose();
    assert_eq!(r.err(), Some(Error::UnsupportedUnit));
}

#[test]
fn missing_clip_path_warns_and_draws() {
    let mut attrs = Attrs::default();
    attrs.clip_path = Some(ClipPathAttr::Ref("gone".to_owned()));
    let doc = Svg::new(plain_rect(0, 0, 4, 4, attrs), vec![]);
    let scene = DrawSvg::new_without_fonts(doc).compose().unwrap();
    assert_eq!(scene.warnings, vec!["gone".to_owned()]);
    assert_eq!(scene.draws.len(), 1);
    match &scene.draws[0] {
        DrawOp::Fill { clip, .. } => assert_eq!(*clip, None),
        other => panic!("expected a fill, got {:?}", other),
    }
}

#[test]
fn clip_path_reference_registers_a_clip() {
    let clip_def = Item::ClipPath(TagClipPath {
        items: vec![plain_rect(0, 0, 2, 2, Attrs::default())],
        attrs: Attrs::default(),
    });
    let mut attrs = Attrs::default();
    attrs.clip_path = Some(ClipPathAttr::Ref("c".to_owned()));
    let doc = Svg::new(plain_rect(0, 0, 4, 4, attrs), vec![("c".to_owned(), clip_def)]);
    let scene = DrawSvg::new_without_fonts(doc).compose().unwrap();
    assert_eq!(scene.clips.len(), 1);
    match &scene.draws[0] {
        DrawOp::Fill { clip, .. } => assert_eq!(*clip, Some(0)),
        other => panic!("expected a fill, got {:?}", other),
    }
}

#[test]
fn explicit_view_box_wins() {
    let doc = Svg::new(
        Item::Svg(TagSvg {
            view_box: Some(LengthRect::new(lv(0, 0), lv(10, 20))),
            width: None,
            height: None,
            items: vec![],
            attrs: Attrs::default(),
        }),
        vec![],
    );
    let vb = DrawSvg::new_without_fonts(doc).view_box().unwrap().unwrap();
    assert_eq!(vb.width(), Scalar::from_int(10));
    assert_eq!(vb.height(), Scalar::from_int(20));
}

#[test]
fn ltr_chunk_layout_places_forward() {
    let chunk = Chunk::new("ab", TextFlow::LeftToRight);
    assert_eq!(chunk.runs, vec![(0u8, 0usize, 2usize)]);
    let layout = chunk.layout(&vec![Scalar::from_int(10)]);
    assert_eq!(layout.parts.len(), 1);
    assert_eq!(layout.parts[0].0, 0);
    assert_eq!(layout.parts[0].1, Scalar::zero());
    assert_eq!(layout.advance, Scalar::from_int(10));
}

#[test]
fn rtl_run_layout_places_backward() {
    let chunk = Chunk::from_runs("ab", vec![(1u8, 0usize, 2usize)]);
    let layout = chunk.layout(&vec![Scalar::from_int(10)]);
    assert_eq!(layout.parts.len(), 1);
    assert_eq!(layout.parts[0].1, Scalar::from_int(-10));
    assert_eq!(layout.advance, Scalar::from_int(-10));
}

#[test]
fn mixed_direction_text_segments_into_runs() {
    let text = "ab\u{05D0}\u{05D1}";
    let chunk = Chunk::new(text, TextFlow::LeftToRight);
    assert_eq!(chunk.runs.len(), 2);
    assert_eq!(chunk.runs[0].0 % 2, 0);
    assert_eq!(chunk.runs[0].1, 0);
    assert_eq!(chunk.runs[0].2, 2);
    assert_eq!(chunk.runs[1].0 % 2, 1);
    assert_eq!(chunk.runs[1].1, 2);
    assert_eq!(chunk.runs[1].2, 6);
}

#[test]
fn empty_chunk_has_no_runs() {
    let chunk = Chunk::new("", TextFlow::LeftToRight);
    assert!(chunk.runs.is_empty());
    let layout = chunk.layout(&vec![]);
    assert!(layout.parts.is_empty());
    assert_eq!(layout.advance, Scalar::zero());
}

#[test]
fn lerp_scale_compose_values() {
    let a = Scalar::from_int(2);
    let b = Scalar::from_int(6);
    let half = Scalar::new(1, 2);
    assert_eq!(animate::lerp(a, b, half), Scalar::from_int(4));
    assert_eq!(animate::scale(b, half), Scalar::from_int(3));
    assert_eq!(animate::compose_value(Some(a), None, half), Some(a));
    assert_eq!(animate::compose_value(None, Some(b), half), Some(b));
    assert_eq!(animate::compose_value(Some(a), Some(b), half), Some(Scalar::from_int(4)));
    assert_eq!(animate::compose_value(None, None, half), None);
    assert_eq!(animate::opt_lerp(Some(a), None, half), None);
    assert_eq!(animate::opt_scale(Some(b), half), Some(Scalar::from_int(3)));
}

#[test]
fn alpha_scaling_is_exact() {
    let c = Color { r: 0, g: 0, b: 0, a: 255 };
    assert_eq!(c.with_opacity(Scalar::new(1, 2)).a, 127);
    assert_eq!(c.with_opacity(Scalar::from_int(1)).a, 255);
    assert_eq!(c.with_opacity(Scalar::zero()).a, 0);
    assert_eq!(c.with_opacity(Scalar::from_int(2)).a, 255);
}

#[test]
fn transform_composition_nests_child_coordinates() {
    let doc = empty_doc();
    let parent = options_for(&doc);
    let mut attrs = Attrs::default();
    attrs.transform = Some(Transform::from_translation(Vec2::new(
        Scalar::from_int(5),
        Scalar::from_int(0),
    )));
    let child = parent.apply(&attrs);
    // default device transform is a uniform scale of ten, so the local
    // translation of five lands at fifty.
    let p = child.transform.apply(&Vec2::zero());
    assert_eq!(p.x, Scalar::from_int(50));
    assert_eq!(p.y, Scalar::from_int(0));
}
