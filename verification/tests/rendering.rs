use overture::interfaces::geometry::{DiscreteCoord, RenderPlacementConfig, Translation};
use overture::interfaces::pixels::Pixel;
use overture::interfaces::rendering::{
    bounding_corners, clamp_component, copy_units, flag_units, prune_units, room_on_axis,
    shift_units, RenderChar, Renderable,
};
use overture::interfaces::styling::{RenderStyle, Stylable};
use overture::ioopts::ansi::ANSISequence;

fn unit(ch: char, x: u32, y: u32, protected: bool) -> Pixel {
    Pixel::new_with_char(ch, DiscreteCoord::new(x, y), protected)
}

fn positions(units: &Vec<Pixel>) -> Vec<(u32, u32)> {
    units.iter().map(|u| (u.position.x, u.position.y)).collect()
}

fn glyphs(units: &Vec<Pixel>) -> String {
    units.iter().map(|u| u.content.ch).collect()
}

fn flags(units: &Vec<Pixel>) -> Vec<bool> {
    units.iter().map(|u| u.protected).collect()
}

fn sample() -> Vec<Pixel> {
    vec![
        unit('a', 3, 5, false),
        unit(' ', 4, 5, false),
        unit(' ', 5, 5, true),
        unit('b', 6, 7, false),
        unit(' ', 7, 7, false),
    ]
}

#[test]
fn render_char_constructors() {
    let plain = RenderChar::new_plain('x');
    assert_eq!(plain.ch, 'x');
    assert_eq!(plain.style, RenderStyle::Plain);
    let styled = RenderChar::new('y', RenderStyle::Nil);
    assert_eq!(styled.ch, 'y');
    assert_eq!(styled.style, RenderStyle::Nil);
    assert_eq!(RenderChar::blank(), RenderChar::new_plain(' '));
    assert_eq!(plain.clone(), plain);
    assert_ne!(plain, styled);
    assert_ne!(RenderChar::new_plain('x'), RenderChar::new('x', RenderStyle::Nil));
}

#[test]
fn pixel_constructors() {
    let p = Pixel::new(RenderChar::new('q', RenderStyle::Nil), DiscreteCoord::new(1, 2), true);
    assert_eq!(p.content, RenderChar::new('q', RenderStyle::Nil));
    assert_eq!(p.position, DiscreteCoord::new(1, 2));
    assert!(p.protected);
    let q = Pixel::new_with_char('z', DiscreteCoord::new(9, 8), false);
    assert_eq!(q.content, RenderChar::new_plain('z'));
    assert_eq!(q.position, DiscreteCoord::new(9, 8));
    assert!(!q.protected);
    let c = q.clone();
    assert_eq!(c.content, q.content);
    assert_eq!(c.position, q.position);
    assert_eq!(c.protected, q.protected);
}

#[test]
fn pixels_of_a_unit_list_are_a_copy() {
    let s = sample();
    let p = s.pixels();
    assert_eq!(positions(&p), positions(&s));
    assert_eq!(glyphs(&p), glyphs(&s));
    assert_eq!(flags(&p), flags(&s));
    let r = s.rasterize();
    assert_eq!(positions(&r), positions(&s));
    assert_eq!(glyphs(&r), "a  b ");
    let c = copy_units(&s);
    assert_eq!(positions(&c), positions(&s));
}

#[test]
fn dim_of_a_unit_list_is_one_past_the_largest_position() {
    assert_eq!(sample().dim(), DiscreteCoord::new(8, 8));
    let empty: Vec<Pixel> = Vec::new();
    assert_eq!(empty.dim(), DiscreteCoord::new(0, 0));
    assert_eq!(vec![unit('a', 0, 0, false)].dim(), DiscreteCoord::new(1, 1));
    assert_eq!(vec![unit('a', u32::MAX, 2, false)].dim(), DiscreteCoord::new(u32::MAX, 3));
}

#[test]
fn translate_moves_every_unit_and_leaves_the_source() {
    let s = sample();
    let t = s.translate(Translation::new(2, -6));
    assert_eq!(positions(&t), vec![(5, 0), (6, 0), (7, 0), (8, 1), (9, 1)]);
    assert_eq!(glyphs(&t), "a  b ");
    assert_eq!(flags(&t), vec![false, false, true, false, false]);
    assert_eq!(positions(&s), vec![(3, 5), (4, 5), (5, 5), (6, 7), (7, 7)]);
    let z = s.translate(Translation::zero());
    assert_eq!(positions(&z), positions(&s));
}

#[test]
fn shift_units_clamps_both_ways() {
    let s = vec![unit('a', 3, u32::MAX - 1, false)];
    let down = shift_units(&s, -10, 5);
    assert_eq!(positions(&down), vec![(0, u32::MAX)]);
    assert_eq!(clamp_component(-1), 0);
    assert_eq!(clamp_component(1 << 40), u32::MAX);
    assert_eq!(clamp_component(77), 77);
}

#[test]
fn prune_drops_unprotected_blanks_only() {
    let p = sample().prune();
    assert_eq!(glyphs(&p), "a b");
    assert_eq!(positions(&p), vec![(3, 5), (5, 5), (6, 7)]);
    assert_eq!(flags(&p), vec![false, true, false]);
    let q = prune_units(sample());
    assert_eq!(positions(&q), positions(&p));
}

#[test]
fn prune_is_idempotent() {
    let once = sample().prune();
    let twice = once.prune();
    assert_eq!(positions(&twice), positions(&once));
    assert_eq!(glyphs(&twice), glyphs(&once));
    assert_eq!(flags(&twice), flags(&once));
    let empty: Vec<Pixel> = Vec::new();
    assert!(empty.prune().is_empty());
    let blanks = vec![unit(' ', 0, 0, false), unit(' ', 1, 0, false)];
    assert!(blanks.prune().is_empty());
}

#[test]
fn protect_then_prune_keeps_every_unit() {
    let s = sample();
    let kept = s.protect().prune();
    assert_eq!(kept.len(), s.len());
    assert_eq!(positions(&kept), positions(&s));
    assert_eq!(glyphs(&kept), glyphs(&s));
    assert_eq!(flags(&kept), vec![true; 5]);
}

#[test]
fn set_protect_forces_the_flag() {
    let s = sample();
    assert_eq!(flags(&s.set_protect(false)), vec![false; 5]);
    assert_eq!(flags(&s.set_protect(true)), vec![true; 5]);
    assert_eq!(flags(&s.protect()), vec![true; 5]);
    assert_eq!(positions(&s.set_protect(false)), positions(&s));
    assert_eq!(glyphs(&flag_units(&s, false)), glyphs(&s));
    assert!(s.set_protect(false).prune().len() == 2);
}

#[test]
fn bounding_corners_and_room() {
    let (lo, hi) = bounding_corners(&sample());
    assert_eq!(lo, DiscreteCoord::new(3, 5));
    assert_eq!(hi, DiscreteCoord::new(7, 7));
    let (lo, hi) = bounding_corners(&Vec::new());
    assert_eq!(lo, DiscreteCoord::new(0, 0));
    assert_eq!(hi, DiscreteCoord::new(0, 0));
    assert_eq!(room_on_axis(10, 3, 7), 5);
    assert_eq!(room_on_axis(5, 3, 7), 0);
    assert_eq!(room_on_axis(4, 3, 7), 0);
    assert_eq!(room_on_axis(1 << 40, 0, 0), u32::MAX);
    assert_eq!(room_on_axis(u32::MAX as u64, 0, u32::MAX), 0);
    assert_eq!(room_on_axis(10, 7, 3), 13);
}

#[test]
fn align_top_left_only_normalises() {
    let s = sample();
    for dim in [DiscreteCoord::new(5, 3), DiscreteCoord::new(100, 100), DiscreteCoord::new(0, 0)] {
        let a = s.align(RenderPlacementConfig::TopLeft, dim);
        assert_eq!(positions(&a), vec![(0, 0), (1, 0), (2, 0), (3, 2), (4, 2)]);
        assert_eq!(glyphs(&a), glyphs(&s));
        assert_eq!(flags(&a), flags(&s));
    }
}

#[test]
fn align_on_a_snug_target_is_the_same_for_every_corner_and_centre() {
    let s = sample();
    let dim = DiscreteCoord::new(5, 3);
    let expected = vec![(0, 0), (1, 0), (2, 0), (3, 2), (4, 2)];
    for policy in [
        RenderPlacementConfig::TopLeft,
        RenderPlacementConfig::TopRight,
        RenderPlacementConfig::BottomLeft,
        RenderPlacementConfig::BottomRight,
        RenderPlacementConfig::CenterTop,
        RenderPlacementConfig::CenterBottom,
        RenderPlacementConfig::CenterLeft,
        RenderPlacementConfig::CenterRight,
        RenderPlacementConfig::CenterStage,
    ] {
        assert_eq!(positions(&s.align(policy, dim)), expected);
    }
}

#[test]
fn align_center_stage_of_two_by_two_in_ten_by_ten() {
    let s = vec![
        unit('a', 20, 30, false),
        unit('b', 21, 30, false),
        unit('c', 20, 31, false),
        unit('d', 21, 31, false),
    ];
    let a = s.align(RenderPlacementConfig::CenterStage, DiscreteCoord::new(10, 10));
    assert_eq!(positions(&a), vec![(4, 4), (5, 4), (4, 5), (5, 5)]);
}

#[test]
fn align_every_policy() {
    let s = vec![unit('a', 2, 2, false), unit('b', 3, 3, false)];
    let dim = DiscreteCoord::new(9, 7);
    let cases = [
        (RenderPlacementConfig::TopLeft, (0, 0)),
        (RenderPlacementConfig::TopRight, (7, 0)),
        (RenderPlacementConfig::BottomLeft, (0, 5)),
        (RenderPlacementConfig::BottomRight, (7, 5)),
        (RenderPlacementConfig::CenterTop, (3, 0)),
        (RenderPlacementConfig::CenterBottom, (3, 5)),
        (RenderPlacementConfig::CenterLeft, (0, 2)),
        (RenderPlacementConfig::CenterRight, (7, 2)),
        (RenderPlacementConfig::CenterStage, (3, 2)),
        (RenderPlacementConfig::Offset(Translation::new(4, 1)), (4, 1)),
        (RenderPlacementConfig::Offset(Translation::new(-4, 1)), (0, 1)),
    ];
    for (policy, (x, y)) in cases.iter() {
        let a = s.align(*policy, dim);
        assert_eq!(positions(&a), vec![(*x, *y), (*x + 1, *y + 1)]);
    }
}

#[test]
fn align_of_nothing_is_nothing() {
    let empty: Vec<Pixel> = Vec::new();
    assert!(empty.align(RenderPlacementConfig::CenterStage, DiscreteCoord::new(9, 9)).is_empty());
}

#[test]
fn align_into_a_target_smaller_than_the_object_has_no_room() {
    let s = sample();
    let a = s.align(RenderPlacementConfig::BottomRight, DiscreteCoord::new(2, 1));
    assert_eq!(positions(&a), vec![(0, 0), (1, 0), (2, 0), (3, 2), (4, 2)]);
}

#[test]
fn vector_of_drawables_gathers_units_in_order() {
    let groups: Vec<Vec<Pixel>> =
        vec![vec![unit('a', 1, 9, false)], Vec::new(), vec![unit('b', 4, 2, false), unit('c', 0, 0, true)]];
    let p = groups.pixels();
    assert_eq!(glyphs(&p), "abc");
    assert_eq!(positions(&p), vec![(1, 9), (4, 2), (0, 0)]);
    assert_eq!(groups.dim(), DiscreteCoord::new(4, 9));
    let none: Vec<Vec<Pixel>> = Vec::new();
    assert!(none.pixels().is_empty());
    assert_eq!(none.dim(), DiscreteCoord::new(0, 0));
}

#[test]
fn style_replaces_the_chain_when_it_holds_an_attribute() {
    let s = vec![
        Pixel::new(RenderChar::new('a', RenderStyle::Nil), DiscreteCoord::new(0, 0), false),
        unit('b', 1, 0, true),
    ];
    let cyan = RenderStyle::chain(vec![ANSISequence::FgCyan]);
    let styled = s.style(cyan.clone());
    assert_eq!(styled[0].content, RenderChar::new('a', cyan.clone()));
    assert_eq!(styled[1].content, RenderChar::new('b', cyan));
    assert_eq!(positions(&styled), positions(&s));
    assert_eq!(flags(&styled), flags(&s));
}

#[test]
fn style_without_attribute_changes_nothing() {
    let s = vec![
        Pixel::new(RenderChar::new('a', RenderStyle::Nil), DiscreteCoord::new(0, 0), false),
        Pixel::new(
            RenderChar::new('b', RenderStyle::chain(vec![ANSISequence::Bold])),
            DiscreteCoord::new(1, 0),
            true,
        ),
    ];
    for style in [RenderStyle::Plain, RenderStyle::Nil] {
        let styled = s.style(style);
        assert_eq!(styled[0].content, s[0].content);
        assert_eq!(styled[1].content, s[1].content);
    }
}

#[test]
fn style_chain_stacks_outermost_first() {
    assert_eq!(RenderStyle::chain(Vec::new()), RenderStyle::Plain);
    assert_eq!(
        RenderStyle::chain(vec![ANSISequence::Bold, ANSISequence::FgBrightCyan]),
        RenderStyle::Styled(
            ANSISequence::Bold,
            Box::new(RenderStyle::Styled(
                ANSISequence::FgBrightCyan,
                Box::new(RenderStyle::Plain)
            ))
        )
    );
    let chain = RenderStyle::chain(vec![ANSISequence::FgRGB(1, 2, 3)]);
    assert_eq!(chain.clone(), chain);
    assert_ne!(chain, RenderStyle::Plain);
    assert_ne!(RenderStyle::Nil, RenderStyle::Plain);
}

#[test]
fn two_letters_pruned_and_aligned_top_left_in_ten_by_one() {
    let text = overture::primitives::text::Text::new("AB", DiscreteCoord::new(0, 0));
    let pruned = text.prune();
    assert_eq!(glyphs(&pruned), "AB");
    let a = pruned.align(RenderPlacementConfig::TopLeft, DiscreteCoord::new(10, 1));
    assert_eq!(positions(&a), vec![(0, 0), (1, 0)]);
    assert_eq!(glyphs(&a), "AB");
}
