use overture::interfaces::containers::{Captured, RenderableList};
use overture::interfaces::geometry::DiscreteCoord;
use overture::interfaces::pixels::Pixel;
use overture::interfaces::rendering::Renderable;
use overture::primitives::shape::Rectangle;
use overture::primitives::text::Text;

fn unit(ch: char, x: u32, y: u32) -> Pixel {
    Pixel::new_with_char(ch, DiscreteCoord::new(x, y), false)
}

fn glyphs(units: &Vec<Pixel>) -> String {
    units.iter().map(|u| u.content.ch).collect()
}

fn mixed() -> RenderableList {
    let items: Vec<Box<dyn Renderable>> = vec![
        Box::new(Text::new("hi", DiscreteCoord::new(4, 2))),
        Box::new(vec![unit('x', 9, 9)]),
        Box::new(Rectangle::new(DiscreteCoord::new(0, 0), DiscreteCoord::new(1, 1))),
    ];
    RenderableList::build_from_vector(items)
}

#[test]
fn new_list_is_empty() {
    let l = RenderableList::new();
    assert!(l.is_empty());
    assert_eq!(l.len(), 0);
    assert!(l.pixels().is_empty());
    assert_eq!(l.dim(), DiscreteCoord::new(0, 0));
    assert!(l.iter().next().is_none());
}

#[test]
fn build_from_vector_keeps_the_order() {
    let l = mixed();
    assert!(!l.is_empty());
    assert_eq!(l.len(), 3);
    assert_eq!(glyphs(&l.pixels()), "hix┌┘└┐");
    let p = l.pixels();
    assert_eq!(p[0].position, DiscreteCoord::new(4, 2));
    assert_eq!(p[2].position, DiscreteCoord::new(9, 9));
    assert!(p[0].protected);
    assert!(!p[2].protected);
}

#[test]
fn build_from_an_empty_vector_is_the_empty_list() {
    let l = RenderableList::build_from_vector(Vec::new());
    assert!(l.is_empty());
    assert!(matches!(l, RenderableList::Nil));
}

#[test]
fn dim_of_a_list_is_the_size_of_its_first_drawable_only() {
    let l = mixed();
    assert_eq!(l.dim(), DiscreteCoord::new(2, 2));
    let other = RenderableList::from_items(vec![vec![unit('a', 1, 1)], vec![unit('b', 50, 60)]]);
    assert_eq!(other.dim(), DiscreteCoord::new(2, 2));
}

#[test]
fn from_items_links_items_of_one_type() {
    let l = RenderableList::from_items(vec![
        Text::new("ab", DiscreteCoord::new(0, 0)),
        Text::new("", DiscreteCoord::new(0, 1)),
        Text::new("c", DiscreteCoord::new(0, 2)),
    ]);
    assert_eq!(l.len(), 3);
    assert_eq!(glyphs(&l.pixels()), "abc");
    let none: Vec<Text> = Vec::new();
    assert!(RenderableList::from_items(none).is_empty());
}

#[test]
fn iter_walks_head_to_tail_without_consuming() {
    let l = mixed();
    let mut it = l.iter();
    let first = it.next().unwrap();
    assert_eq!(glyphs(&first.pixels()), "hi");
    assert_eq!(first.dim(), DiscreteCoord::new(2, 2));
    let second = it.next().unwrap();
    assert_eq!(glyphs(&second.pixels()), "x");
    assert_eq!(second.dim(), DiscreteCoord::new(10, 10));
    let third = it.next().unwrap();
    assert_eq!(glyphs(&third.pixels()), "┌┘└┐");
    assert!(it.next().is_none());
    assert!(it.next().is_none());
    assert_eq!(l.len(), 3);
    assert_eq!(l.iter().next().unwrap().units.len(), 2);
}

#[test]
fn captured_drawable_shows_what_the_drawable_showed() {
    let text = Text::new("ok", DiscreteCoord::new(3, 1));
    let c = Captured::of(&text);
    assert_eq!(glyphs(&c.pixels()), "ok");
    assert_eq!(c.dim(), text.dim());
    assert_eq!(c.size, DiscreteCoord::new(2, 1));
    let boxed: Box<dyn Renderable> = Box::new(text);
    let d = Captured::of_boxed(&boxed);
    assert_eq!(glyphs(&d.pixels()), "ok");
    assert_eq!(d.pixels()[1].position, DiscreteCoord::new(4, 1));
}

#[test]
fn a_list_can_hold_a_list() {
    let inner = RenderableList::from_items(vec![vec![unit('a', 0, 0)], vec![unit('b', 1, 0)]]);
    let items: Vec<Box<dyn Renderable>> = vec![Box::new(inner), Box::new(vec![unit('c', 2, 0)])];
    let outer = RenderableList::build_from_vector(items);
    assert_eq!(outer.len(), 2);
    assert_eq!(glyphs(&outer.pixels()), "abc");
}
