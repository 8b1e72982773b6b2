use overture::interfaces::geometry::DiscreteCoord;
use overture::interfaces::pixels::Pixel;
use overture::interfaces::rendering::Renderable;
use overture::primitives::text::{
    banner_texts, chars_of, eq_ignoring_ascii_case, font_source, stack_lines, FontSource, Text,
};

fn cells(units: &Vec<Pixel>) -> Vec<(char, u32, u32)> {
    units.iter().map(|u| (u.content.ch, u.position.x, u.position.y)).collect()
}

fn shown(texts: &Vec<Text>) -> Vec<(String, u32, u32)> {
    texts.iter().map(|t| (t.content.clone(), t.pos.x, t.pos.y)).collect()
}

#[test]
fn text_new_keeps_content_and_place() {
    let t = Text::new("héllo", DiscreteCoord::new(2, 3));
    assert_eq!(t.content, "héllo");
    assert_eq!(t.pos, DiscreteCoord::new(2, 3));
    assert_eq!(t.len(), 6);
    assert!(t.starts_with("hé"));
}

#[test]
fn text_units_run_to_the_right_and_are_protected() {
    let t = Text::new("a b", DiscreteCoord::new(2, 3));
    let p = t.pixels();
    assert_eq!(cells(&p), vec![('a', 2, 3), (' ', 3, 3), ('b', 4, 3)]);
    assert!(p.iter().all(|u| u.protected));
    assert_eq!(t.prune().len(), 3);
    assert!(Text::new("", DiscreteCoord::new(0, 0)).pixels().is_empty());
}

#[test]
fn text_units_count_characters_not_bytes() {
    let t = Text::new("é─z", DiscreteCoord::new(0, 0));
    assert_eq!(cells(&t.pixels()), vec![('é', 0, 0), ('─', 1, 0), ('z', 2, 0)]);
    assert_eq!(t.dim(), DiscreteCoord::new(3, 0));
}

#[test]
fn text_units_stop_at_the_last_column() {
    let t = Text::new("abc", DiscreteCoord::new(u32::MAX - 1, 0));
    assert_eq!(
        cells(&t.pixels()),
        vec![('a', u32::MAX - 1, 0), ('b', u32::MAX, 0), ('c', u32::MAX, 0)]
    );
}

#[test]
fn text_dim_is_length_and_row() {
    assert_eq!(Text::new("hello", DiscreteCoord::new(2, 7)).dim(), DiscreteCoord::new(5, 7));
    assert_eq!(Text::new("", DiscreteCoord::new(2, 7)).dim(), DiscreteCoord::new(0, 7));
}

#[test]
fn chars_of_a_string() {
    assert_eq!(chars_of("a─b"), vec!['a', '─', 'b']);
    assert!(chars_of("").is_empty());
}

#[test]
fn stack_lines_splits_and_stacks() {
    let texts = stack_lines("ab\ncd\n\nef", DiscreteCoord::new(3, 10));
    assert_eq!(
        shown(&texts),
        vec![
            ("ab".to_string(), 3, 10),
            ("cd".to_string(), 3, 11),
            ("".to_string(), 3, 12),
            ("ef".to_string(), 3, 13),
        ]
    );
}

#[test]
fn stack_lines_agrees_with_the_standard_line_splitting() {
    let samples = [
        "",
        "\n",
        "a",
        "a\n",
        "a\nb",
        "a\n\n",
        "\n\na",
        "a\r\nb\r\n",
        "a\r\nb\r",
        "\r",
        "\r\n",
        "a\rb\nc",
        "x\r\r\ny",
        " _  \n| | \n|_| \n",
    ];
    for s in samples.iter() {
        let ours: Vec<String> =
            stack_lines(s, DiscreteCoord::new(0, 0)).into_iter().map(|t| t.content).collect();
        let theirs: Vec<String> = s.lines().map(|l| l.to_string()).collect();
        assert_eq!(ours, theirs);
    }
}

#[test]
fn stack_lines_stops_at_the_last_row() {
    let texts = stack_lines("a\nb\nc", DiscreteCoord::new(0, u32::MAX - 1));
    assert_eq!(
        shown(&texts),
        vec![
            ("a".to_string(), 0, u32::MAX - 1),
            ("b".to_string(), 0, u32::MAX),
            ("c".to_string(), 0, u32::MAX),
        ]
    );
}

#[test]
fn banner_texts_stacks_the_lines_of_a_banner() {
    let rows = banner_texts(Some(" _ \n|_|\n".to_string()), DiscreteCoord::new(4, 7)).unwrap();
    assert_eq!(
        shown(&rows),
        vec![(" _ ".to_string(), 4, 7), ("|_|".to_string(), 4, 8)]
    );
    let empty = banner_texts(Some(String::new()), DiscreteCoord::new(4, 7)).unwrap();
    assert!(empty.is_empty());
}

#[test]
fn banner_texts_of_no_banner_is_none() {
    assert!(banner_texts(None, DiscreteCoord::new(4, 7)).is_none());
}

#[test]
fn banner_is_the_stacked_lines_of_what_the_font_draws() {
    let font = figlet_rs::FIGfont::standard().unwrap();
    for message in ["A", "Hi", "a b", "$", "x\u{4e2d}y"] {
        let t = Text::new(message, DiscreteCoord::new(2, 9));
        let drawn = font.convert(message).map(|f| f.to_string());
        let expected = banner_texts(drawn, DiscreteCoord::new(2, 9)).unwrap();
        let got = t.ascii_art(Some(&font)).unwrap();
        assert_eq!(shown(&got), shown(&expected));
        assert_eq!(got.len(), 6);
        assert_eq!(got[5].pos, DiscreteCoord::new(2, 14));
    }
}

#[test]
fn banner_of_an_empty_text_is_none() {
    let t = Text::new("", DiscreteCoord::new(0, 0));
    assert!(t.ascii_art_default().is_none());
    assert!(t.ascii_art(None).is_none());
}

#[test]
fn banner_in_the_standard_font_has_six_rows() {
    let t = Text::new("A", DiscreteCoord::new(3, 10));
    let rows = t.ascii_art_default().unwrap();
    assert_eq!(rows.len(), 6);
    for (i, row) in rows.iter().enumerate() {
        assert_eq!(row.pos, DiscreteCoord::new(3, 10 + i as u32));
    }
    let art: Vec<String> = rows.into_iter().map(|r| r.content).collect();
    assert_eq!(
        art,
        vec![
            "     _    ".to_string(),
            "    / \\   ".to_string(),
            "   / _ \\  ".to_string(),
            "  / ___ \\ ".to_string(),
            " /_/   \\_\\".to_string(),
            "          ".to_string(),
        ]
    );
}

#[test]
fn banner_with_a_given_font_is_the_banner_of_that_font() {
    let font = figlet_rs::FIGfont::standard().unwrap();
    let t = Text::new("Hi", DiscreteCoord::new(0, 0));
    let with_font = t.ascii_art(Some(&font)).unwrap();
    let expected = font.convert("Hi").unwrap().to_string();
    let lines: Vec<&str> = expected.lines().collect();
    assert_eq!(with_font.len(), lines.len());
    for (row, line) in with_font.iter().zip(lines.iter()) {
        assert_eq!(&row.content, line);
    }
    let by_default: Vec<String> =
        t.ascii_art_default().unwrap().into_iter().map(|r| r.content).collect();
    let given: Vec<String> = with_font.into_iter().map(|r| r.content).collect();
    assert_eq!(by_default, given);
    assert!(given.iter().all(|l| l != "Hi"));
}

#[test]
fn banner_of_characters_that_the_font_lacks_is_none() {
    let t = Text::new("\u{4e2d}", DiscreteCoord::new(0, 0));
    assert!(t.ascii_art_default().is_none());
}

#[test]
fn banner_rows_are_drawables() {
    let rows = Text::new("A", DiscreteCoord::new(0, 0)).ascii_art_default().unwrap();
    let units = rows.pixels();
    assert_eq!(units.len(), 60);
    let pruned = rows.prune();
    assert_eq!(pruned.len(), 60);
    let bare = rows.set_protect(false).prune();
    assert_eq!(bare.len(), 17);
}

#[test]
fn names_compare_without_ascii_case() {
    assert!(eq_ignoring_ascii_case("standard", "STANDARD"));
    assert!(eq_ignoring_ascii_case("StAnDaRd", "standard"));
    assert!(eq_ignoring_ascii_case("", ""));
    assert!(!eq_ignoring_ascii_case("standard", "standar"));
    assert!(!eq_ignoring_ascii_case("standard", "standarD "));
    assert!(!eq_ignoring_ascii_case("é", "É"));
    assert!(eq_ignoring_ascii_case("aé@[`{", "Aé@[`{"));
    for (a, b) in [("abc", "ABC"), ("a", "b"), ("Z", "z"), ("@", "`"), ("[", "{")] {
        assert_eq!(eq_ignoring_ascii_case(a, b), a.eq_ignore_ascii_case(b));
    }
}

#[test]
fn font_source_of_the_standard_name() {
    for name in ["standard", "Standard", "STANDARD"] {
        assert!(matches!(font_source(name), FontSource::Standard));
    }
}

#[test]
fn font_source_of_any_other_name_is_a_lower_case_file_path() {
    match font_source("3-D") {
        FontSource::File(path) => assert_eq!(path, "fonts/3-d.flf"),
        FontSource::Standard => panic!("a file was expected"),
    }
    match font_source("Slant") {
        FontSource::File(path) => assert_eq!(path, "fonts/slant.flf"),
        FontSource::Standard => panic!("a file was expected"),
    }
    match font_source("") {
        FontSource::File(path) => assert_eq!(path, "fonts/.flf"),
        FontSource::Standard => panic!("a file was expected"),
    }
    match font_source("ÉCOLE") {
        FontSource::File(path) => assert_eq!(path, "fonts/école.flf"),
        FontSource::Standard => panic!("a file was expected"),
    }
}
