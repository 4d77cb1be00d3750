use textview::coordinates::{Coordinates, Position, Size};
use textview::render::{clear_region, format_row, render};
use textview::textview::TextView;
use textview::widget::Widget;

fn viewport(x: u16, y: u16, width: u16, height: u16) -> Coordinates {
    Coordinates { size: Size { width, height }, position: Position { x, y } }
}

fn source(lines: &[&str]) -> Vec<String> {
    lines.iter().map(|l| l.to_string()).collect()
}

/// The expected row fragment, built with the standard formatter.
fn fragment(x: u32, row: u32, text: &str) -> String {
    format!("\x1b[{};{}H\x1b[0m{}", row, x, text)
}

#[test]
fn two_lines_in_a_taller_viewport() {
    let mut tv = TextView::new_from_lines(&source(&["ab", "abcdef"]));
    tv.set_coordinates(&viewport(0, 0, 4, 5));
    let clear = "\x1b[0;0H\x1b[0m    \
                 \x1b[1;0H\x1b[0m    \
                 \x1b[2;0H\x1b[0m    \
                 \x1b[3;0H\x1b[0m    \
                 \x1b[4;0H\x1b[0m    ";
    let rows = "\x1b[0;0H\x1b[0mab  \x1b[1;0H\x1b[0mabcd";
    assert_eq!(tv.get_drawlist(), format!("{}{}", clear, rows));
}

#[test]
fn row_zero_is_padded_and_row_one_is_cut() {
    let c = viewport(0, 0, 4, 5);
    assert_eq!(format_row(&c, 0, "ab"), "\x1b[0;0H\x1b[0mab  ");
    assert_eq!(format_row(&c, 1, "abcdef"), "\x1b[1;0H\x1b[0mabcd");
}

#[test]
fn only_as_many_rows_as_lines() {
    let c = viewport(0, 0, 4, 5);
    let out = render(&source(&["ab", "abcdef"]), &c);
    let rows = &out[clear_region(&c).len()..];
    assert_eq!(rows.matches("\x1b[0m").count(), 2);
}

#[test]
fn only_as_many_rows_as_the_viewport_is_high() {
    let c = viewport(3, 7, 2, 2);
    let out = render(&source(&["one", "two", "three", "four"]), &c);
    let clear = "\x1b[7;3H\x1b[0m  \x1b[8;3H\x1b[0m  ";
    let rows = "\x1b[7;3H\x1b[0mon\x1b[8;3H\x1b[0mtw";
    assert_eq!(out, format!("{}{}", clear, rows));
}

#[test]
fn every_row_is_exactly_as_wide_as_the_viewport() {
    let c = viewport(1, 1, 6, 4);
    let lines = source(&["", "x", "exactl", "far too long for it"]);
    let out = render(&lines, &c);
    let rows = &out[clear_region(&c).len()..];
    let texts: Vec<&str> = rows.split("\x1b[0m").skip(1).collect();
    assert_eq!(texts.len(), 4);
    for text in texts {
        let shown = text.split('\x1b').next().unwrap();
        assert_eq!(shown.chars().count(), 6);
    }
}

#[test]
fn rows_come_out_in_ascending_order() {
    let lines: Vec<String> = (0..3000).map(|i| format!("line {}", i)).collect();
    let c = viewport(2, 10, 9, 2500);
    let out = render(&lines, &c);
    let mut expected = String::new();
    for r in 0..2500u32 {
        expected.push_str(&fragment(2, 10 + r, "         "));
    }
    for r in 0..2500u32 {
        expected.push_str(&fragment(2, 10 + r, &format!("{:<9}", format!("line {}", r))));
    }
    assert_eq!(out, expected);
}

#[test]
fn rendering_twice_gives_the_same_bytes() {
    let lines = source(&["alpha", "beta", "gamma"]);
    let c = viewport(4, 2, 3, 8);
    assert_eq!(render(&lines, &c), render(&lines, &c));

    let mut tv = TextView::new_from_lines(&lines);
    tv.set_coordinates(&c);
    let first = tv.get_drawlist();
    tv.refresh();
    assert_eq!(tv.get_drawlist(), first);
    tv.set_coordinates(&c);
    assert_eq!(tv.get_drawlist(), first);
}

#[test]
fn no_rows_without_height() {
    let out = render(&source(&["ab", "cd"]), &viewport(1, 1, 4, 0));
    assert_eq!(out, "");
}

#[test]
fn no_rows_without_width() {
    let out = render(&source(&["ab", "cd"]), &viewport(1, 1, 0, 4));
    assert_eq!(out, "");
}

#[test]
fn no_rows_without_lines() {
    let c = viewport(0, 0, 2, 2);
    let out = render(&Vec::new(), &c);
    assert_eq!(out, "\x1b[0;0H\x1b[0m  \x1b[1;0H\x1b[0m  ");
    assert_eq!(out, clear_region(&c));
}

#[test]
fn clearing_touches_every_row_of_the_viewport() {
    assert_eq!(
        clear_region(&viewport(5, 9, 3, 3)),
        "\x1b[9;5H\x1b[0m   \x1b[10;5H\x1b[0m   \x1b[11;5H\x1b[0m   "
    );
}

#[test]
fn clearing_a_rectangle_without_area_is_empty() {
    assert_eq!(clear_region(&viewport(5, 9, 0, 3)), "");
    assert_eq!(clear_region(&viewport(5, 9, 3, 0)), "");
    assert_eq!(clear_region(&viewport(0, 0, 0, 0)), "");
}

#[test]
fn rows_below_the_last_screen_row_keep_counting() {
    let c = viewport(65535, 65535, 1, 1);
    assert_eq!(format_row(&c, 65535, "z"), "\x1b[131070;65535H\x1b[0mz");
    assert_eq!(format_row(&c, 1, "z"), "\x1b[65536;65535H\x1b[0mz");
}

#[test]
fn the_tallest_viewport_shows_all_lines() {
    let lines = source(&["a", "b", "c"]);
    let c = viewport(0, 65535, 1, 65535);
    let out = render(&lines, &c);
    let rows = "\x1b[65535;0H\x1b[0ma\x1b[65536;0H\x1b[0mb\x1b[65537;0H\x1b[0mc";
    assert!(out.ends_with(rows));
    assert_eq!(out.len(), clear_region(&c).len() + rows.len());
}

#[test]
fn a_tab_is_expanded_before_the_line_is_cut() {
    let mut tv = TextView::new_from_lines(&source(&["a\tb"]));
    assert_eq!(tv.lines()[0], "a    b");
    tv.set_coordinates(&viewport(0, 0, 3, 1));
    assert_eq!(tv.get_drawlist(), "\x1b[0;0H\x1b[0m   \x1b[0;0H\x1b[0ma  ");
}

#[test]
fn rows_keep_their_order_on_many_threads() {
    let lines: Vec<String> = (0..5000).map(|i| format!("{}", i)).collect();
    let c = viewport(0, 0, 4, 5000);
    let pool = rayon::ThreadPoolBuilder::new().num_threads(8).build().unwrap();
    let out = pool.install(|| render(&lines, &c));
    let rows = &out[clear_region(&c).len()..];
    let mut expected = String::new();
    for r in 0..5000u32 {
        expected.push_str(&fragment(0, r, &format!("{:<4}", r)));
    }
    assert_eq!(rows, expected);
}
