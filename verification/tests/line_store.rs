use textview::coordinates::Coordinates;
use textview::lines::{expand_line, TAB_WIDTH};
use textview::textview::TextView;
use textview::widget::Widget;

#[test]
fn a_tab_becomes_four_spaces() {
    assert_eq!(TAB_WIDTH, 4);
    assert_eq!(expand_line("\t"), "    ");
}

#[test]
fn one_tab_inside_a_line() {
    assert_eq!(expand_line("fn\tmain"), "fn    main");
}

#[test]
fn a_line_without_tabs_is_kept() {
    assert_eq!(expand_line("no tabs here"), "no tabs here");
    assert_eq!(expand_line(""), "");
}

#[test]
fn every_tab_is_expanded() {
    assert_eq!(expand_line("\ta\t\tb\t"), "    a        b    ");
}

#[test]
fn other_white_space_is_kept() {
    assert_eq!(expand_line(" a\u{b}b\r"), " a\u{b}b\r");
}

#[test]
fn lines_are_stored_in_source_order() {
    let source = vec!["first".to_string(), "\tsecond".to_string(), "".to_string(), "fourth\t".to_string()];
    let tv = TextView::new_from_lines(&source);
    assert_eq!(
        *tv.lines(),
        vec!["first".to_string(), "    second".to_string(), "".to_string(), "fourth    ".to_string()]
    );
}

#[test]
fn no_stored_line_holds_a_tab() {
    let source = vec!["\t\t".to_string(), "a\tb\tc".to_string(), "plain".to_string()];
    let tv = TextView::new_from_lines(&source);
    assert!(tv.lines().iter().all(|l| !l.contains('\t')));
}

#[test]
fn a_new_viewer_has_drawn_nothing() {
    let tv = TextView::new_from_lines(&vec!["text".to_string()]);
    assert_eq!(tv.get_drawlist(), "");
    assert_eq!(*tv.get_coordinates(), Coordinates::new());
}

#[test]
fn an_empty_source_gives_an_empty_store() {
    let tv = TextView::new_from_lines(&Vec::new());
    assert!(tv.lines().is_empty());
}
