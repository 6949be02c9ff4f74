use wasm_game_lib::canvas::LineCap;
use wasm_game_lib::canvas::LineJoin;
use wasm_game_lib::color::Color;
use wasm_game_lib::font::font_family_name;
use wasm_game_lib::font::Font;
use wasm_game_lib::text::split_lines;
use wasm_game_lib::text::Text;
use wasm_game_lib::text::TextStyle;

#[test]
fn font_presets_carry_their_family_names() {
    assert_eq!(Font::sherif().name, "sherif");
    assert_eq!(Font::arial().name, "Arial");
    assert_eq!(Font::times_new_roman().name, "Times New Roman");
    assert_eq!(Font::times().name, "Times");
    assert_eq!(Font::courier_new().name, "Courier New");
    assert_eq!(Font::courier().name, "Courier");
    assert_eq!(Font::verdana().name, "Verdana");
    assert_eq!(Font::georgia().name, "Georgia");
    assert_eq!(Font::palatino().name, "Palatino");
    assert_eq!(Font::garamond().name, "Garamond");
    assert_eq!(Font::bookman().name, "Bookman");
    assert_eq!(Font::comic_sans_ms().name, "Comic Sans MS");
    assert_eq!(Font::candara().name, "Candara");
    assert_eq!(Font::helvetica().name, "Helvetica");
    assert_eq!(Font::arial_black().name, "Arial Black");
    assert_eq!(Font::impact().name, "Impact");
}

#[test]
fn family_name_is_one_letter_per_byte() {
    assert_eq!(font_family_name(&vec![0, 1, 25, 26, 255]), "abzav");
    assert_eq!(font_family_name(&vec![]), "");
    assert_eq!(font_family_name(&vec![7; 25]).len(), 25);
}

#[test]
fn text_new_uses_defaults() {
    let text = Text::new(Font::arial());
    assert_eq!(text.coords, (0, 0));
    assert_eq!(text.font.name, "Arial");
    assert_eq!(text.text, "");
    assert!(!text.style.italic && !text.style.bold && !text.style.underlined);
    assert_eq!(text.style.color, Color::black());
    assert_eq!(text.character_size.0, 26);
    assert_eq!(text.character_size.1, "px");
}

#[test]
fn text_setters_replace_text_and_style() {
    let mut text = Text::new_with_text_and_coords(Font::times(), String::from("hi"), (4, 5));
    assert_eq!(text.text, "hi");
    assert_eq!(text.coords, (4, 5));
    text.set_text(String::from("bye"));
    assert_eq!(text.text, "bye");
    let style = TextStyle { italic: true, bold: false, underlined: false, color: Color::red() };
    text.set_style(style);
    assert!(text.style.italic);
    assert_eq!(text.style.color, Color::red());
}

#[test]
fn font_string_names_style_size_and_family() {
    let style = TextStyle { italic: true, bold: true, underlined: false, color: Color::black() };
    let text = Text::new_with_options(
        Font::arial(),
        String::from("hello"),
        (0, 0),
        style,
        (14, String::from("px")),
    );
    assert_eq!(text.font_string(), "italic bold 14px 'Arial'");

    let plain = Text::new(Font::georgia());
    assert_eq!(plain.font_string(), "26px 'Georgia'");
}

#[test]
fn line_y_steps_down_by_character_size() {
    let text = Text::new_with_text_and_coords(Font::arial(), String::from("a\nb\nc"), (10, 100));
    assert_eq!(text.line_y(0), 100);
    assert_eq!(text.line_y(2), 152);
}

#[test]
fn split_lines_cuts_at_newlines() {
    assert_eq!(split_lines("one\ntwo\nthree"), vec!["one", "two", "three"]);
    assert_eq!(split_lines(""), vec![""]);
    assert_eq!(split_lines("solo"), vec!["solo"]);
    assert_eq!(split_lines("end\n"), vec!["end", ""]);
    assert_eq!(split_lines("\n"), vec!["", ""]);
}

#[test]
fn line_cap_and_join_names() {
    assert_eq!(LineCap::Butt.to_string(), "butt");
    assert_eq!(LineCap::Round.to_string(), "round");
    assert_eq!(LineCap::Square.to_string(), "square");
    assert_eq!(LineJoin::Miter.to_string(), "miter");
    assert_eq!(LineJoin::Round.to_string(), "round");
    assert_eq!(LineJoin::Bevel.to_string(), "bevel");
}

#[test]
fn text_style_default_is_plain_black() {
    let style = TextStyle::default();
    assert!(!style.italic && !style.bold && !style.underlined);
    assert_eq!(style.color, Color::black());
}
