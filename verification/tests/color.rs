use wasm_game_lib::color::Color;

#[test]
fn color_to_string() {
    assert_eq!(&Color::purple().to_string(), "rgb(128,0,128)");
}

#[test]
fn color_to_string_smallest_and_largest_channels() {
    assert_eq!(&Color::new(0, 255, 7).to_string(), "rgb(0,255,7)");
    assert_eq!(&Color::black().to_string(), "rgb(0,0,0)");
    assert_eq!(&Color::white().to_string(), "rgb(255,255,255)");
}

#[test]
fn color_to_string_ignores_alpha() {
    assert_eq!(&Color::new_with_alpha(1, 2, 3, 0).to_string(), "rgb(1,2,3)");
}

#[test]
fn color_new_sets_full_alpha() {
    let c = Color::new(10, 20, 30);
    assert_eq!(c.red, 10);
    assert_eq!(c.green, 20);
    assert_eq!(c.blue, 30);
    assert_eq!(c.alpha, 255);
}

#[test]
fn color_presets() {
    assert_eq!(Color::green(), Color::new(0, 128, 0));
    assert_eq!(Color::yellow(), Color::new(255, 255, 0));
    assert_eq!(Color::orange(), Color::new(255, 165, 0));
    assert_eq!(Color::red(), Color::new(255, 0, 0));
    assert_eq!(Color::blue(), Color::new(0, 0, 255));
    assert_eq!(Color::cyan(), Color::new(0, 255, 255));
    assert_eq!(Color::grey(), Color::new(128, 128, 128));
    assert_eq!(Color::pink(), Color::new(255, 192, 203));
    assert_eq!(Color::purple(), Color::new(128, 0, 128));
    assert_eq!(Color::black(), Color::new(0, 0, 0));
    assert_eq!(Color::white(), Color::new(255, 255, 255));
}
