use wasm_game_lib::image::Image;
use wasm_game_lib::image::ImageLoadError;
use wasm_game_lib::image::ImageLoadOutcome;

#[test]
fn failed_load_is_an_error_and_no_image() {
    let result = Image::finish_load(ImageLoadOutcome::Failed);
    assert_eq!(result, Err(ImageLoadError::SourceFailed));
}

#[test]
fn successful_load_carries_the_reported_size() {
    let image = Image::finish_load(ImageLoadOutcome::Loaded(640, 480)).unwrap();
    assert_eq!(image.get_width(), 640);
    assert_eq!(image.get_height(), 480);
    assert_eq!(image.get_size(), (640, 480));
}
