use image_viewer::aspect::{aspect_fit, Ratio, Scale};
use image_viewer::error::ViewerError;
use image_viewer::image_renderer::{BufferData, ImageRenderer};
use image_viewer::signature::{FileSignature, Timestamp};
use image_viewer::state::{Key, Reaction, POLL_INTERVAL_NANOS};
use image_viewer::texture::Texture;
use image_viewer::viewer::{AppData, TextureFile};

fn renderer() -> ImageRenderer {
    ImageRenderer::new(1, 2, BufferData { buffer: 3, vertex_array: 4 })
}

fn sig(len: u64) -> FileSignature {
    FileSignature::new(Some(Timestamp { nanos: 1_000 }), Some(Timestamp { nanos: 500 }), len)
}

/// A picture named after its handle: `10` is `10.png`, 10 pixels wide and 20 high.
fn file(id: u32) -> TextureFile {
    TextureFile {
        texture: Texture::from_file(id, id, 20),
        path: format!("{id}.png"),
        sig: sig(id as u64),
    }
}

fn viewer(ids: &[u32]) -> AppData {
    AppData::new(ids.iter().map(|id| file(*id)).collect(), renderer()).unwrap()
}

fn order(app: &AppData) -> Vec<u32> {
    app.image_paths().iter().map(|f| f.texture.texture_id).collect()
}

const A: u32 = 10;
const B: u32 = 11;
const C: u32 = 12;

#[test]
fn viewer_starts_on_the_first_picture() {
    let app = viewer(&[A, B, C]);
    assert_eq!(app.current_image_index(), 0);
    assert_eq!(app.image_count(), 3);
    assert_eq!(app.window_size(), [1, 1]);
    assert_eq!(app.cursor_position(), [0, 0]);
    assert_eq!(app.current_image_path(), "10.png");
    assert_eq!(app.current_texture(), Texture { texture_id: A, size: [10, 20] });
    assert_eq!(app.current_signature(), sig(10));
    assert_eq!(order(&app), vec![A, B, C]);
    let r = app.renderer();
    assert!(r.image_renderer.texture_loaded);
    assert_eq!(r.image_renderer.texture, A);
    assert_eq!(r.get_image_size(), [10, 20]);
    assert_eq!(r.window_size, [1, 1]);
    // 1 x 1 window, 10 x 20 picture: the view is wider than the picture
    assert_eq!(r.image_renderer.scale, Scale { x: Ratio { num: 10, den: 20 }, y: Ratio { num: 1, den: 1 } });
}

#[test]
fn viewer_without_pictures_is_refused() {
    assert_eq!(AppData::new(Vec::new(), renderer()).err(), Some(ViewerError::NoImages));
}

#[test]
fn viewer_whose_first_picture_has_no_area_is_refused() {
    let mut first = file(A);
    first.texture = Texture::from_file(A, 0, 20);
    assert_eq!(AppData::new(vec![first, file(B)], renderer()).err(), Some(ViewerError::EmptyImage));
}

#[test]
fn cycle_wraps_around_in_both_directions() {
    let mut app = viewer(&[A, B, C]);
    assert_eq!(app.cycle_left(), Ok(()));
    assert_eq!(app.current_image_index(), 2);
    assert_eq!(app.cycle_left(), Ok(()));
    assert_eq!(app.current_image_index(), 1);
    assert_eq!(app.cycle_right(), Ok(()));
    assert_eq!(app.current_image_index(), 2);
    assert_eq!(app.cycle_right(), Ok(()));
    assert_eq!(app.current_image_index(), 0);
    assert_eq!(order(&app), vec![A, B, C]);
}

#[test]
fn cycle_shows_the_new_current_picture() {
    let mut app = viewer(&[A, B, C]);
    app.cycle_right().unwrap();
    assert_eq!(app.current_image_path(), "11.png");
    assert_eq!(app.renderer().image_renderer.texture, B);
    assert_eq!(app.renderer().get_image_size(), [11, 20]);
    app.cycle_left().unwrap();
    app.cycle_left().unwrap();
    assert_eq!(app.current_image_path(), "12.png");
    assert_eq!(app.renderer().image_renderer.texture, C);
    assert_eq!(app.renderer().get_image_size(), [12, 20]);
}

#[test]
fn cycle_in_a_list_of_one_stays() {
    let mut app = viewer(&[A]);
    assert_eq!(app.cycle_left(), Ok(()));
    assert_eq!(app.current_image_index(), 0);
    assert_eq!(app.cycle_right(), Ok(()));
    assert_eq!(app.current_image_index(), 0);
}

#[test]
fn cycle_onto_a_picture_without_area_keeps_what_was_shown() {
    let mut bad = file(B);
    bad.texture = Texture::from_file(B, 5, 0);
    let mut app = AppData::new(vec![file(A), bad, file(C)], renderer()).unwrap();
    let before = app.renderer();
    assert_eq!(app.cycle_right(), Err(ViewerError::EmptyImage));
    assert_eq!(app.current_image_index(), 1);
    assert_eq!(app.renderer(), before);
    assert_eq!(app.cycle_right(), Ok(()));
    assert_eq!(app.renderer().image_renderer.texture, C);
}

#[test]
fn shift_right_takes_the_current_picture_along() {
    let mut app = viewer(&[A, B, C]);
    let shown = app.renderer();
    app.shift_right();
    assert_eq!(order(&app), vec![B, A, C]);
    assert_eq!(app.current_image_index(), 1);
    assert_eq!(app.current_image_path(), "10.png");
    assert_eq!(app.renderer(), shown);
}

#[test]
fn shift_right_from_the_last_place_goes_to_the_first() {
    let mut app = viewer(&[A, B, C]);
    app.cycle_left().unwrap();
    app.shift_right();
    assert_eq!(order(&app), vec![C, B, A]);
    assert_eq!(app.current_image_index(), 0);
    assert_eq!(app.current_image_path(), "12.png");
}

#[test]
fn shift_left_takes_the_current_picture_along() {
    let mut app = viewer(&[A, B, C]);
    app.shift_left();
    assert_eq!(order(&app), vec![C, B, A]);
    assert_eq!(app.current_image_index(), 2);
    assert_eq!(app.current_image_path(), "10.png");
    app.shift_left();
    assert_eq!(order(&app), vec![C, A, B]);
    assert_eq!(app.current_image_index(), 1);
}

#[test]
fn shift_there_and_back_changes_nothing() {
    let mut app = viewer(&[A, B, C]);
    app.cycle_right().unwrap();
    app.shift_right();
    app.shift_left();
    assert_eq!(order(&app), vec![A, B, C]);
    assert_eq!(app.current_image_index(), 1);
    app.shift_left();
    app.shift_right();
    assert_eq!(order(&app), vec![A, B, C]);
    assert_eq!(app.current_image_index(), 1);
}

#[test]
fn swap_exchanges_two_places() {
    let mut app = viewer(&[A, B, C]);
    app.swap_image_positions(2, 0);
    assert_eq!(order(&app), vec![C, B, A]);
    app.swap_image_positions(1, 1);
    assert_eq!(order(&app), vec![C, B, A]);
    app.swap_image_positions(1, 2);
    assert_eq!(order(&app), vec![C, A, B]);
    assert_eq!(app.current_image_index(), 0);
}

#[test]
fn drop_at_the_last_place_wraps_to_the_first() {
    let mut app = viewer(&[A, B, C]);
    app.cycle_left().unwrap();
    assert_eq!(app.current_image_index(), 2);
    assert_eq!(app.drop_current(), Ok(()));
    assert_eq!(order(&app), vec![A, B]);
    assert_eq!(app.current_image_index(), 0);
    assert_eq!(app.renderer().image_renderer.texture, A);
}

#[test]
fn drop_in_the_middle_moves_on_to_the_next_picture() {
    let mut app = viewer(&[A, B, C]);
    app.cycle_right().unwrap();
    assert_eq!(app.drop_current(), Ok(()));
    assert_eq!(order(&app), vec![A, C]);
    assert_eq!(app.current_image_index(), 1);
    assert_eq!(app.current_image_path(), "12.png");
    assert_eq!(app.renderer().image_renderer.texture, C);
}

#[test]
fn drop_of_the_only_picture_is_refused() {
    let mut app = viewer(&[A, B]);
    assert_eq!(app.drop_current(), Ok(()));
    assert_eq!(order(&app), vec![B]);
    assert_eq!(app.drop_current(), Err(ViewerError::SoleImage));
    assert_eq!(order(&app), vec![B]);
    assert_eq!(app.current_image_index(), 0);
    assert_eq!(app.renderer().image_renderer.texture, B);
}

#[test]
fn drop_onto_a_picture_without_area_keeps_what_was_shown() {
    let mut bad = file(B);
    bad.texture = Texture::from_file(B, 0, 0);
    let mut app = AppData::new(vec![file(A), bad], renderer()).unwrap();
    assert_eq!(app.drop_current(), Err(ViewerError::EmptyImage));
    assert_eq!(order(&app), vec![B]);
    assert_eq!(app.renderer().image_renderer.texture, A);
}

#[test]
fn resize_fits_the_picture_again() {
    let mut app = viewer(&[A]);
    app.resize_window([100, 20]);
    assert_eq!(app.window_size(), [100, 20]);
    assert_eq!(app.renderer().window_size, [100, 20]);
    // w * ih = 2000, iw * h = 200: the view is wider than the picture
    assert_eq!(
        app.renderer().image_renderer.scale,
        Scale { x: Ratio { num: 200, den: 2000 }, y: Ratio { num: 1, den: 1 } }
    );
}

#[test]
fn file_is_looked_at_once_a_second() {
    let mut app = viewer(&[A]);
    let frame = 1_000_000_000 / 60;
    for _ in 0..60 {
        assert!(!app.update(frame));
    }
    // sixty frames are 999,999,960 ns: the next one crosses the second
    assert!(app.update(frame));
    for _ in 0..60 {
        assert!(!app.update(frame));
    }
    assert!(app.update(frame));
}

#[test]
fn a_full_interval_at_once_is_due_at_once() {
    let mut app = viewer(&[A]);
    assert_eq!(POLL_INTERVAL_NANOS, 1_000_000_000);
    assert!(app.update(POLL_INTERVAL_NANOS));
    assert!(!app.update(POLL_INTERVAL_NANOS - 1));
    assert!(app.update(1));
    assert!(!app.update(0));
    assert!(app.update(u64::MAX));
    assert!(!app.update(999_999_999));
    assert!(app.update(u64::MAX));
}

#[test]
fn what_goes_over_the_interval_is_dropped() {
    let mut app = viewer(&[A]);
    assert!(app.update(1_700_000_000));
    assert!(!app.update(999_999_999));
}

#[test]
fn unchanged_file_is_not_read_again() {
    let mut app = viewer(&[A, B]);
    assert!(!app.file_probed(Some(sig(10))));
    assert!(!app.file_probed(None));
    assert_eq!(app.current_signature(), sig(10));
}

#[test]
fn changed_file_is_read_again_and_shown() {
    let mut app = viewer(&[A, B]);
    app.resize_window([100, 100]);
    assert!(app.file_probed(Some(sig(77))));
    assert_eq!(app.current_signature(), sig(77));
    assert!(app.texture_reloaded(Some([50, 100])));
    assert_eq!(app.current_texture(), Texture { texture_id: A, size: [50, 100] });
    assert_eq!(app.renderer().get_image_size(), [50, 100]);
    // w * ih = 10000, iw * h = 5000: the view is wider than the picture
    assert_eq!(
        app.renderer().image_renderer.scale,
        Scale { x: Ratio { num: 5000, den: 10000 }, y: Ratio { num: 1, den: 1 } }
    );
    assert_eq!(order(&app), vec![A, B]);
    assert!(!app.file_probed(Some(sig(77))));
}

#[test]
fn failed_reload_keeps_the_picture_and_is_not_repeated() {
    let mut app = viewer(&[A, B]);
    let shown = app.renderer();
    let texture = app.current_texture();
    assert!(app.file_probed(Some(sig(77))));
    assert!(!app.texture_reloaded(None));
    assert_eq!(app.current_signature(), sig(77));
    assert_eq!(app.current_texture(), texture);
    assert_eq!(app.renderer(), shown);
    assert_eq!(app.current_image_path(), "10.png");
    // the same bad file is not tried again
    assert!(!app.file_probed(Some(sig(77))));
    // until it changes once more
    assert!(app.file_probed(Some(sig(78))));
}

#[test]
fn reloaded_picture_without_area_counts_as_a_failure() {
    let mut app = viewer(&[A]);
    let shown = app.renderer();
    assert!(app.file_probed(Some(sig(77))));
    assert!(!app.texture_reloaded(Some([0, 100])));
    assert_eq!(app.current_texture(), Texture { texture_id: A, size: [10, 20] });
    assert_eq!(app.renderer(), shown);
}

#[test]
fn reloaded_picture_stays_in_its_texture() {
    let mut app = viewer(&[A, B, C]);
    app.cycle_right().unwrap();
    assert!(app.file_probed(Some(sig(1))));
    assert!(app.texture_reloaded(Some([3, 4])));
    assert_eq!(app.current_texture(), Texture { texture_id: B, size: [3, 4] });
    assert_eq!(app.renderer().image_renderer.texture, B);
    assert_eq!(order(&app), vec![A, B, C]);
    assert_eq!(app.current_image_path(), "11.png");
    assert_eq!(app.image_paths()[0].texture, Texture { texture_id: A, size: [10, 20] });
    assert_eq!(app.image_paths()[2].texture, Texture { texture_id: C, size: [12, 20] });
}

#[test]
fn reloaded_picture_too_large_for_a_signed_size_counts_as_a_failure() {
    let mut app = viewer(&[A]);
    let shown = app.renderer();
    assert!(!app.texture_reloaded(Some([0x8000_0000, 1])));
    assert!(!app.texture_reloaded(Some([1, u32::MAX])));
    assert_eq!(app.renderer(), shown);
    assert!(app.texture_reloaded(Some([i32::MAX as u32, 1])));
    assert_eq!(app.renderer().get_image_size(), [i32::MAX, 1]);
}

#[test]
fn only_the_current_file_is_on_record_anew() {
    let mut app = viewer(&[A, B]);
    assert!(app.file_probed(Some(sig(77))));
    app.cycle_right().unwrap();
    assert_eq!(app.current_signature(), sig(11));
    app.cycle_left().unwrap();
    assert_eq!(app.current_signature(), sig(77));
}

#[test]
fn title_names_path_size_place_and_cursor() {
    let mut app = viewer(&[A, B, C]);
    assert_eq!(app.new_window_title(), "10.png | 10x20 | 1/3 | (0,0)");
    app.set_cursor_position([-5, 120]);
    assert_eq!(app.cursor_position(), [-5, 120]);
    assert_eq!(app.new_window_title(), "10.png | 10x20 | 1/3 | (-5,120)");
    app.cycle_left().unwrap();
    assert_eq!(app.new_window_title(), "12.png | 12x20 | 3/3 | (-5,120)");
    app.drop_current().unwrap();
    assert_eq!(app.new_window_title(), "10.png | 10x20 | 1/2 | (-5,120)");
}

#[test]
fn title_shows_the_size_of_what_is_shown() {
    let mut bad = file(B);
    bad.texture = Texture::from_file(B, 0, 0);
    let mut app = AppData::new(vec![file(A), bad], renderer()).unwrap();
    assert_eq!(app.cycle_right(), Err(ViewerError::EmptyImage));
    assert_eq!(app.new_window_title(), "11.png | 10x20 | 2/2 | (0,0)");
}

fn quiet() -> Reaction {
    Reaction { exit: false, retitle: false, redraw: false, refused: None }
}

#[test]
fn escape_ends_the_viewer() {
    let mut app = viewer(&[A, B, C]);
    assert_eq!(app.keyboard_input(Key::Escape, true, false), Reaction { exit: true, ..quiet() });
    assert_eq!(app.keyboard_input(Key::Escape, true, true), Reaction { exit: true, ..quiet() });
    assert_eq!(app.current_image_index(), 0);
}

#[test]
fn released_keys_do_nothing() {
    let mut app = viewer(&[A, B, C]);
    for key in [Key::Escape, Key::Left, Key::Right, Key::X, Key::Other] {
        for shift in [false, true] {
            assert_eq!(app.keyboard_input(key, false, shift), quiet());
        }
    }
    assert_eq!(order(&app), vec![A, B, C]);
    assert_eq!(app.current_image_index(), 0);
}

#[test]
fn arrows_step_through_the_pictures() {
    let mut app = viewer(&[A, B, C]);
    let stepped = Reaction { retitle: true, redraw: true, ..quiet() };
    assert_eq!(app.keyboard_input(Key::Left, true, false), stepped);
    assert_eq!(app.current_image_index(), 2);
    assert_eq!(app.keyboard_input(Key::Right, true, false), stepped);
    assert_eq!(app.current_image_index(), 0);
    assert_eq!(app.keyboard_input(Key::Right, true, false), stepped);
    assert_eq!(app.current_image_index(), 1);
    assert_eq!(order(&app), vec![A, B, C]);
}

#[test]
fn arrows_with_shift_move_the_current_picture() {
    let mut app = viewer(&[A, B, C]);
    let moved = Reaction { retitle: true, ..quiet() };
    assert_eq!(app.keyboard_input(Key::Right, true, true), moved);
    assert_eq!(order(&app), vec![B, A, C]);
    assert_eq!(app.current_image_index(), 1);
    assert_eq!(app.keyboard_input(Key::Left, true, true), moved);
    assert_eq!(order(&app), vec![A, B, C]);
    assert_eq!(app.current_image_index(), 0);
}

#[test]
fn x_drops_the_current_picture() {
    let mut app = viewer(&[A, B]);
    let dropped = Reaction { retitle: true, redraw: true, ..quiet() };
    assert_eq!(app.keyboard_input(Key::X, true, false), dropped);
    assert_eq!(order(&app), vec![B]);
    assert_eq!(
        app.keyboard_input(Key::X, true, false),
        Reaction { refused: Some(ViewerError::SoleImage), ..dropped }
    );
    assert_eq!(order(&app), vec![B]);
}

#[test]
fn step_onto_a_picture_without_area_is_reported() {
    let mut bad = file(B);
    bad.texture = Texture::from_file(B, 0, 0);
    let mut app = AppData::new(vec![file(A), bad], renderer()).unwrap();
    assert_eq!(
        app.keyboard_input(Key::Right, true, false),
        Reaction { exit: false, retitle: true, redraw: true, refused: Some(ViewerError::EmptyImage) }
    );
    assert_eq!(app.current_image_index(), 1);
}

#[test]
fn other_keys_do_nothing() {
    let mut app = viewer(&[A, B, C]);
    assert_eq!(app.keyboard_input(Key::Other, true, false), quiet());
    assert_eq!(app.keyboard_input(Key::Other, true, true), quiet());
    assert_eq!(order(&app), vec![A, B, C]);
}

fn assert_fitted(app: &AppData) {
    let r = app.renderer();
    assert_eq!(r.window_size, app.window_size());
    assert_eq!(r.scale, Scale::identity());
    assert!(r.image_renderer.texture_loaded);
    assert_eq!(r.image_renderer.scale, aspect_fit(r.window_size, r.get_image_size()));
    assert!(app.current_image_index() < app.image_count());
}

#[test]
fn what_is_shown_is_fitted_after_every_step() {
    let mut app = viewer(&[A, B, C]);
    assert_fitted(&app);
    app.resize_window([1920, 1080]);
    assert_fitted(&app);
    app.cycle_right().unwrap();
    assert_fitted(&app);
    app.shift_left();
    assert_fitted(&app);
    app.update(2_000_000_000);
    assert!(app.file_probed(Some(sig(99))));
    assert_fitted(&app);
    assert!(!app.texture_reloaded(None));
    assert_fitted(&app);
    assert!(app.file_probed(Some(sig(100))));
    assert!(app.texture_reloaded(Some([3000, 10])));
    assert_fitted(&app);
    assert_eq!(app.renderer().get_image_size(), [3000, 10]);
    app.resize_window([7, 900]);
    assert_fitted(&app);
    app.drop_current().unwrap();
    assert_fitted(&app);
    app.keyboard_input(Key::Left, true, false);
    assert_fitted(&app);
    app.keyboard_input(Key::X, true, false);
    assert_fitted(&app);
    assert_eq!(app.keyboard_input(Key::X, true, false).refused, Some(ViewerError::SoleImage));
    assert_fitted(&app);
    app.set_cursor_position([3, 4]);
    assert_fitted(&app);
}
