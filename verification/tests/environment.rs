use emscripten_functions::decimal::render_i32;
use emscripten_functions::marshal::{bytes_to_string, to_nul_terminated, NulError};
use emscripten_functions::script::run_script_string_reply;
use emscripten_functions::window::{ScreenSize, Window};

#[test]
fn nul_terminated_buffer_is_bytes_plus_terminator() {
    assert_eq!(to_nul_terminated("abc"), Ok(vec![97, 98, 99, 0]));
    assert_eq!(to_nul_terminated(""), Ok(vec![0]));
    assert_eq!(to_nul_terminated("a\0b"), Err(NulError { nul_position: 1 }));
}

#[test]
fn bytes_decode_back_to_the_original_text() {
    assert_eq!(bytes_to_string(b"plain"), "plain");
    // A multibyte character must be decoded, not copied byte for byte.
    assert_eq!(bytes_to_string("é".as_bytes()), "é");
    assert_eq!("é".as_bytes().len(), 2);
}

#[test]
fn script_reply_without_string_representation_is_no_value() {
    assert_eq!(run_script_string_reply(None), None);
}

#[test]
fn script_reply_bytes_become_the_returned_string() {
    assert_eq!(
        run_script_string_reply(Some(b"hi".to_vec())),
        Some("hi".to_string())
    );
}

#[test]
fn window_title_round_trips() {
    let mut window = Window::new(ScreenSize {
        width: 800,
        height: 600,
    });
    assert_eq!(window.get_window_title(), "");
    assert_eq!(window.set_window_title("My Web App"), Ok(()));
    assert_eq!(window.get_window_title(), "My Web App");
}

#[test]
fn window_title_with_nul_byte_is_rejected_and_kept() {
    let mut window = Window::new(ScreenSize {
        width: 800,
        height: 600,
    });
    assert_eq!(window.set_window_title("ok"), Ok(()));
    assert_eq!(
        window.set_window_title("bad\0title"),
        Err(NulError { nul_position: 3 })
    );
    assert_eq!(window.get_window_title(), "ok");
}

#[test]
fn screen_size_is_reported_and_rendered() {
    let mut window = Window::new(ScreenSize {
        width: 800,
        height: 600,
    });
    let size = window.get_screen_size();
    assert_eq!(size, ScreenSize { width: 800, height: 600 });
    assert_eq!(size.to_text(), "800x600");
    assert!(!window.mouse_hidden);
    window.hide_mouse();
    assert!(window.mouse_hidden);
    assert_eq!(window.get_screen_size(), size);
}

#[test]
fn decimal_rendering_matches_expected_text() {
    assert_eq!(render_i32(0), "0");
    assert_eq!(render_i32(7), "7");
    assert_eq!(render_i32(10), "10");
    assert_eq!(render_i32(100), "100");
    assert_eq!(render_i32(-1), "-1");
    assert_eq!(render_i32(2147483647), "2147483647");
    assert_eq!(render_i32(-2147483648), "-2147483648");
}
