use gifrec::processor::{convert, work};
use gifrec::record::{Bgr8, Image};
use gifrec::recorder::{make_image, Recorder};
use gifrec::selection::{redraw_needed, selection_step, x_color, SelectionAction, SelectionEvent};
use gifrec::utils::{detect_ws, ws, VarError};

fn px(r: u8, g: u8, b: u8) -> Bgr8 {
    Bgr8 { b, g, r }
}

#[test]
fn detect_ws_prefers_wayland() {
    let r = detect_ws(Ok("wayland-0".to_string()), Ok(":0".to_string()));
    assert_eq!(r.unwrap(), ws::Wayland);
}

#[test]
fn detect_ws_empty_wayland_value_still_wayland() {
    let r = detect_ws(Ok(String::new()), Err(VarError::NotPresent));
    assert_eq!(r.unwrap(), ws::Wayland);
}

#[test]
fn detect_ws_x11_when_wayland_absent() {
    let r = detect_ws(Err(VarError::NotPresent), Ok(":0".to_string()));
    assert_eq!(r.unwrap(), ws::X11);
}

#[test]
fn detect_ws_neither_set() {
    let r = detect_ws(Err(VarError::NotPresent), Err(VarError::NotPresent));
    assert!(matches!(r, Err(VarError::NotPresent)));
}

#[test]
fn detect_ws_display_not_unicode() {
    let r = detect_ws(Err(VarError::NotPresent), Err(VarError::NotUnicode(vec![0xff, 0xfe])));
    match r {
        Err(VarError::NotUnicode(b)) => assert_eq!(b, vec![0xff, 0xfe]),
        _ => panic!("expected the error of DISPLAY"),
    }
}

#[test]
fn detect_ws_wayland_not_unicode_wins_over_display() {
    let r = detect_ws(Err(VarError::NotUnicode(vec![0x80])), Ok(":0".to_string()));
    match r {
        Err(VarError::NotUnicode(b)) => assert_eq!(b, vec![0x80]),
        _ => panic!("expected the error of WAYLAND_DISPLAY"),
    }
}

#[test]
fn convert_orders_channels_rgb() {
    let pixels = vec![px(1, 2, 3), px(10, 20, 30), px(255, 0, 128)];
    assert_eq!(convert(&pixels), vec![1, 2, 3, 10, 20, 30, 255, 0, 128]);
}

#[test]
fn convert_empty() {
    let pixels: Vec<Bgr8> = Vec::new();
    assert_eq!(convert(&pixels), Vec::<u8>::new());
}

#[test]
fn work_keeps_id_and_size() {
    let pixels = vec![px(255, 0, 0), px(0, 255, 0), px(0, 0, 255), px(255, 0, 0), px(0, 255, 0), px(0, 0, 255)];
    let img = Image { id: 42, Image: pixels, width: 3, height: 2 };
    let f = work(img);
    assert_eq!(f.id, 42);
    assert_eq!(f.frame.width, 3);
    assert_eq!(f.frame.height, 2);
    assert_eq!(f.frame.transparent, None);
    // one palette index per pixel, not the three RGB bytes
    assert_eq!(f.frame.buffer.len(), 6);
    let palette = f.frame.palette.expect("a local palette");
    assert_eq!(palette.len() % 3, 0);
    // every pixel's index points at its own colour in the palette
    let colours = [(255u8, 0u8, 0u8), (0, 255, 0), (0, 0, 255), (255, 0, 0), (0, 255, 0), (0, 0, 255)];
    for (i, c) in colours.iter().enumerate() {
        let k = f.frame.buffer[i] as usize * 3;
        assert_eq!((palette[k], palette[k + 1], palette[k + 2]), *c);
    }
}

#[test]
fn work_single_colour_image() {
    let img = Image { id: 0, Image: vec![px(7, 7, 7); 4], width: 2, height: 2 };
    let f = work(img);
    assert_eq!(f.frame.buffer, vec![0, 0, 0, 0]);
    let palette = f.frame.palette.unwrap();
    assert_eq!(&palette[0..3], &[7, 7, 7]);
}

#[test]
fn make_image_cuts_size_to_16_bits() {
    let img = make_image(5, vec![px(0, 0, 0); 2], 65538, 1);
    assert_eq!(img.id, 5);
    assert_eq!(img.width, 2);
    assert_eq!(img.height, 1);
    assert_eq!(img.Image.len(), 2);
}

#[test]
fn has_all_pixels_checks_rectangle() {
    let ok = make_image(0, vec![px(0, 0, 0); 6], 3, 2);
    assert!(ok.has_all_pixels());
    let short = make_image(0, vec![px(0, 0, 0); 5], 3, 2);
    assert!(!short.has_all_pixels());
}

#[test]
fn recorder_captures_once_more_after_flag_clears() {
    let mut r = Recorder::start(true);
    let flags = [true, true, false, true];
    let mut ids = Vec::new();
    let mut k = 0;
    while r.is_recording() {
        ids.push(r.step(flags[k]));
        k += 1;
    }
    assert_eq!(ids, vec![0, 1, 2]);
    assert_eq!(r.count, 3);
    assert!(!r.recording);
}

#[test]
fn recorder_not_started_captures_nothing() {
    let r = Recorder::start(false);
    assert!(!r.is_recording());
    assert_eq!(r.count, 0);
}

#[test]
fn selection_motion_draws_from_origin() {
    let a = selection_step(&SelectionEvent::MotionNotify { x_root: 100, y_root: 50 });
    assert_eq!(a, SelectionAction::DrawRectangle { x: 0, y: 0, w: 100, h: 50 });
}

#[test]
fn selection_motion_negative_coordinates_wrap() {
    let a = selection_step(&SelectionEvent::MotionNotify { x_root: -1, y_root: 3 });
    assert_eq!(a, SelectionAction::DrawRectangle { x: 0, y: 0, w: u32::MAX, h: 3 });
}

#[test]
fn selection_press_does_nothing() {
    let a = selection_step(&SelectionEvent::ButtonPress { button: 1, x_root: 10, y_root: 20 });
    assert_eq!(a, SelectionAction::Nothing);
    let b = selection_step(&SelectionEvent::ButtonPress { button: 3, x_root: 10, y_root: 20 });
    assert_eq!(b, SelectionAction::Nothing);
    assert_eq!(selection_step(&SelectionEvent::Other), SelectionAction::Nothing);
}

#[test]
fn redraw_only_with_pending_events() {
    assert!(!redraw_needed(0));
    assert!(redraw_needed(1));
    assert!(redraw_needed(7));
    assert!(!redraw_needed(-1));
}

#[test]
fn x_colours_of_the_windows() {
    assert_eq!(x_color(200, 100, 50), (51200, 25600, 12800));
    assert_eq!(x_color(153, 116, 65), (39168, 29696, 16640));
    assert_eq!(x_color(255, 0, 1), (65280, 0, 256));
}
