use minifb::buffer_helper::check_buffer_size;
use minifb::key::Key;
use minifb::key_handler::{KeyHandler, KeyQuery, KeyRepeat};
use minifb::menu::{Menu, MenuItem, MenuItemHandle};
use minifb::mouse_handler::{get_pos, MouseButton, MouseMode};
use minifb::qt_keys::map_key_to_minifb;
use minifb::rate::UpdateRate;
use minifb::scaler::{compose, upscale};
use minifb::window::{scale_of, Event, Scale, ScaleMode, Window, WindowOptions};
use minifb::Error;

fn opts(scale: Scale) -> WindowOptions {
    WindowOptions { scale, ..WindowOptions::default() }
}

#[test]
fn solid_fill_scaled_by_two() {
    let mut w = Window::new("fill", 320, 180, opts(Scale::X2)).unwrap();
    let buf = vec![0x00FF8800u32; 320 * 180];
    assert_eq!(w.update_with_buffer(&buf, 320, 180, 0), Ok(0));
    assert_eq!(w.get_size(), (640, 360));
    let p = w.surface[100 * 640 + 100];
    assert_eq!((p >> 16) & 0xff, 0xFF);
    assert_eq!((p >> 8) & 0xff, 0x88);
    assert_eq!(p & 0xff, 0x00);
}

#[test]
fn escape_then_close() {
    let mut w = Window::new("esc", 64, 32, WindowOptions::default()).unwrap();
    w.handle_event(Event::Key(Key::Escape, true));
    assert!(!w.is_key_down(Key::Escape));
    w.update(1000);
    assert!(w.is_key_down(Key::Escape));
    assert!(w.is_open());
    w.handle_event(Event::Close);
    w.update(2000);
    assert!(!w.is_open());
    let before_now = w.key_handler.now;
    assert_eq!(w.update(3000), 0);
    assert_eq!(w.key_handler.now, before_now);
    let buf = vec![0u32; 64 * 32];
    assert_eq!(w.update_with_buffer(&buf, 64, 32, 4000), Err(Error::UpdateFailed));
}

#[test]
fn mouse_clamped_to_buffer() {
    let mut w = Window::new("mouse", 100, 100, opts(Scale::X1)).unwrap();
    w.handle_event(Event::MouseMove(-5, 200));
    assert_eq!(w.get_mouse_pos(MouseMode::Clamp), Some((0, 99)));
    assert_eq!(w.get_mouse_pos(MouseMode::Discard), None);
    assert_eq!(w.get_mouse_pos(MouseMode::Pass), Some((-5, 200)));
}

#[test]
fn key_repeat_timing() {
    let mut w = Window::new("repeat", 8, 8, WindowOptions::default()).unwrap();
    w.set_key_repeat_delay(250_000);
    w.set_key_repeat_rate(50_000);
    w.handle_event(Event::Key(Key::A, true));
    let mut fired = Vec::new();
    let mut t: u64 = 0;
    while t <= 400_000 {
        w.update(t);
        if w.is_key_pressed(Key::A, KeyRepeat::Yes) {
            fired.push(t);
        }
        t += 10_000;
    }
    assert_eq!(fired, vec![0, 250_000, 300_000, 350_000, 400_000]);
}

#[test]
fn menu_removal_keeps_handles_fresh() {
    let mut w = Window::new("menus", 8, 8, WindowOptions::default()).unwrap();
    let m1 = Menu::new("M1").unwrap();
    let m2 = Menu::new("M2").unwrap();
    let h1 = w.add_menu(&m1);
    let h2 = w.add_menu(&m2);
    w.remove_menu(h1);
    let handles: Vec<_> = w.get_unix_menus().unwrap().iter().map(|m| m.handle).collect();
    assert_eq!(handles, vec![h2]);
    let h3 = w.add_menu(&m1);
    assert_ne!(h3, h1);
    assert!(h1.0 < h2.0 && h2.0 < h3.0);
    w.remove_menu(h1);
    assert_eq!(w.get_unix_menus().unwrap().len(), 2);
}

#[test]
fn stride_slack_is_accepted() {
    let mut w = Window::new("stride", 100, 50, WindowOptions::default()).unwrap();
    let buf: Vec<u32> = (0..128 * 50).map(|i| i as u32).collect();
    assert!(w.update_with_buffer_stride(&buf, 100, 50, 128, 0).is_ok());
    for y in 0..50 {
        assert_eq!(w.surface[y * 100 + 99], buf[128 * y + 99]);
    }
}

#[test]
fn short_buffer_fails_and_leaves_surface() {
    let mut w = Window::new("short", 10, 10, WindowOptions::default()).unwrap();
    let good = vec![7u32; 100];
    w.update_with_buffer(&good, 10, 10, 0).unwrap();
    let short = vec![1u32; 99];
    assert_eq!(w.update_with_buffer(&short, 10, 10, 10), Err(Error::UpdateFailed));
    assert!(w.surface.iter().all(|&p| p == 7));
    assert_eq!(w.key_handler.now, 0);
}

#[test]
fn mismatched_size_fails() {
    let mut w = Window::new("size", 640, 360, WindowOptions::default()).unwrap();
    let buf = vec![0u32; 640 * 360];
    assert_eq!(w.update_with_buffer(&buf, 320, 180, 0), Err(Error::UpdateFailed));
}

#[test]
fn buffer_check_cases() {
    assert_eq!(check_buffer_size(100, 10, 10, 10), Ok(()));
    assert_eq!(check_buffer_size(99, 10, 10, 10), Err(Error::UpdateFailed));
    assert_eq!(check_buffer_size(1000, 11, 10, 10), Err(Error::UpdateFailed));
    assert_eq!(check_buffer_size(0, 10, 0, 10), Ok(()));
    assert_eq!(check_buffer_size(128 * 50, 100, 50, 128), Ok(()));
}

#[test]
fn upscale_repeats_each_pixel() {
    let src = vec![1u32, 2, 9, 3, 4, 9];
    let out = upscale(&src, 2, 2, 3, 2);
    assert_eq!(out, vec![1, 1, 2, 2, 1, 1, 2, 2, 3, 3, 4, 4, 3, 3, 4, 4]);
    for s in [1usize, 2, 4, 8, 16] {
        let out = upscale(&src, 2, 2, 3, s);
        let dw = 2 * s;
        assert_eq!(out.len(), dw * 2 * s);
        for y in 0..2 * s {
            for x in 0..dw {
                assert_eq!(out[y * dw + x], src[(y / s) * 3 + x / s]);
            }
        }
    }
}

#[test]
fn compose_centers_with_background() {
    let img = vec![5u32; 4];
    let out = compose(&img, 2, 2, 4, 4, 1, 1, 0xAB);
    assert_eq!(out, vec![0xAB, 0xAB, 0xAB, 0xAB, 0xAB, 5, 5, 0xAB, 0xAB, 5, 5, 0xAB, 0xAB, 0xAB, 0xAB, 0xAB]);
}

#[test]
fn resized_window_centers_image() {
    let o = WindowOptions { scale_mode: ScaleMode::Center, ..WindowOptions::default() };
    let mut w = Window::new("center", 2, 2, o).unwrap();
    w.set_background_color(0x111111);
    w.handle_event(Event::Resize(4, 4));
    assert_eq!(w.get_size(), (4, 4));
    w.update_with_buffer(&[1, 2, 3, 4], 2, 2, 0).unwrap();
    assert_eq!(w.surface, vec![0x111111, 0x111111, 0x111111, 0x111111, 0x111111, 1, 2, 0x111111, 0x111111, 3, 4, 0x111111, 0x111111, 0x111111, 0x111111, 0x111111]);
    w.handle_event(Event::MouseMove(1, 2));
    assert_eq!(w.get_mouse_pos(MouseMode::Pass), Some((0, 1)));
    assert_eq!(w.get_unscaled_mouse_pos(MouseMode::Pass), Some((1, 2)));
}

#[test]
fn mouse_clamp_stays_in_bounds() {
    for &(x, y) in &[(-1000, -1000), (0, 0), (50, 50), (1000, 7), (i32::MAX, i32::MIN)] {
        let p = get_pos(MouseMode::Clamp, x, y, 0, 0, 2, 30, 20).unwrap();
        assert!(0 <= p.0 && p.0 < 30 && 0 <= p.1 && p.1 < 20);
    }
    assert_eq!(get_pos(MouseMode::Clamp, 3, 3, 0, 0, 1, 0, 5), None);
    assert_eq!(get_pos(MouseMode::Pass, -3, 5, 0, 0, 2, 10, 10), Some((-2, 2)));
    assert_eq!(get_pos(MouseMode::Discard, 19, 19, 0, 0, 2, 10, 10), Some((9, 9)));
    assert_eq!(get_pos(MouseMode::Discard, 20, 19, 0, 0, 2, 10, 10), None);
}

#[test]
fn press_edge_reported_once() {
    let mut h = KeyHandler::new();
    h.set_key_state(Key::Space, true);
    assert!(!h.is_key_down(Key::Space));
    h.update(10);
    assert!(h.is_key_down(Key::Space));
    assert!(h.is_key_pressed(Key::Space, KeyRepeat::No));
    assert!(h.is_key_pressed(Key::Space, KeyRepeat::Yes));
    h.update(20);
    assert!(h.is_key_down(Key::Space));
    assert!(!h.is_key_pressed(Key::Space, KeyRepeat::No));
    h.set_key_state(Key::Space, false);
    h.update(30);
    assert!(!h.is_key_down(Key::Space));
    assert!(h.is_key_released(Key::Space));
    h.update(40);
    assert!(!h.is_key_released(Key::Space));
}

#[test]
fn key_listings_in_table_order() {
    let mut w = Window::new("keys", 4, 4, WindowOptions::default()).unwrap();
    w.handle_event(Event::Key(Key::Z, true));
    w.handle_event(Event::Key(Key::A, true));
    w.update(5);
    assert_eq!(w.get_keys(), Some(vec![Key::A, Key::Z]));
    assert_eq!(w.get_keys_pressed(KeyRepeat::No), Some(vec![Key::A, Key::Z]));
    w.handle_event(Event::Key(Key::A, false));
    w.update(6);
    assert_eq!(w.get_keys(), Some(vec![Key::Z]));
    assert_eq!(w.get_keys_pressed(KeyRepeat::No), Some(vec![]));
    assert_eq!(w.get_keys_released(), Some(vec![Key::A]));
    assert_eq!(w.key_handler.keys_where(KeyQuery::Down), vec![Key::Z]);
}

#[test]
fn key_index_round_trip() {
    for i in 0..minifb::key::KEY_COUNT {
        assert_eq!(Key::from_index(i).to_index(), i);
    }
    assert_eq!(Key::Escape.to_index(), Key::from_index(Key::Escape.to_index()).to_index());
}

#[test]
fn pacing_spaces_frames() {
    let mut r = UpdateRate::new();
    assert_eq!(r.update(100), 0);
    r.set_rate(Some(16_000));
    assert_eq!(r.update(5_100), 11_000);
    assert_eq!(r.prev, 16_100);
    assert_eq!(r.update(40_000), 0);
    assert_eq!(r.prev, 40_000);
    let mut w = Window::new("pace", 4, 4, WindowOptions::default()).unwrap();
    w.limit_update_rate(Some(10_000));
    assert_eq!(w.update(0), 10_000);
    assert_eq!(w.update(10_000), 10_000);
    assert_eq!(w.update(25_000), 5_000);
    assert_eq!(w.update(45_000), 0);
}

#[test]
fn fit_screen_scale_choice() {
    assert_eq!(scale_of(Scale::FitScreen, 320, 180, 1920, 1080), 4);
    assert_eq!(scale_of(Scale::FitScreen, 100, 100, 2400, 2400), 16);
    assert_eq!(scale_of(Scale::FitScreen, 2000, 2000, 1920, 1080), 1);
    assert_eq!(scale_of(Scale::X8, 2000, 2000, 1920, 1080), 8);
    let w = Window::new_for_screen("fit", 320, 180, opts(Scale::FitScreen), 1920, 1080).unwrap();
    assert_eq!(w.get_size(), (1280, 720));
}

#[test]
fn window_create_rejects_huge_sizes() {
    assert!(matches!(Window::new("big", 1 << 28, 4, opts(Scale::X16)), Err(Error::WindowCreate)));
    assert!(Window::new("zero", 0, 0, WindowOptions::default()).is_ok());
}

#[test]
fn menu_items_and_removal() {
    let mut m = Menu::new("File").unwrap();
    let item = MenuItem { id: 7, label: "Open".to_string(), enabled: true, key: Key::O, modifier: 2 };
    let a = m.add_menu_item(&item);
    let sub = Menu::new("Recent").unwrap();
    let b = m.add_sub_menu("Recent", &sub);
    let c = m.add_menu_item(&item);
    assert_eq!((a, b, c), (MenuItemHandle(0), MenuItemHandle(1), MenuItemHandle(2)));
    assert_eq!(m.internal.items[0].handle, a);
    assert_eq!(m.internal.items[0].label, "Open");
    assert!(m.internal.items[1].sub_menu.is_some());
    m.remove_item(&a);
    let left: Vec<_> = m.internal.items.iter().map(|i| i.handle).collect();
    assert_eq!(left, vec![b, c]);
    m.remove_item(&a);
    assert_eq!(m.internal.items.len(), 2);
}

#[test]
fn menu_press_reported_once() {
    let mut w = Window::new("press", 4, 4, WindowOptions::default()).unwrap();
    assert_eq!(w.is_menu_pressed(), None);
    w.handle_event(Event::MenuActivated(3));
    assert_eq!(w.is_menu_pressed(), Some(3));
    assert_eq!(w.is_menu_pressed(), None);
}

#[test]
fn mouse_buttons_scroll_focus_text() {
    let mut w = Window::new("input", 4, 4, WindowOptions::default()).unwrap();
    assert!(!w.is_active());
    w.handle_event(Event::Focus(true));
    assert!(w.is_active());
    w.handle_event(Event::MouseButton(MouseButton::Right, true));
    assert!(w.get_mouse_down(MouseButton::Right));
    assert!(!w.get_mouse_down(MouseButton::Left));
    w.handle_event(Event::Scroll(1, -2));
    w.handle_event(Event::Scroll(i32::MAX, 0));
    w.update(1);
    assert_eq!(w.get_scroll_wheel(), Some((i32::MAX, -2)));
    w.update(2);
    assert_eq!(w.get_scroll_wheel(), None);
    w.handle_event(Event::Char(0x41));
    w.handle_event(Event::Char(0xE9));
    assert_eq!(w.take_chars(), vec![0x41, 0xE9]);
    assert!(w.take_chars().is_empty());
    w.handle_event(Event::MouseLeave);
    assert_eq!(w.get_mouse_pos(MouseMode::Pass), None);
}

#[test]
fn qt_key_codes_map_to_keys() {
    assert_eq!(map_key_to_minifb(0x41), Some(Key::A));
    assert_eq!(map_key_to_minifb(0x5a), Some(Key::Z));
    assert_eq!(map_key_to_minifb(0x30), Some(Key::Key0));
    assert_eq!(map_key_to_minifb(0x39), Some(Key::Key9));
    assert_eq!(map_key_to_minifb(0x0100_0030), Some(Key::F1));
    assert_eq!(map_key_to_minifb(0x0100_003e), Some(Key::F15));
    assert_eq!(map_key_to_minifb(0x0100_0000), Some(Key::Escape));
    assert_eq!(map_key_to_minifb(0x20), Some(Key::Space));
    assert_eq!(map_key_to_minifb(0x0100_0020), Some(Key::LeftShift));
    assert_eq!(map_key_to_minifb(0x61), None);
    assert_eq!(map_key_to_minifb(0), None);
}

#[test]
fn top_byte_is_cleared_on_screen() {
    let mut w = Window::new("alpha", 2, 1, opts(Scale::X1)).unwrap();
    w.update_with_buffer(&[0xFF12_3456, 0x0012_3456], 2, 1, 0).unwrap();
    assert_eq!(w.surface, vec![0x0012_3456, 0x0012_3456]);
    let o = WindowOptions { scale_mode: ScaleMode::UpperLeft, ..WindowOptions::default() };
    let mut w = Window::new("bg", 1, 1, o).unwrap();
    w.set_background_color(0xFFAB_CDEF);
    w.handle_event(Event::Resize(2, 1));
    w.update_with_buffer(&[0xEE00_0001], 1, 1, 0).unwrap();
    assert_eq!(w.surface, vec![0x0000_0001, 0x00AB_CDEF]);
}

#[test]
fn scroll_that_cancels_out_is_still_reported() {
    let mut w = Window::new("scroll", 4, 4, WindowOptions::default()).unwrap();
    w.handle_event(Event::Scroll(0, 1));
    w.handle_event(Event::Scroll(0, -1));
    w.update(1);
    assert_eq!(w.get_scroll_wheel(), Some((0, 0)));
    w.update(2);
    assert_eq!(w.get_scroll_wheel(), None);
}

#[test]
fn frame_that_drains_close_completes() {
    let mut w = Window::new("close", 2, 2, WindowOptions::default()).unwrap();
    w.handle_event(Event::Key(Key::Q, true));
    w.handle_event(Event::Close);
    assert!(w.is_open());
    assert_eq!(w.update_with_buffer(&[1, 2, 3, 4], 2, 2, 100), Ok(0));
    assert_eq!(w.surface, vec![1, 2, 3, 4]);
    assert!(w.is_key_down(Key::Q));
    assert!(!w.is_open());
    assert_eq!(w.update(200), 0);
    assert_eq!(w.key_handler.now, 100);
}

#[test]
fn sub_menu_and_window_menu_are_deep_copies() {
    let mut inner = Menu::new("Inner").unwrap();
    let item = MenuItem { id: 4, label: "Deep".to_string(), enabled: false, key: Key::D, modifier: 1 };
    inner.add_menu_item(&item);
    let mut outer = Menu::new("Outer").unwrap();
    outer.add_sub_menu("Inner", &inner);
    inner.add_menu_item(&item);
    let copy = outer.internal.items[0].sub_menu.as_ref().unwrap();
    assert_eq!(copy.name, "Inner");
    assert_eq!(copy.items.len(), 1);
    assert_eq!(copy.items[0].label, "Deep");
    assert_eq!(copy.items[0].id, 4);
    let mut w = Window::new("deep", 4, 4, WindowOptions::default()).unwrap();
    let h = w.add_menu(&outer);
    outer.add_menu_item(&item);
    let stored = &w.get_unix_menus().unwrap()[0];
    assert_eq!(stored.handle, h);
    assert_eq!(stored.items.len(), 1);
    assert_eq!(stored.items[0].sub_menu.as_ref().unwrap().items[0].label, "Deep");
    assert_eq!(outer.internal.handle.0, 0);
}
