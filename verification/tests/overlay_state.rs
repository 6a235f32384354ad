use wshowkeys::cairo_utils::Subpixel;
use wshowkeys::libinput_stuff::{handle_libinput_event, key_direction, LibinputImpl};
use wshowkeys::wsk::{
    global_kind, grow_extent, shm_buffer_layout, shm_name, DirtyAction, FrameAction, GlobalKind, InputEvent,
    KeyDirection, KeyState, KeymapAction, SeatAction, Wsk, WskKeypress,
};

fn press(name: &str, utf8: &str) -> WskKeypress {
    WskKeypress::new(0x61, name.to_string(), utf8.to_string())
}

#[test]
fn default_settings() {
    let w = Wsk::with_default_settings();
    assert_eq!(w.background, 0x000000CC);
    assert_eq!(w.specialfg, 0xAAAAAAFF);
    assert_eq!(w.foreground, 0xFFFFFFFF);
    assert_eq!(w.font, "monospace 24");
    assert_eq!(w.timeout, 1);
    assert!(w.run);
    assert!(w.keys.is_empty());
}

#[test]
fn globals_are_classified() {
    assert_eq!(global_kind("wl_compositor"), GlobalKind::Compositor);
    assert_eq!(global_kind("wl_shm"), GlobalKind::Shm);
    assert_eq!(global_kind("wl_shm_pool"), GlobalKind::ShmPool);
    assert_eq!(global_kind("wl_seat"), GlobalKind::Seat);
    assert_eq!(global_kind("zxdg_output_manager_v1"), GlobalKind::OutputManager);
    assert_eq!(global_kind("zwlr_layer_shell_v1"), GlobalKind::LayerShell);
    assert_eq!(global_kind("wl_output"), GlobalKind::Output);
    assert_eq!(global_kind("wl_data_device_manager"), GlobalKind::Other);
    assert_eq!(global_kind("wl_sh"), GlobalKind::Other);
}

#[test]
fn binding_globals_sets_flags() {
    let mut w = Wsk::new();
    assert!(!w.has_required_globals());
    w.on_global("wl_compositor");
    assert!(w.has_compositor && w.has_surface);
    w.on_global("wl_shm");
    w.on_global("wl_seat");
    assert!(!w.has_required_globals());
    w.on_global("zwlr_layer_shell_v1");
    assert!(w.has_required_globals());
    assert_eq!(w.scale, 0);
    w.on_global("wl_output");
    assert!(w.has_output);
    assert_eq!(w.scale, 1);
    w.on_global("something_else");
    assert!(!w.has_output_manager);
}

#[test]
fn set_dirty_cases() {
    let mut w = Wsk::new();
    assert_eq!(w.set_dirty(), DirtyAction::Nothing);
    assert!(!w.dirty);
    w.has_surface = true;
    assert_eq!(w.set_dirty(), DirtyAction::Render);
    assert!(!w.dirty);
    w.frame_scheduled = true;
    assert_eq!(w.set_dirty(), DirtyAction::Deferred);
    assert!(w.dirty);
}

#[test]
fn configure_keeps_size_and_marks_dirty() {
    let mut w = Wsk::new();
    w.has_surface = true;
    assert_eq!(w.on_configure(300, 40), DirtyAction::Render);
    assert_eq!((w.width, w.height), (300, 40));
}

#[test]
fn closed_stops() {
    let mut w = Wsk::with_default_settings();
    w.on_closed();
    assert!(!w.run);
}

#[test]
fn seat_capabilities() {
    let mut w = Wsk::with_default_settings();
    assert_eq!(w.on_seat_capabilities(2), SeatAction::GetKeyboard);
    assert!(w.has_keyboard);
    assert_eq!(w.on_seat_capabilities(0), SeatAction::Ignore);
    assert!(w.run);
    let mut v = Wsk::with_default_settings();
    assert_eq!(v.on_seat_capabilities(5), SeatAction::NoKeyboard);
    assert!(!v.run);
}

#[test]
fn seat_assignment_failure_stops() {
    let mut w = Wsk::with_default_settings();
    w.on_seat_assigned(true);
    assert!(w.run);
    w.on_seat_assigned(false);
    assert!(!w.run);
}

#[test]
fn keymap_actions() {
    let mut w = Wsk::new();
    assert_eq!(w.on_keymap(false, true), KeymapAction::MapFailed);
    assert_eq!(w.on_keymap(true, false), KeymapAction::WrongFormat);
    assert!(!w.has_xkb_state);
    assert_eq!(w.on_keymap(true, true), KeymapAction::Load);
    assert!(w.has_xkb_state);
}

#[test]
fn output_events() {
    let mut w = Wsk::new();
    w.on_output_geometry(Subpixel::HorizontalBgr);
    assert_eq!(w.subpixel, Some(Subpixel::HorizontalBgr));
    w.on_output_scale(2);
    assert_eq!(w.scale, 2);
}

#[test]
fn key_directions() {
    assert_eq!(key_direction(KeyState::Released), KeyDirection::Up);
    assert_eq!(key_direction(KeyState::Pressed), KeyDirection::Down);
}

#[test]
fn input_ignored_without_xkb_state() {
    let mut w = Wsk::with_default_settings();
    assert_eq!(handle_libinput_event(&mut w, InputEvent::KeyPressed(press("a", "a"))), None);
    assert!(w.keys.is_empty());
}

#[test]
fn key_press_is_recorded_and_marks_dirty() {
    let mut w = Wsk::with_default_settings();
    w.has_xkb_state = true;
    w.has_surface = true;
    assert_eq!(handle_libinput_event(&mut w, InputEvent::KeyPressed(press("a", "a"))), Some(DirtyAction::Render));
    assert_eq!(handle_libinput_event(&mut w, InputEvent::KeyReleased), Some(DirtyAction::Render));
    assert_eq!(handle_libinput_event(&mut w, InputEvent::Other), Some(DirtyAction::Render));
    assert_eq!(w.keys.len(), 1);
    assert_eq!(w.keys[0].name, "a");
    w.frame_scheduled = true;
    assert_eq!(handle_libinput_event(&mut w, InputEvent::KeyPressed(press("Shift_L", ""))), Some(DirtyAction::Deferred));
    assert!(w.dirty);
    assert_eq!(w.keys.len(), 2);
    assert_eq!(w.keys[1].name, "Shift_L");
}

#[test]
fn poll_timeout_depends_on_keys() {
    let mut w = Wsk::with_default_settings();
    assert_eq!(w.poll_timeout(), -1);
    w.keys.push(press("a", "a"));
    assert_eq!(w.poll_timeout(), 100);
}

#[test]
fn labels() {
    let w = Wsk::with_default_settings();
    let l = w.key_label(&press("a", "a"));
    assert_eq!(l.text, "a");
    assert_eq!(l.color, 0xFFFFFFFF);
    let l = w.key_label(&press("Control_L", ""));
    assert_eq!(l.text, "Control_L+");
    assert_eq!(l.color, 0xAAAAAAFF);
}

#[test]
fn extents_grow_side_by_side() {
    assert_eq!(grow_extent(0, 0, 20, 30), (20, 30));
    assert_eq!(grow_extent(20, 30, 15, 10), (35, 30));
    assert_eq!(grow_extent(35, 30, 5, 44), (40, 44));
}

#[test]
fn frame_resizes_then_presents() {
    let mut w = Wsk::with_default_settings();
    w.scale = 2;
    assert_eq!(w.frame_action(200, 60), FrameAction::Resize(100, 30));
    w.on_configure(100, 30);
    assert_eq!(w.frame_action(200, 60), FrameAction::Present(100, 30, 2));
    assert_eq!(w.frame_action(201, 61), FrameAction::Present(100, 30, 2));
    assert_eq!(w.frame_action(204, 60), FrameAction::Resize(102, 30));
}

#[test]
fn frame_detaches_empty_drawing() {
    let w = Wsk::with_default_settings();
    assert_eq!(w.frame_action(0, 0), FrameAction::Detach);
    assert_eq!(w.frame_action(10, 0), FrameAction::Detach);
}

#[test]
fn frame_unknown_scale_is_one() {
    let mut w = Wsk::with_default_settings();
    assert_eq!(w.frame_action(120, 40), FrameAction::Resize(120, 40));
    w.on_configure(120, 40);
    assert_eq!(w.frame_action(120, 40), FrameAction::Present(120, 40, 1));
}

#[test]
fn frame_idle_with_zero_height() {
    let mut w = Wsk::with_default_settings();
    w.on_configure(10, 0);
    assert_eq!(w.frame_action(10, 0), FrameAction::Idle);
}

#[test]
fn shm_layouts() {
    assert_eq!(shm_buffer_layout(100, 30), (400, 12000));
    assert_eq!(shm_buffer_layout(0, 30), (0, 0));
}

#[test]
fn libinput_impl_holds_socket() {
    assert_eq!(LibinputImpl::new(5).user_fd, 5);
}

#[test]
fn shm_names() {
    assert_eq!(shm_name("abc123"), "/wl_shm-abc123");
    assert_eq!(shm_name(""), "/wl_shm-");
}
