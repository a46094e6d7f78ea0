use sdl_shim::backend::{choose_window, same_text, Selection, Unimplemented};

#[test]
fn desktop_session_selects_wayland() {
    assert_eq!(choose_window(Some("wayland")), Selection::Wayland);
}

#[test]
fn console_session_selects_drm() {
    assert_eq!(choose_window(Some("tty")), Selection::Drm);
}

#[test]
fn absent_session_type_selects_drm() {
    assert_eq!(choose_window(None), Selection::Drm);
}

#[test]
fn x11_session_is_refused() {
    assert_eq!(choose_window(Some("x11")), Selection::FatalX11);
}

#[test]
fn any_other_session_is_refused_as_unknown() {
    assert_eq!(choose_window(Some("mir")), Selection::FatalUnknown);
    assert_eq!(choose_window(Some("")), Selection::FatalUnknown);
    assert_eq!(choose_window(Some("Wayland")), Selection::FatalUnknown);
    assert_eq!(choose_window(Some("wayland ")), Selection::FatalUnknown);
}

#[test]
fn selection_is_deterministic() {
    for name in ["wayland", "tty", "x11", "other"].iter() {
        assert_eq!(choose_window(Some(*name)), choose_window(Some(*name)));
    }
}

#[test]
fn texts_are_compared_whole() {
    assert!(same_text("type", "type"));
    assert!(!same_text("type", "types"));
    assert!(!same_text("", "type"));
    assert!(same_text("", ""));
}

#[test]
fn left_out_operations_have_their_names() {
    assert_eq!(Unimplemented::JoystickGetAxis.name(), "joystick_get_axis");
    assert_eq!(Unimplemented::JoystickGetButton.name(), "joystick_get_button");
    assert_eq!(Unimplemented::JoystickName.name(), "joystick_name");
    assert_eq!(Unimplemented::JoystickNumAxes.name(), "joystick_num_axes");
    assert_eq!(Unimplemented::JoystickNumButtons.name(), "joystick_num_buttons");
    assert_eq!(Unimplemented::JoystickOpen.name(), "joystick_open");
}
