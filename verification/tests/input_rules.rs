use tank_game::input::{
    Button, ButtonEvent, Input, MouseButton, Movement, KEY_A, KEY_D, KEY_E, KEY_ESCAPE, KEY_LSHIFT, KEY_NUM0,
    KEY_NUM1, KEY_NUM9, KEY_S, KEY_W, KEY_X, KEY_Z,
};

#[test]
fn init_binds_default_keys() {
    let input = Input::init();
    assert_eq!(input.up.keycode, Some(KEY_W));
    assert_eq!(input.down.keycode, Some(KEY_S));
    assert_eq!(input.left.keycode, Some(KEY_A));
    assert_eq!(input.right.keycode, Some(KEY_D));
    assert_eq!(input.fire.keycode, None);
    assert_eq!(input.fire.mousebutton, Some(MouseButton::Left));
    assert_eq!(input.u0.keycode, Some(KEY_NUM0));
    assert_eq!(input.u1.keycode, Some(KEY_NUM1));
    assert_eq!(input.u9.keycode, Some(KEY_NUM9));
    assert_eq!(input.shift.keycode, Some(KEY_LSHIFT));
    assert_eq!(input.evolve.keycode, Some(KEY_E));
    assert_eq!(input.zoom_in.keycode, Some(KEY_X));
    assert_eq!(input.zoom_out.keycode, Some(KEY_Z));
    assert_eq!(input.mouse_pos, (0, 0));
    assert!(!input.up.is_down && !input.up.just);
}

#[test]
fn key_codes_match_sdl() {
    assert_eq!(KEY_W, 119);
    assert_eq!(KEY_NUM1, 49);
    assert_eq!(KEY_LSHIFT, 1073742049);
    assert_eq!(KEY_ESCAPE, 27);
}

#[test]
fn keydown_marks_only_the_bound_button() {
    let mut input = Input::init();
    input.register_keydown(KEY_W);
    assert!(input.up.is_down);
    assert!(input.up.just);
    assert!(!input.down.is_down && !input.down.just);
    assert!(!input.fire.is_down);
    assert!(input.up.pressed());
}

#[test]
fn keyup_after_refresh_releases() {
    let mut input = Input::init();
    input.register_keydown(KEY_D);
    input.refresh();
    assert!(input.right.is_down);
    assert!(!input.right.just);
    assert!(!input.right.pressed());
    input.register_keyup(KEY_D);
    assert!(!input.right.is_down);
    assert!(input.right.just);
}

#[test]
fn press_then_release_in_one_frame() {
    let mut input = Input::init();
    input.register_keydown(KEY_NUM1 + 2);
    input.register_keyup(KEY_NUM1 + 2);
    assert!(!input.u3.is_down);
    assert!(input.u3.just);
    assert!(!input.u2.just && !input.u4.just);
}

#[test]
fn refresh_clears_just_and_keeps_held() {
    let mut input = Input::init();
    input.register_keydown(KEY_W);
    input.register_keydown(KEY_LSHIFT);
    input.register_mouse_button_down(MouseButton::Left);
    input.refresh();
    assert!(input.up.is_down && input.shift.is_down && input.fire.is_down);
    assert!(!input.up.just && !input.shift.just && !input.fire.just);
}

#[test]
fn mouse_buttons_reach_fire_only() {
    let mut input = Input::init();
    input.register_mouse_button_down(MouseButton::Right);
    assert!(!input.fire.is_down);
    input.register_mouse_button_down(MouseButton::Left);
    assert!(input.fire.is_down && input.fire.just);
    input.refresh();
    input.register_mouse_button_up(MouseButton::Left);
    assert!(!input.fire.is_down && input.fire.just);
}

#[test]
fn unbound_key_changes_nothing() {
    let mut input = Input::init();
    input.register_keydown(KEY_ESCAPE);
    assert!(!input.up.just && !input.down.just && !input.left.just && !input.right.just);
    assert!(!input.fire.just && !input.shift.just && !input.evolve.just);
}

#[test]
fn key_events_do_not_rebind() {
    let mut b = Button::for_key(KEY_W);
    b.handle(ButtonEvent::KeyDown(KEY_W));
    b.handle(ButtonEvent::MouseDown(MouseButton::Left));
    b.handle(ButtonEvent::Refresh);
    b.handle(ButtonEvent::KeyUp(KEY_W));
    assert_eq!(b.keycode, Some(KEY_W));
    assert_eq!(b.mousebutton, None);
    assert!(!b.is_down && b.just);
    let mut m = Button::for_mouse(MouseButton::Middle);
    m.handle(ButtonEvent::KeyDown(KEY_W));
    assert!(!m.is_down && !m.just);
    m.handle(ButtonEvent::MouseDown(MouseButton::Middle));
    assert!(m.is_down && m.just);
    assert_eq!(m.mousebutton, Some(MouseButton::Middle));
}

fn hold(u: bool, d: bool, l: bool, r: bool) -> Input {
    let mut input = Input::init();
    if u {
        input.register_keydown(KEY_W);
    }
    if d {
        input.register_keydown(KEY_S);
    }
    if l {
        input.register_keydown(KEY_A);
    }
    if r {
        input.register_keydown(KEY_D);
    }
    input
}

#[test]
fn movement_diagonals() {
    assert_eq!(hold(true, false, true, false).movement(), Movement::UpLeft);
    assert_eq!(hold(false, true, true, false).movement(), Movement::DownLeft);
    assert_eq!(hold(true, false, false, true).movement(), Movement::UpRight);
    assert_eq!(hold(false, true, false, true).movement(), Movement::DownRight);
}

#[test]
fn movement_straight_and_priority() {
    assert_eq!(hold(true, false, false, false).movement(), Movement::Up);
    assert_eq!(hold(false, true, false, false).movement(), Movement::Down);
    assert_eq!(hold(false, false, true, false).movement(), Movement::Left);
    assert_eq!(hold(false, false, false, true).movement(), Movement::Right);
    assert_eq!(hold(true, true, true, false).movement(), Movement::Up);
    assert_eq!(hold(false, true, true, true).movement(), Movement::Down);
    assert_eq!(hold(false, false, true, true).movement(), Movement::Left);
    assert_eq!(hold(true, true, true, true).movement(), Movement::Up);
}

#[test]
fn movement_brakes_without_keys() {
    assert_eq!(hold(false, false, false, false).movement(), Movement::Brake);
}

#[test]
fn repeated_refresh_changes_nothing() {
    let mut input = Input::init();
    input.register_keydown(KEY_S);
    input.refresh();
    let once = input;
    input.refresh();
    assert_eq!(input.down, once.down);
    assert_eq!(input.up, once.up);
    assert!(input.down.is_down && !input.down.just);
}

#[test]
fn default_bindings_are_distinct() {
    let input = Input::init();
    let buttons = [
        input.up, input.down, input.left, input.right, input.fire, input.u0, input.u1, input.u2,
        input.u3, input.u4, input.u5, input.u6, input.u7, input.u8, input.u9, input.shift,
        input.evolve, input.zoom_in, input.zoom_out,
    ];
    for (i, a) in buttons.iter().enumerate() {
        assert!(a.keycode.is_some() != a.mousebutton.is_some());
        for (j, b) in buttons.iter().enumerate() {
            if i != j {
                assert!(a.keycode.is_none() || a.keycode != b.keycode);
                assert!(a.mousebutton.is_none() || a.mousebutton != b.mousebutton);
            }
        }
    }
}
