use vim_global::{Input, InputAction, Keycode, Mode, PointerInfo, Tick, TickOutput, WindowInfo};

fn at(x: i32, y: i32) -> PointerInfo {
    PointerInfo { root_x: x, root_y: y, win_x: 0, win_y: 0 }
}

fn screen() -> WindowInfo {
    WindowInfo { width: 100, height: 100 }
}

fn run(input: &mut Input, keys: &[Keycode], stored: Mode, current: PointerInfo) -> TickOutput {
    match input.tick(&keys.to_vec(), stored, current, screen()) {
        Tick::Run(out) => out,
        Tick::Quit => panic!("tick ended the loop"),
    }
}

#[test]
fn h_moves_left_by_one() {
    let mut input = Input::new();
    assert_eq!(input.coefficient(), 1);
    let out = run(&mut input, &[Keycode::H], Mode::NORMAL, at(50, 50));
    assert_eq!(out.position, (49, 50));
    assert_eq!(out.mode, Mode::NORMAL);
    assert!(!out.store_mode);
    assert_eq!(out.actions, vec![InputAction::FreezeKeyboard]);
}

#[test]
fn l_with_coefficient_three_clamps_to_width() {
    let mut input = Input::new();
    let first = run(&mut input, &[Keycode::Key3], Mode::NORMAL, at(10, 10));
    assert_eq!(first.position, (10, 10));
    assert_eq!(input.coefficient(), 3);
    let out = run(&mut input, &[Keycode::L], Mode::NORMAL, at(99, 50));
    assert_eq!(out.position, (100, 50));
}

#[test]
fn quit_keys_end_the_loop() {
    let mut input = Input::new();
    input.queue_action(InputAction::ClickMouse);
    let keys = vec![Keycode::Control, Keycode::Super, Keycode::Q];
    assert!(matches!(input.tick(&keys, Mode::NORMAL, at(50, 50), screen()), Tick::Quit));
    // Nothing was handed out or moved: the queued click is still pending.
    let (actions, position) = input.update(at(50, 50), screen());
    assert_eq!(actions, vec![InputAction::ClickMouse]);
    assert_eq!(position, (50, 50));
}

#[test]
fn insert_mode_releases_grab_and_does_not_move() {
    let mut input = Input::new();
    let keys = [Keycode::I, Keycode::H, Keycode::L, Keycode::J, Keycode::K, Keycode::Key3];
    let out = run(&mut input, &keys, Mode::NORMAL, at(50, 50));
    assert_eq!(out.mode, Mode::INSERT);
    assert!(out.store_mode);
    assert_eq!(out.actions, vec![InputAction::UnfreezeKeyboard]);
    assert_eq!(out.position, (50, 50));
    assert_eq!(input.coefficient(), 1);
    let next = run(&mut input, &[Keycode::H, Keycode::J], Mode::INSERT, at(50, 50));
    assert_eq!(next.actions, vec![InputAction::UnfreezeKeyboard]);
    assert_eq!(next.position, (50, 50));
    assert!(!next.store_mode);
}

#[test]
fn escape_with_control_returns_to_normal() {
    let mut input = Input::new();
    let out = run(&mut input, &[Keycode::Escape, Keycode::Control], Mode::INSERT, at(5, 5));
    assert_eq!(out.mode, Mode::NORMAL);
    assert!(out.store_mode);
    assert_eq!(out.actions, vec![InputAction::FreezeKeyboard]);
}

#[test]
fn escape_alone_keeps_insert() {
    let mut input = Input::new();
    let out = run(&mut input, &[Keycode::Escape], Mode::INSERT, at(5, 5));
    assert_eq!(out.mode, Mode::INSERT);
    assert!(!out.store_mode);
}

#[test]
fn normal_request_wins_over_insert() {
    let mut input = Input::new();
    let keys = [Keycode::I, Keycode::Escape, Keycode::Control];
    let out = run(&mut input, &keys, Mode::INSERT, at(5, 5));
    assert_eq!(out.mode, Mode::NORMAL);
}

#[test]
fn space_clicks_before_grab() {
    let mut input = Input::new();
    let out = run(&mut input, &[Keycode::Space], Mode::NORMAL, at(5, 5));
    assert_eq!(out.actions, vec![InputAction::ClickMouse, InputAction::FreezeKeyboard]);
}

#[test]
fn queued_actions_come_first() {
    let mut input = Input::new();
    input.queue_action(InputAction::NoAction);
    let out = run(&mut input, &[], Mode::INSERT, at(5, 5));
    assert_eq!(out.actions, vec![InputAction::NoAction, InputAction::UnfreezeKeyboard]);
}

#[test]
fn j_and_k_move_vertically() {
    let mut input = Input::new();
    let down = run(&mut input, &[Keycode::J, Keycode::Key2], Mode::NORMAL, at(50, 50));
    assert_eq!(down.position, (50, 52));
    let up = run(&mut input, &[Keycode::K], Mode::NORMAL, at(50, 50));
    assert_eq!(up.position, (50, 48));
    let both = run(&mut input, &[Keycode::H, Keycode::L, Keycode::J, Keycode::K], Mode::NORMAL, at(50, 50));
    assert_eq!(both.position, (50, 50));
}

#[test]
fn highest_digit_wins() {
    let mut input = Input::new();
    run(&mut input, &[Keycode::Key1, Keycode::Key2], Mode::NORMAL, at(50, 50));
    assert_eq!(input.coefficient(), 2);
    run(&mut input, &[Keycode::Key1], Mode::NORMAL, at(50, 50));
    assert_eq!(input.coefficient(), 1);
}

#[test]
fn movement_clamps_at_origin() {
    let mut input = Input::new();
    let out = run(&mut input, &[Keycode::H, Keycode::K, Keycode::Key3], Mode::NORMAL, at(1, 2));
    assert_eq!(out.position, (0, 0));
}

#[test]
fn update_hands_out_queue_and_resets() {
    let mut input = Input::new();
    input.queue_action(InputAction::FreezeKeyboard);
    input.queue_action(InputAction::ClickMouse);
    let (actions, position) = input.update(at(7, 8), screen());
    assert_eq!(actions, vec![InputAction::FreezeKeyboard, InputAction::ClickMouse]);
    assert_eq!(position, (7, 8));
    let (again, _) = input.update(at(7, 8), screen());
    assert!(again.is_empty());
}
