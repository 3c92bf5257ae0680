use vim_global::pointer::clamp_coordinate;
use vim_global::{ActionQueue, InputAction, Mode, ModeStore, PointerAccumulator, PointerInfo, WindowInfo, XError};

fn at(x: i32, y: i32) -> PointerInfo {
    PointerInfo { root_x: x, root_y: y, win_x: 0, win_y: 0 }
}

#[test]
fn mode_flag_bytes() {
    assert_eq!(Mode::INSERT.flag_bytes(), b"INSERT".to_vec());
    assert_eq!(Mode::NORMAL.flag_bytes(), b"NORMAL".to_vec());
}

#[test]
fn mode_from_flag_content() {
    assert_eq!(Mode::from_flag_content(b"INSERT"), Mode::INSERT);
    assert_eq!(Mode::from_flag_content(b"NORMAL"), Mode::NORMAL);
    assert_eq!(Mode::from_flag_content(b""), Mode::NORMAL);
    assert_eq!(Mode::from_flag_content(b"INSERTX"), Mode::NORMAL);
    assert_eq!(Mode::from_flag_content(b"insert"), Mode::NORMAL);
}

#[test]
fn mode_store_defaults_to_normal() {
    let mut store = ModeStore::new();
    assert!(store.flag().is_none());
    assert_eq!(store.current_mode(), Mode::NORMAL);
    assert_eq!(store.flag(), Some(&b"NORMAL".to_vec()));
}

#[test]
fn mode_store_round_trip() {
    let mut store = ModeStore::new();
    store.set_mode(Mode::INSERT);
    assert_eq!(store.current_mode(), Mode::INSERT);
    store.set_mode(Mode::NORMAL);
    assert_eq!(store.current_mode(), Mode::NORMAL);
}

#[test]
fn mode_store_set_is_idempotent() {
    let mut store = ModeStore::new();
    store.set_mode(Mode::INSERT);
    let once = store.flag().cloned();
    store.set_mode(Mode::INSERT);
    assert_eq!(store.flag().cloned(), once);
    assert_eq!(store.current_mode(), Mode::INSERT);
}

#[test]
fn mode_store_reads_existing_flag() {
    let mut store = ModeStore::with_flag(Some(b"INSERT".to_vec()));
    assert_eq!(store.current_mode(), Mode::INSERT);
    let mut empty = ModeStore::with_flag(Some(Vec::new()));
    assert_eq!(empty.current_mode(), Mode::NORMAL);
    assert_eq!(empty.flag(), Some(&Vec::new()));
}

#[test]
fn queue_drains_in_fifo_order() {
    let mut q = ActionQueue::new();
    q.enqueue(InputAction::FreezeKeyboard);
    q.enqueue(InputAction::ClickMouse);
    assert_eq!(q.len(), 2);
    assert_eq!(q.drain(), vec![InputAction::FreezeKeyboard, InputAction::ClickMouse]);
    assert_eq!(q.len(), 0);
    assert!(q.drain().is_empty());
}

#[test]
fn accumulate_adds_offsets() {
    let mut acc = PointerAccumulator::new();
    acc.accumulate(-1, 2);
    acc.accumulate(3, -5);
    assert_eq!((acc.x_offset, acc.y_offset), (2, -3));
}

#[test]
fn commit_unclamped_moves_exactly() {
    let mut acc = PointerAccumulator::new();
    acc.accumulate(3, -4);
    let bounds = WindowInfo { width: 100, height: 100 };
    assert_eq!(acc.commit(at(10, 10), bounds), (13, 6));
    assert_eq!((acc.x_offset, acc.y_offset), (0, 0));
}

#[test]
fn commit_clamps_width_only_on_x() {
    let mut acc = PointerAccumulator::new();
    acc.accumulate(3, 1);
    let bounds = WindowInfo { width: 100, height: 100 };
    assert_eq!(acc.commit(at(99, 50), bounds), (100, 51));
}

#[test]
fn commit_clamps_each_axis_independently() {
    let bounds = WindowInfo { width: 100, height: 80 };
    let mut acc = PointerAccumulator::new();
    acc.accumulate(10, 10);
    assert_eq!(acc.commit(at(95, 75), bounds), (100, 80));
    acc.accumulate(-10, -10);
    assert_eq!(acc.commit(at(5, 5), bounds), (0, 0));
    acc.accumulate(0, 10);
    assert_eq!(acc.commit(at(40, 75), bounds), (40, 80));
    acc.accumulate(-3, 0);
    assert_eq!(acc.commit(at(1, 30), bounds), (0, 30));
}

#[test]
fn commit_at_exact_bounds_is_kept() {
    let mut acc = PointerAccumulator::new();
    let bounds = WindowInfo { width: 100, height: 100 };
    assert_eq!(acc.commit(at(100, 0), bounds), (100, 0));
}

#[test]
fn commit_without_overflow_at_extremes() {
    let mut acc = PointerAccumulator::new();
    acc.accumulate(i32::MAX, i32::MIN);
    let bounds = WindowInfo { width: 1920, height: 1080 };
    assert_eq!(acc.commit(at(i32::MAX, i32::MIN), bounds), (1920, 0));
}

#[test]
fn clamp_coordinate_values() {
    assert_eq!(clamp_coordinate(50, 100), 50);
    assert_eq!(clamp_coordinate(101, 100), 100);
    assert_eq!(clamp_coordinate(-1, 100), 0);
    assert_eq!(clamp_coordinate(0, 0), 0);
}

#[test]
fn error_messages() {
    assert_eq!(XError::DisplayConnectionError.message(), "Couldn't connect to XDisplay server");
    assert_eq!(
        XError::WireProtocolFailed.message(),
        "Conversion to wire protocol format failed for XSendEvent"
    );
}
