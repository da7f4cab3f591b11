use window_controls::ControlEvent;
use window_controls::ControlsState;
use window_controls::WindowControlState;
use window_controls::WindowControlType;

#[test]
fn default_store_is_all_normal() {
    let states = ControlsState::default();
    assert_eq!(states.get(WindowControlType::Minimize), WindowControlState::Normal);
    assert_eq!(states.get(WindowControlType::Restore), WindowControlState::Normal);
    assert_eq!(states.get(WindowControlType::Maximize), WindowControlState::Normal);
    assert_eq!(states.get(WindowControlType::Close), WindowControlState::Normal);
}

#[test]
fn get_returns_what_set_wrote() {
    let ids = [
        WindowControlType::Minimize,
        WindowControlType::Restore,
        WindowControlType::Maximize,
        WindowControlType::Close,
    ];
    let values = [
        WindowControlState::Normal,
        WindowControlState::Hover,
        WindowControlState::Active,
        WindowControlState::Disable,
    ];
    for id in ids {
        for s in values {
            let mut states = ControlsState::default();
            states.set(id, s);
            assert_eq!(states.get(id), s);
        }
    }
}

#[test]
fn set_leaves_other_slots_alone() {
    let mut states = ControlsState::default();
    states.set(WindowControlType::Minimize, WindowControlState::Active);
    assert_eq!(states.get(WindowControlType::Restore), WindowControlState::Normal);
    assert_eq!(states.get(WindowControlType::Maximize), WindowControlState::Normal);
    assert_eq!(states.get(WindowControlType::Close), WindowControlState::Normal);

    states.set(WindowControlType::Close, WindowControlState::Hover);
    assert_eq!(states.get(WindowControlType::Minimize), WindowControlState::Active);
    assert_eq!(states.get(WindowControlType::Restore), WindowControlState::Normal);
    assert_eq!(states.get(WindowControlType::Maximize), WindowControlState::Normal);
}

#[test]
fn restore_and_maximize_share_one_slot() {
    let mut states = ControlsState::default();
    states.set(WindowControlType::Restore, WindowControlState::Hover);
    assert_eq!(states.get(WindowControlType::Maximize), WindowControlState::Hover);
    states.set(WindowControlType::Maximize, WindowControlState::Active);
    assert_eq!(states.get(WindowControlType::Restore), WindowControlState::Active);
    assert_eq!(states.get(WindowControlType::Minimize), WindowControlState::Normal);
    assert_eq!(states.get(WindowControlType::Close), WindowControlState::Normal);
}

#[test]
fn store_accepts_disable_from_any_state() {
    let mut states = ControlsState::default();
    states.set(WindowControlType::Close, WindowControlState::Active);
    states.set(WindowControlType::Close, WindowControlState::Disable);
    assert_eq!(states.get(WindowControlType::Close), WindowControlState::Disable);
}

#[test]
fn event_transitions_are_absolute() {
    let starts = [
        WindowControlState::Normal,
        WindowControlState::Hover,
        WindowControlState::Active,
        WindowControlState::Disable,
    ];
    let table = [
        (ControlEvent::HoverEnter, WindowControlState::Hover),
        (ControlEvent::HoverExit, WindowControlState::Normal),
        (ControlEvent::PrimaryDown, WindowControlState::Active),
        (ControlEvent::Click, WindowControlState::Normal),
    ];
    for start in starts {
        for (event, expected) in table {
            let mut states = ControlsState::default();
            states.set(WindowControlType::Minimize, start);
            states.apply_event(WindowControlType::Minimize, event);
            assert_eq!(states.get(WindowControlType::Minimize), expected);
        }
    }
}

#[test]
fn hover_enter_then_exit_ends_normal() {
    let mut states = ControlsState::default();
    states.set(WindowControlType::Maximize, WindowControlState::Active);
    states.apply_event(WindowControlType::Maximize, ControlEvent::HoverEnter);
    assert_eq!(states.get(WindowControlType::Maximize), WindowControlState::Hover);
    states.apply_event(WindowControlType::Maximize, ControlEvent::HoverExit);
    assert_eq!(states.get(WindowControlType::Maximize), WindowControlState::Normal);
    assert_eq!(states.get(WindowControlType::Minimize), WindowControlState::Normal);
    assert_eq!(states.get(WindowControlType::Close), WindowControlState::Normal);
}
