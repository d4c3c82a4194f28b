use critical_section as _;
use esp_panels::color::Color;
use esp_panels::panel::Orientation;
use esp_panels::shared::Shared;
use esp_panels::stickc::{
    panel_setup, process_line, with_shared, Action, ButtonTracker, Buttons, SharedState,
};

const UP: Buttons = Buttons { next: false, prev: false, dark: false };
const NEXT: Buttons = Buttons { next: true, prev: false, dark: false };
const PREV: Buttons = Buttons { next: false, prev: true, dark: false };
const DARK: Buttons = Buttons { next: false, prev: false, dark: true };

fn run(polls: &[Buttons]) -> SharedState {
    let mut state = SharedState::new();
    let mut tracker = ButtonTracker::new();
    for pressed in polls {
        state.act(tracker.poll(*pressed));
    }
    state
}

#[test]
fn stickc_starts_on_first_page_in_light_theme() {
    let state = SharedState::new();
    assert_eq!((state.page(), state.dark_mode(), state.tick()), (0, false, 0));
    assert_eq!(state.buttons(), UP);
}

#[test]
fn next_and_prev_turn_the_page() {
    assert_eq!(run(&[NEXT]).page(), 1);
    assert_eq!(run(&[NEXT, UP, NEXT]).page(), 2);
    assert_eq!(run(&[NEXT, UP, NEXT, UP, NEXT]).page(), 0);
    assert_eq!(run(&[PREV]).page(), 2);
    assert_eq!(run(&[PREV, UP, PREV]).page(), 1);
    assert_eq!(run(&[NEXT, PREV]).page(), 0);
}

#[test]
fn held_button_acts_once() {
    assert_eq!(run(&[NEXT, NEXT, NEXT, NEXT]).page(), 1);
    assert!(run(&[DARK, DARK, DARK]).dark_mode());
    assert!(!run(&[DARK, UP, DARK]).dark_mode());
}

#[test]
fn both_directions_at_once_cancel() {
    let both = Buttons { next: true, prev: true, dark: false };
    assert_eq!(run(&[both]).page(), 0);
    assert_eq!(run(&[NEXT, UP, both]).page(), 1);
    assert_eq!(run(&[NEXT, both]).page(), 0);
}

#[test]
fn polls_count_presses() {
    let polls = [NEXT, UP, NEXT, NEXT, DARK, UP, PREV, DARK, PREV, NEXT, DARK];
    let state = run(&polls);
    assert_eq!(state.page(), (3i32 - 2).rem_euclid(3));
    assert!(state.dark_mode());
    assert_eq!(state.buttons(), DARK);
    assert_eq!(state.tick(), 0);
}

#[test]
fn tracker_remembers_the_last_poll() {
    let mut tracker = ButtonTracker::new();
    assert_eq!(tracker.last, UP);
    assert_eq!(tracker.poll(DARK), Action::Poll { last: UP, pressed: DARK });
    assert_eq!(tracker.last, DARK);
    assert_eq!(tracker.poll(NEXT), Action::Poll { last: DARK, pressed: NEXT });
}

#[test]
fn shared_state_is_polled_and_ticked() {
    let shared = Shared::new(SharedState::new());
    let mut tracker = ButtonTracker::new();
    let polled = with_shared(&shared, tracker.poll(PREV));
    assert_eq!((polled.page(), polled.tick(), polled.buttons()), (2, 0, PREV));
    let first = with_shared(&shared, Action::Tick);
    assert_eq!((first.page(), first.tick()), (2, 1));
    let second = with_shared(&shared, Action::Tick);
    assert_eq!((second.page(), second.tick()), (2, 2));
    let released = with_shared(&shared, tracker.poll(UP));
    assert_eq!((released.page(), released.buttons()), (2, UP));
}

#[test]
fn act_returns_the_new_state() {
    let mut state = run(&[NEXT]);
    let copy = state.act(Action::Tick);
    assert_eq!(copy, state);
    assert_eq!((copy.tick(), copy.page()), (1, 1));
}

#[test]
fn stickc_line_fills_its_rectangle() {
    let mut buffer = vec![0u16; 135];
    buffer[134] = 0x001F;
    let write = process_line(&buffer, 239, 133, 135);
    assert_eq!((write.sx, write.sy, write.ex, write.ey), (133, 239, 134, 239));
    assert_eq!(write.colors, vec![Color { r: 0, g: 0, b: 0 }, Color { r: 0, g: 0, b: 31 }]);
    let full = process_line(&buffer, 0, 0, 135);
    assert_eq!((full.sx, full.ex), (0, 134));
    assert_eq!(full.colors.len(), (full.ex - full.sx + 1) as usize);
}

#[test]
fn stickc_panel_lies_inside_the_controller_memory() {
    let setup = panel_setup();
    assert_eq!((setup.width, setup.height), (135, 240));
    assert_eq!((setup.offset_x, setup.offset_y), (52, 40));
    assert!(setup.bgr && setup.inverted);
    assert_eq!(setup.orientation, Orientation { degrees: 0, mirrored: false });
    assert!(setup.offset_x + setup.width <= 240);
    assert!(setup.offset_y + setup.height <= 320);
}
