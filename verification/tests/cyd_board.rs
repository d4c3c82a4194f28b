use critical_section as _;
use esp_panels::color::Color;
use esp_panels::cyd::{
    panel_setup, process_line, snapshot, with_shared, Action, BootButton, FrameCounter, Press,
    SharedState, UiSync, UiUpdate, FRAMES_PER_TICK, LONG_PRESS_MS, NUM_PAGES,
};
use esp_panels::panel::Orientation;
use esp_panels::shared::Shared;

fn new_shared() -> Shared<SharedState> {
    Shared::new(SharedState::new())
}

#[test]
fn cyd_starts_on_first_page_in_light_theme() {
    assert_eq!(
        SharedState::new(),
        SharedState { boot_pressed: false, dark_mode: false, page: 0, tick: 0 }
    );
}

#[test]
fn with_shared_keeps_what_was_written() {
    let shared = new_shared();
    let after = with_shared(&shared, Action::ShowPage(2));
    assert_eq!(after, Some(SharedState { page: 2, ..SharedState::new() }));
    with_shared(&shared, Action::BootPressed(true));
    assert_eq!(
        snapshot(&shared),
        SharedState { boot_pressed: true, dark_mode: false, page: 2, tick: 0 }
    );
    with_shared(&shared, Action::Tick);
    assert_eq!(snapshot(&shared).tick, 1);
}

#[test]
fn snapshot_is_a_copy() {
    let shared = new_shared();
    let before = snapshot(&shared);
    with_shared(&shared, Action::ShowPage(1));
    assert_eq!(before.page, 0);
    assert_eq!(snapshot(&shared).page, 1);
}

#[test]
fn state_is_free_again_after_every_use() {
    let shared = new_shared();
    for _ in 0..3 {
        assert_eq!(with_shared(&shared, Action::Tick), Some(snapshot(&shared)));
        assert_eq!(snapshot(&shared), snapshot(&shared));
    }
    with_shared(&shared, Action::ShowPage(i32::MAX));
    assert_eq!(with_shared(&shared, Action::Press(Press::Short)), None);
    assert_eq!(snapshot(&shared).page, i32::MAX);
}

#[test]
fn short_press_turns_page_and_long_press_toggles_theme() {
    let mut state = SharedState::new();
    state.apply_press(Press::Short);
    assert_eq!((state.page, state.dark_mode), (1, false));
    state.apply_press(Press::Long);
    assert_eq!((state.page, state.dark_mode), (1, true));
    state.apply_press(Press::Short);
    state.apply_press(Press::Short);
    assert_eq!((state.page, state.dark_mode), (0, true));
    state.apply_press(Press::Long);
    assert_eq!((state.page, state.dark_mode), (0, false));
    assert_eq!(NUM_PAGES, 3);
}

#[test]
fn presses_act_on_the_shared_state() {
    let shared = new_shared();
    with_shared(&shared, Action::Press(Press::Short));
    with_shared(&shared, Action::Press(Press::Long));
    with_shared(&shared, Action::Press(Press::Short));
    assert_eq!(
        snapshot(&shared),
        SharedState { boot_pressed: false, dark_mode: true, page: 2, tick: 0 }
    );
}

#[test]
fn page_number_is_not_counted_past_the_largest() {
    let shared = new_shared();
    with_shared(&shared, Action::ShowPage(i32::MAX));
    let before = snapshot(&shared);
    assert_eq!(with_shared(&shared, Action::Press(Press::Short)), None);
    assert_eq!(snapshot(&shared), before);
    let toggled = SharedState { dark_mode: true, ..before };
    assert_eq!(with_shared(&shared, Action::Press(Press::Long)), Some(toggled));
}

#[test]
fn actions_do_what_their_names_say() {
    let start = SharedState { boot_pressed: false, dark_mode: false, page: 2, tick: i32::MAX };
    for (action, after) in [
        (Action::Press(Press::Short), SharedState { page: 0, ..start }),
        (Action::Press(Press::Long), SharedState { dark_mode: true, ..start }),
        (Action::BootPressed(true), SharedState { boot_pressed: true, ..start }),
        (Action::ShowPage(-4), SharedState { page: -4, ..start }),
        (Action::Tick, SharedState { tick: i32::MIN, ..start }),
    ] {
        let mut state = start;
        assert_eq!(state.act(action), Some(after));
        assert_eq!(state, after);
    }
}

#[test]
fn page_from_the_user_interface_is_counted_on() {
    let mut state = SharedState::new();
    state.set_page(-5);
    state.apply_press(Press::Short);
    assert_eq!(state.page, -1);
    state.set_page(i32::MAX);
    state.apply_press(Press::Long);
    assert_eq!((state.page, state.dark_mode), (i32::MAX, true));
}

#[test]
fn cyd_tick_starts_over() {
    let mut state = SharedState { tick: i32::MAX, ..SharedState::new() };
    state.advance_tick();
    assert_eq!(state.tick, i32::MIN);
    state.advance_tick();
    assert_eq!(state.tick, i32::MIN + 1);
}

#[test]
fn press_is_long_from_half_a_second_on() {
    assert_eq!(LONG_PRESS_MS, 500);
    for (held, press) in [
        (0, Press::Short),
        (499_999, Press::Short),
        (500_000, Press::Long),
        (500_001, Press::Long),
        (10_000_000, Press::Long),
    ] {
        let mut button = BootButton::new();
        assert_eq!(button.poll(true, 70_000), None);
        assert_eq!(button.poll(false, 70_000 + held), Some(press));
        assert_eq!(button, BootButton::new());
    }
}

#[test]
fn press_counts_from_the_first_poll_that_finds_it_down() {
    let mut button = BootButton::new();
    for poll in 0..11u64 {
        assert_eq!(button.poll(true, 1_000_000 + poll * 50_000), None);
    }
    assert_eq!(button.press_start, Some(1_000_000));
    assert_eq!(button.poll(false, 1_550_000), Some(Press::Long));
    assert_eq!(button.poll(false, 1_600_000), None);
}

#[test]
fn every_release_is_one_press() {
    let mut button = BootButton::new();
    let levels = [false, true, true, false, false, true, false, true, true, true];
    let mut presses = 0;
    for (i, level) in levels.iter().enumerate() {
        if button.poll(*level, i as u64 * 50_000).is_some() {
            presses += 1;
        }
    }
    assert_eq!(presses, 2);
    assert_eq!(button.press_start, Some(350_000));
}

#[test]
fn tick_steps_every_tenth_frame() {
    let mut counter = FrameCounter::new();
    let mut due = Vec::new();
    for frame in 1..=40u32 {
        if counter.advance() {
            due.push(frame);
        }
    }
    assert_eq!(due, vec![10, 20, 30, 40]);
    assert_eq!(FRAMES_PER_TICK, 10);
}

#[test]
fn frame_count_starts_over() {
    let mut counter = FrameCounter { frame_count: u32::MAX };
    assert!(counter.advance());
    assert_eq!(counter.frame_count, 0);
}

#[test]
fn theme_is_written_only_when_it_changes() {
    let mut sync = UiSync::new();
    let mut state = SharedState { page: 1, tick: 7, ..SharedState::new() };
    assert_eq!(
        sync.sync(state),
        UiUpdate { boot_pressed: false, dark_mode: None, page: 1, tick: 7 }
    );
    state.dark_mode = true;
    assert_eq!(sync.sync(state).dark_mode, Some(true));
    assert_eq!(sync.sync(state).dark_mode, None);
    state.dark_mode = false;
    assert_eq!(sync.sync(state).dark_mode, Some(false));
    assert_eq!(sync, UiSync { last_dark: false });
}

#[test]
fn ui_follows_the_state() {
    let mut sync = UiSync::new();
    let mut ui = SharedState::new();
    let mut state = SharedState::new();
    for round in 0..20 {
        state.apply_press(if round % 3 == 0 { Press::Long } else { Press::Short });
        state.advance_tick();
        state.set_boot_pressed(round % 2 == 0);
        let update = sync.sync(state);
        ui.boot_pressed = update.boot_pressed;
        ui.page = update.page;
        ui.tick = update.tick;
        if let Some(dark_mode) = update.dark_mode {
            ui.dark_mode = dark_mode;
        }
        assert_eq!(ui, state);
    }
}

#[test]
fn cyd_line_names_the_column_after_the_last() {
    let buffer = vec![0xF800u16; 320];
    let write = process_line(&buffer, 7, 10, 13);
    assert_eq!((write.sx, write.sy, write.ex, write.ey), (10, 7, 13, 7));
    assert_eq!(write.colors, vec![Color { r: 31, g: 0, b: 0 }; 3]);
    let full = process_line(&buffer, 479, 0, 320);
    assert_eq!((full.sx, full.sy, full.ex, full.ey), (0, 479, 320, 479));
    assert_eq!(full.colors.len(), 320);
    assert_eq!(process_line(&buffer, 0, 5, 5).colors.len(), 0);
}

#[test]
fn cyd_panel_is_flipped() {
    let setup = panel_setup();
    assert_eq!((setup.width, setup.height), (320, 480));
    assert_eq!((setup.offset_x, setup.offset_y), (0, 0));
    assert!(setup.bgr && setup.inverted);
    assert_eq!(setup.orientation, Orientation { degrees: 0, mirrored: true });
    let flipped = mipidsi::options::Orientation::default().flip_horizontal();
    assert_eq!(setup.orientation.degrees, flipped.rotation.degree());
    assert_eq!(setup.orientation.mirrored, flipped.mirrored);
}
