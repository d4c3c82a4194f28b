//! The CYD 3248S035 board: an ST7796 panel of 320 by 480 pixels and one button.
//!
//! A short press of the BOOT button shows the next page, a long press switches
//! between the light and the dark theme.
use crate::clock::elapsed_millis;
use crate::line::{coordinate, line_colors, LineWrite};
use crate::pages::next_page;
use crate::panel::{Orientation, PanelSetup};
use crate::shared::{lock_copy, Shared};
use vstd::prelude::*;

verus! {

/// Columns of the panel.
pub const SCREEN_W: u32 = 320;

/// Rows of the panel.
pub const SCREEN_H: u32 = 480;

/// Pages that the user interface has.
pub const NUM_PAGES: i32 = 3;

/// How long the button is held, in milliseconds, for a long press.
pub const LONG_PRESS_MS: u64 = 500;

/// Frames between two steps of the tick counter.
pub const FRAMES_PER_TICK: u32 = 10;

/// What the tasks of the board share.
#[derive(Clone, Copy, Debug, PartialEq, Eq, Structural)]
pub struct SharedState {
    pub boot_pressed: bool,
    pub dark_mode: bool,
    pub page: i32,
    pub tick: i32,
}

/// What a press of the button was.
#[derive(Clone, Copy, Debug, PartialEq, Eq, Structural)]
pub enum Press {
    /// Held for less than `LONG_PRESS_MS`.
    Short,
    /// Held for `LONG_PRESS_MS` or longer.
    Long,
}

/// What a task does to the shared state.
#[derive(Clone, Copy, Debug, PartialEq, Eq, Structural)]
pub enum Action {
    /// Act on a press of the button.
    Press(Press),
    /// Note whether the button is down.
    BootPressed(bool),
    /// Show the page that the user interface asks for.
    ShowPage(i32),
    /// Step the tick counter.
    Tick,
}

impl SharedState {
    /// The state after `press`.
    pub open spec fn after_press(self, press: Press) -> SharedState {
        match press {
            Press::Long => SharedState { dark_mode: !self.dark_mode, ..self },
            Press::Short => SharedState {
                page: crate::pages::page_after(self.page as int, NUM_PAGES as int) as i32,
                ..self
            },
        }
    }

    /// The state after `action`, unless it would count the page number past the
    /// largest.
    pub open spec fn acted(self, action: Action) -> Option<SharedState> {
        match action {
            Action::Press(press) => if press is Short && self.page == i32::MAX {
                None
            } else {
                Some(self.after_press(press))
            },
            Action::BootPressed(boot_pressed) => Some(SharedState { boot_pressed, ..self }),
            Action::ShowPage(page) => Some(SharedState { page, ..self }),
            Action::Tick => Some(
                SharedState {
                    tick: crate::counters::tick_after(self.tick as int) as i32,
                    ..self
                },
            ),
        }
    }

    /// The state at start-up: first page, light theme, nothing pressed.
    pub fn new() -> (state: SharedState)
        ensures
            state == (SharedState { boot_pressed: false, dark_mode: false, page: 0, tick: 0 }),
    {
        SharedState { boot_pressed: false, dark_mode: false, page: 0, tick: 0 }
    }

    /// Acts on a press: a long one toggles the theme, a short one turns the page.
    pub fn apply_press(&mut self, press: Press)
        requires
            press is Short ==> old(self).page < i32::MAX,
        ensures
            *final(self) == old(self).after_press(press),
            press is Short ==> final(self).page == crate::pages::page_after(
                old(self).page as int,
                NUM_PAGES as int,
            ),
            press is Long ==> {
                &&& final(self).dark_mode != old(self).dark_mode
                &&& final(self).page == old(self).page
            },
            press is Short ==> {
                &&& final(self).dark_mode == old(self).dark_mode
                &&& (old(self).page + 1 - final(self).page) % 3 == 0
                &&& -3 < final(self).page < 3
                &&& old(self).page >= -1 ==> final(self).page >= 0
                &&& old(self).page <= -1 ==> final(self).page <= 0
            },
            final(self).boot_pressed == old(self).boot_pressed,
            final(self).tick == old(self).tick,
    {
        match press {
            Press::Long => {
                self.dark_mode = !self.dark_mode;
            },
            Press::Short => {
                self.page = next_page(self.page, NUM_PAGES);
            },
        }
    }

    /// Notes whether the button is down.
    pub fn set_boot_pressed(&mut self, boot_pressed: bool)
        ensures
            *final(self) == (SharedState { boot_pressed, ..*old(self) }),
    {
        self.boot_pressed = boot_pressed;
    }

    /// Shows the page that the user interface asks for.
    pub fn set_page(&mut self, page: i32)
        ensures
            *final(self) == (SharedState { page, ..*old(self) }),
    {
        self.page = page;
    }

    /// Steps the tick counter, from the largest value to the smallest.
    pub fn advance_tick(&mut self)
        ensures
            *final(self) == (SharedState { tick: final(self).tick, ..*old(self) }),
            final(self).tick == crate::counters::tick_after(old(self).tick as int),
            old(self).tick < i32::MAX ==> final(self).tick == old(self).tick + 1,
            old(self).tick == i32::MAX ==> final(self).tick == i32::MIN,
    {
        self.tick = self.tick.wrapping_add(1);
    }

    /// Does `action` and returns a copy of the state after it. Where a short press
    /// finds a page number that cannot be counted up, nothing changes and nothing
    /// is returned.
    pub fn act(&mut self, action: Action) -> (after: Option<SharedState>)
        ensures
            after == old(self).acted(action),
            after is Some ==> *final(self) == after->0,
            after is None ==> *final(self) == *old(self),
            after is None <==> action == Action::Press(Press::Short) && old(self).page == i32::MAX,
            action == Action::Press(Press::Long) ==> *final(self) == (SharedState {
                dark_mode: !old(self).dark_mode,
                ..*old(self)
            }),
            action == Action::Press(Press::Short) && old(self).page < i32::MAX ==> {
                &&& *final(self) == (SharedState { page: final(self).page, ..*old(self) })
                &&& (old(self).page + 1 - final(self).page) % 3 == 0
                &&& -3 < final(self).page < 3
                &&& old(self).page >= -1 ==> final(self).page >= 0
                &&& old(self).page <= -1 ==> final(self).page <= 0
            },
            action matches Action::BootPressed(boot_pressed) ==> *final(self) == (SharedState {
                boot_pressed,
                ..*old(self)
            }),
            action matches Action::ShowPage(page) ==> *final(self) == (SharedState {
                page,
                ..*old(self)
            }),
            action is Tick ==> {
                &&& *final(self) == (SharedState { tick: final(self).tick, ..*old(self) })
                &&& old(self).tick < i32::MAX ==> final(self).tick == old(self).tick + 1
                &&& old(self).tick == i32::MAX ==> final(self).tick == i32::MIN
            },
    {
        match action {
            Action::Press(press) => {
                if matches!(press, Press::Short) && self.page == i32::MAX {
                    return None;
                }
                self.apply_press(press);
            },
            Action::BootPressed(boot_pressed) => {
                self.set_boot_pressed(boot_pressed);
            },
            Action::ShowPage(page) => {
                self.set_page(page);
            },
            Action::Tick => {
                self.advance_tick();
            },
        }
        Some(*self)
    }
}

/// Calls `embassy_sync`'s `Mutex::lock`, borrows the `RefCell` mutably and does
/// `action` with `SharedState::act`; the borrow ends with it.
///
/// The action is done once, on whatever state the tasks before left behind, and its
/// result is returned. What it wrote stays for the next user. Which state it finds
/// depends on the other tasks, so nothing is said of it.
#[verifier::external_body]
fn lock_and_act(shared: &Shared<SharedState>, action: Action) -> (after: Option<SharedState>)
    ensures
        exists|before: SharedState| after == #[trigger] before.acted(action),
{
    shared.cell.lock(|cell| cell.borrow_mut().act(action))
}

/// Does `action` to the shared state, with no other task using it, and returns a
/// copy of the state after it. It finds the state as the other tasks left it. Where
/// a short press finds a page number that cannot be counted up, nothing changes and
/// nothing is returned.
pub fn with_shared(shared: &Shared<SharedState>, action: Action) -> (after: Option<SharedState>)
    ensures
        exists|before: SharedState| after == #[trigger] before.acted(action),
        after is None ==> action == Action::Press(Press::Short),
        action matches Action::BootPressed(boot_pressed) ==> after->0.boot_pressed == boot_pressed,
        action matches Action::ShowPage(page) ==> after->0.page == page,
        action == Action::Press(Press::Short) && after is Some ==> -3 < after->0.page < 3,
{
    let after = lock_and_act(shared, action);
    proof {
        let before = choose|before: SharedState| after == #[trigger] before.acted(action);
        law_actions_change_what_they_name(before, action);
    }
    after
}

/// A copy of the shared state as it is now. What it holds depends on the tasks
/// that share it.
pub fn snapshot(shared: &Shared<SharedState>) -> (state: SharedState) {
    lock_copy(shared)
}

/// The BOOT button: since when, in clock ticks, it has been seen down.
#[derive(Clone, Copy, Debug, PartialEq, Eq)]
pub struct BootButton {
    pub press_start: Option<u64>,
}

/// What a press is that lasts from the tick `start` to the tick `end`.
pub open spec fn press_of(start: int, end: int) -> Press {
    if crate::clock::millis(end - start) >= LONG_PRESS_MS {
        Press::Long
    } else {
        Press::Short
    }
}

impl BootButton {
    /// The button after a poll at the tick `now` that finds it down or up.
    pub open spec fn after_poll(self, boot_pressed: bool, now: u64) -> BootButton {
        if boot_pressed {
            match self.press_start {
                Some(_) => self,
                None => BootButton { press_start: Some(now) },
            }
        } else {
            BootButton { press_start: None }
        }
    }

    /// The press that such a poll completes, if any.
    pub open spec fn press_at_poll(self, boot_pressed: bool, now: u64) -> Option<Press> {
        match self.press_start {
            Some(start) if !boot_pressed => Some(press_of(start as int, now as int)),
            _ => None,
        }
    }

    /// The button before the first poll: not yet seen down.
    pub fn new() -> (button: BootButton)
        ensures
            button == (BootButton { press_start: None }),
    {
        BootButton { press_start: None }
    }

    /// Takes in one poll of the button at the tick `now` and returns the press
    /// that ends with it. A press is measured from the first poll that finds the
    /// button down to the first that finds it up again.
    pub fn poll(&mut self, boot_pressed: bool, now: u64) -> (press: Option<Press>)
        requires
            !boot_pressed ==> (old(self).press_start matches Some(start) ==> start <= now),
        ensures
            *final(self) == old(self).after_poll(boot_pressed, now),
            press == old(self).press_at_poll(boot_pressed, now),
            boot_pressed ==> {
                &&& press is None
                &&& old(self).press_start is None ==> final(self).press_start == Some(now)
                &&& old(self).press_start is Some ==> final(self).press_start
                    == old(self).press_start
            },
            !boot_pressed ==> {
                &&& final(self).press_start is None
                &&& press is Some <==> old(self).press_start is Some
            },
            press == Some(Press::Long) ==> now - old(self).press_start->0 >= 500_000,
            press == Some(Press::Short) ==> now - old(self).press_start->0 < 500_000,
    {
        if boot_pressed && self.press_start.is_none() {
            self.press_start = Some(now);
            None
        } else if !boot_pressed {
            match self.press_start.take() {
                Some(start) => {
                    let held_ms: u64 = elapsed_millis(now, start);
                    if held_ms >= LONG_PRESS_MS {
                        Some(Press::Long)
                    } else {
                        Some(Press::Short)
                    }
                },
                None => None,
            }
        } else {
            None
        }
    }
}

/// Counts frames, and says after which of them the tick counter steps.
#[derive(Clone, Copy, Debug, PartialEq, Eq, Structural)]
pub struct FrameCounter {
    pub frame_count: u32,
}

impl FrameCounter {
    /// No frame yet.
    pub fn new() -> (counter: FrameCounter)
        ensures
            counter == (FrameCounter { frame_count: 0 }),
    {
        FrameCounter { frame_count: 0 }
    }

    /// Counts one frame and tells whether the tick counter is to step.
    pub fn advance(&mut self) -> (tick_due: bool)
        ensures
            final(self).frame_count == crate::counters::count_after(old(self).frame_count),
            old(self).frame_count < u32::MAX ==> final(self).frame_count == old(self).frame_count + 1,
            old(self).frame_count == u32::MAX ==> final(self).frame_count == 0,
            tick_due == (final(self).frame_count % FRAMES_PER_TICK == 0),
            tick_due <==> final(self).frame_count as int % 10 == 0,
    {
        self.frame_count = self.frame_count.wrapping_add(1);
        self.frame_count % FRAMES_PER_TICK == 0
    }
}

/// What one round of the synchronisation writes to the user interface.
#[derive(Clone, Copy, Debug, PartialEq, Eq)]
pub struct UiUpdate {
    pub boot_pressed: bool,
    /// The theme, where it has changed.
    pub dark_mode: Option<bool>,
    pub page: i32,
    pub tick: i32,
}

impl UiUpdate {
    /// What the user interface shows once the update is written to it.
    pub open spec fn written_to(self, ui: SharedState) -> SharedState {
        SharedState {
            boot_pressed: self.boot_pressed,
            dark_mode: match self.dark_mode {
                Some(dark_mode) => dark_mode,
                None => ui.dark_mode,
            },
            page: self.page,
            tick: self.tick,
        }
    }
}

/// Carries the shared state over to the user interface. The theme is written
/// only when it changes.
#[derive(Clone, Copy, Debug, PartialEq, Eq, Structural)]
pub struct UiSync {
    pub last_dark: bool,
}

impl UiSync {
    /// What is to be written to show `state`.
    pub open spec fn update_for(self, state: SharedState) -> UiUpdate {
        UiUpdate {
            boot_pressed: state.boot_pressed,
            dark_mode: if state.dark_mode != self.last_dark {
                Some(state.dark_mode)
            } else {
                None
            },
            page: state.page,
            tick: state.tick,
        }
    }

    /// The user interface starts with the light theme.
    pub fn new() -> (sync: UiSync)
        ensures
            sync == (UiSync { last_dark: false }),
    {
        UiSync { last_dark: false }
    }

    /// One round: what is to be written to the user interface to show `state`.
    pub fn sync(&mut self, state: SharedState) -> (update: UiUpdate)
        ensures
            update == old(self).update_for(state),
            *final(self) == (UiSync { last_dark: state.dark_mode }),
            update.boot_pressed == state.boot_pressed,
            update.page == state.page,
            update.tick == state.tick,
            update.dark_mode is Some <==> state.dark_mode != old(self).last_dark,
            update.dark_mode is Some ==> update.dark_mode->0 == state.dark_mode,
    {
        let dark_mode: Option<bool> = if state.dark_mode != self.last_dark {
            self.last_dark = state.dark_mode;
            Some(state.dark_mode)
        } else {
            None
        };
        UiUpdate { boot_pressed: state.boot_pressed, dark_mode, page: state.page, tick: state.tick }
    }
}

/// What is written to the display for the rendered pixels from `start` up to, but
/// not including, `end` of the line `line`. The column `end` is named as the last
/// of the rectangle.
pub fn process_line(buffer: &[u16], line: usize, start: usize, end: usize) -> (write: LineWrite)
    requires
        start <= end <= buffer@.len(),
    ensures
        write.sx == crate::line::coordinate_of(start as int),
        write.ex == crate::line::coordinate_of(end as int),
        write.sy == crate::line::coordinate_of(line as int),
        write.ey == crate::line::coordinate_of(line as int),
        write.colors@.len() == end - start,
        forall|k: int|
            0 <= k < end - start ==> {
                &&& (#[trigger] write.colors@[k]).r < 32
                &&& write.colors@[k].g < 64
                &&& write.colors@[k].b < 32
                &&& write.colors@[k].r * 2048 + write.colors@[k].g * 32 + write.colors@[k].b
                    == buffer@[start + k]
            },
        (start - write.sx) % 0x1_0000 == 0,
        (line - write.sy) % 0x1_0000 == 0,
        write.ey == write.sy,
        (end - write.ex) % 0x1_0000 == 0,
        end < 0x1_0000 ==> write.ex - write.sx == write.colors@.len(),
        write.colors@ == crate::line::colors_of(buffer@.subrange(start as int, end as int)),
{
    let colors = line_colors(buffer, start, end);
    LineWrite {
        sx: coordinate(start),
        sy: coordinate(line),
        ex: coordinate(end),
        ey: coordinate(line),
        colors,
    }
}

/// How the display controller is set up: the whole ST7796 memory, blue first,
/// colours inverted, the picture flipped horizontally.
pub fn panel_setup() -> (setup: PanelSetup)
    ensures
        setup == (PanelSetup {
            width: 320,
            height: 480,
            offset_x: 0,
            offset_y: 0,
            bgr: true,
            inverted: true,
            orientation: Orientation { degrees: 0, mirrored: true },
        }),
        setup.width == SCREEN_W,
        setup.height == SCREEN_H,
        setup.fits(320, 480),
{
    PanelSetup {
        width: 320,
        height: 480,
        offset_x: 0,
        offset_y: 0,
        bgr: true,
        inverted: true,
        orientation: Orientation::upright().flip_horizontal(),
    }
}

/// A press is long exactly when the button was down for half a million ticks,
/// `LONG_PRESS_MS` milliseconds, or more.
pub proof fn law_long_press_threshold(start: int, end: int)
    requires
        start <= end,
    ensures
        press_of(start, end) is Long <==> end - start >= LONG_PRESS_MS
            * crate::clock::TICKS_PER_MILLI,
        press_of(start, end) is Long <==> end - start >= 500_000,
        press_of(start, end) is Short <==> end - start < 500_000,
{
}

/// One poll of the button: found down, it starts to count if it did not already and
/// is no press yet; found up, it is a press if it was counting, long from half a
/// million ticks on, and counts no more.
pub proof fn law_poll_measures_press(button: BootButton, boot_pressed: bool, now: u64)
    ensures
        ({
            let after = button.after_poll(boot_pressed, now);
            let press = button.press_at_poll(boot_pressed, now);
            &&& boot_pressed ==> press is None && after.press_start is Some
            &&& boot_pressed && button.press_start is Some ==> after == button
            &&& boot_pressed && button.press_start is None ==> after.press_start->0 == now
            &&& !boot_pressed ==> after.press_start is None
            &&& !boot_pressed ==> (press is Some <==> button.press_start is Some)
            &&& press is Some ==> (press->0 is Long <==> now - button.press_start->0 >= 500_000)
        }),
{
}

/// One poll of the button: whether it is found down, and at which tick.
pub struct Poll {
    pub boot_pressed: bool,
    pub now: u64,
}

/// The button after a row of polls.
pub open spec fn button_after(button: BootButton, polls: Seq<Poll>) -> BootButton
    decreases polls.len(),
{
    if polls.len() == 0 {
        button
    } else {
        button_after(button, polls.drop_last()).after_poll(
            polls.last().boot_pressed,
            polls.last().now,
        )
    }
}

/// The presses that a row of polls completes, in order.
pub open spec fn presses(button: BootButton, polls: Seq<Poll>) -> Seq<Press>
    decreases polls.len(),
{
    if polls.len() == 0 {
        Seq::empty()
    } else {
        let earlier = presses(button, polls.drop_last());
        match button_after(button, polls.drop_last()).press_at_poll(
            polls.last().boot_pressed,
            polls.last().now,
        ) {
            Some(press) => earlier.push(press),
            None => earlier,
        }
    }
}

/// Whether each of a row of polls finds the button up.
pub open spec fn ups(polls: Seq<Poll>) -> Seq<bool> {
    polls.map_values(|poll: Poll| !poll.boot_pressed)
}

/// Every release is one press and nothing else is: a row of polls completes as
/// many presses as the button goes from down to up in it.
pub proof fn law_one_press_per_release(button: BootButton, polls: Seq<Poll>)
    ensures
        presses(button, polls).len() == crate::edges::rises(ups(polls), button.press_start is None),
        button_after(button, polls).press_start is None == crate::edges::level_after(
            ups(polls),
            button.press_start is None,
        ),
    decreases polls.len(),
{
    if polls.len() > 0 {
        law_one_press_per_release(button, polls.drop_last());
        assert(ups(polls).drop_last() == ups(polls.drop_last()));
    }
}

/// A button that is held counts from the poll that first found it down, and
/// nothing happens while it is held.
pub proof fn law_held_button_waits(button: BootButton, polls: Seq<Poll>)
    requires
        button.press_start is None,
        polls.len() > 0,
        forall|i: int| 0 <= i < polls.len() ==> polls[i].boot_pressed,
    ensures
        button_after(button, polls).press_start == Some(polls[0].now),
        presses(button, polls).len() == 0,
    decreases polls.len(),
{
    reveal_with_fuel(button_after, 2);
    reveal_with_fuel(presses, 2);
    if polls.len() > 1 {
        law_held_button_waits(button, polls.drop_last());
    }
}

/// Holding the button and letting it go is one press. It is measured from the
/// first poll that found the button down to the poll that finds it up, however
/// many polls lie between, and leaves the button ready for the next one.
pub proof fn law_hold_and_release(button: BootButton, held: Seq<Poll>, release: Poll)
    requires
        button.press_start is None,
        held.len() > 0,
        forall|i: int| 0 <= i < held.len() ==> held[i].boot_pressed,
        !release.boot_pressed,
    ensures
        presses(button, held.push(release)) == seq![
            press_of(held[0].now as int, release.now as int),
        ],
        button_after(button, held.push(release)) == button,
{
    law_held_button_waits(button, held);
    assert(held.push(release).drop_last() == held);
}

/// The shared state after a row of presses.
pub open spec fn state_after(state: SharedState, row: Seq<Press>) -> SharedState
    decreases row.len(),
{
    if row.len() == 0 {
        state
    } else {
        state_after(state, row.drop_last()).after_press(row.last())
    }
}

/// How many presses of a row are `press`.
pub open spec fn count(row: Seq<Press>, press: Press) -> nat
    decreases row.len(),
{
    if row.len() == 0 {
        0
    } else {
        count(row.drop_last(), press) + if row.last() == press {
            1nat
        } else {
            0nat
        }
    }
}

/// From any page, a row of presses shows the page that lies as many pages further
/// around the ring as there were short presses, and changes the theme when the
/// number of long presses is odd. It changes nothing else.
pub proof fn law_presses_turn_pages_and_theme(state: SharedState, row: Seq<Press>)
    requires
        crate::pages::is_page(state.page as int, NUM_PAGES as int),
    ensures
        ({
            let after = state_after(state, row);
            &&& crate::pages::is_page(after.page as int, NUM_PAGES as int)
            &&& after.page == (state.page + count(row, Press::Short)) % (NUM_PAGES as int)
            &&& after.dark_mode == (state.dark_mode != (count(row, Press::Long) % 2 == 1))
            &&& after.boot_pressed == state.boot_pressed
            &&& after.tick == state.tick
        }),
    decreases row.len(),
{
    if row.len() > 0 {
        law_presses_turn_pages_and_theme(state, row.drop_last());
        let before = state_after(state, row.drop_last());
        crate::pages::law_steps_count_around(before.page as int, NUM_PAGES as int);
        crate::pages::lemma_shift_mod(
            state.page + count(row.drop_last(), Press::Short),
            1,
            NUM_PAGES as int,
        );
    }
}

/// Each action changes what it names and nothing else. Only a short press on the
/// largest page number is refused.
pub proof fn law_actions_change_what_they_name(state: SharedState, action: Action)
    ensures
        state.acted(action) is None <==> action == Action::Press(Press::Short) && state.page
            == i32::MAX,
        state.acted(action) matches Some(after) ==> {
            &&& after.dark_mode != state.dark_mode <==> action == Action::Press(Press::Long)
            &&& after.boot_pressed == (match action {
                Action::BootPressed(boot_pressed) => boot_pressed,
                _ => state.boot_pressed,
            })
            &&& !(action is Tick) ==> after.tick == state.tick
            &&& action is Tick && state.tick < i32::MAX ==> after.tick == state.tick + 1
            &&& action is Tick && state.tick == i32::MAX ==> after.tick == i32::MIN
            &&& action matches Action::ShowPage(page) ==> after.page == page
            &&& action == Action::Press(Press::Short) ==> {
                &&& (state.page + 1 - after.page) % 3 == 0
                &&& -3 < after.page < 3
                &&& state.page >= -1 ==> after.page >= 0
                &&& state.page <= -1 ==> after.page <= 0
            }
            &&& !(action is ShowPage) && action != Action::Press(Press::Short) ==> after.page
                == state.page
        },
{
    crate::pages::law_steps_from_anywhere(state.page as int, 3);
}

/// A second long press undoes the first: the theme can be switched both ways.
pub proof fn law_long_press_undoes_long_press(state: SharedState)
    ensures
        state.acted(Action::Press(Press::Long)) is Some,
        state.acted(Action::Press(Press::Long))->0.dark_mode != state.dark_mode,
        state.acted(Action::Press(Press::Long))->0.acted(Action::Press(Press::Long)) == Some(state),
{
}

/// Two short presses lead from a page to the third, and three back to where they
/// began.
pub proof fn law_three_short_presses_go_round(state: SharedState)
    requires
        0 <= state.page < 3,
    ensures
        ({
            let short = Action::Press(Press::Short);
            let once = state.acted(short)->0;
            let twice = once.acted(short)->0;
            &&& state.page != once.page
            &&& once.page != twice.page
            &&& twice.page != state.page
            &&& 0 <= once.page < 3
            &&& 0 <= twice.page < 3
            &&& twice.acted(short) == Some(state)
        }),
{
}

/// The state after a row of actions, as long as none is refused.
pub open spec fn acted_row(state: SharedState, actions: Seq<Action>) -> Option<SharedState>
    decreases actions.len(),
{
    if actions.len() == 0 {
        Some(state)
    } else {
        match acted_row(state, actions.drop_last()) {
            Some(before) => before.acted(actions.last()),
            None => None,
        }
    }
}

/// A row of actions, none of which asks for a page, moves the page by as many pages
/// around the ring as there are short presses among them and changes the theme when
/// the number of long presses is odd. Where none is a tick, the tick stays.
pub proof fn law_actions_count_presses(state: SharedState, actions: Seq<Action>)
    requires
        0 <= state.page < 3,
        forall|i: int| 0 <= i < actions.len() ==> !(actions[i] is ShowPage),
    ensures
        ({
            let shorts = actions.to_multiset().count(Action::Press(Press::Short));
            let longs = actions.to_multiset().count(Action::Press(Press::Long));
            let after = acted_row(state, actions)->0;
            &&& acted_row(state, actions) is Some
            &&& 0 <= after.page < 3
            &&& (state.page + shorts - after.page) % 3 == 0
            &&& after.dark_mode == state.dark_mode <==> longs % 2 == 0
            &&& actions.to_multiset().count(Action::Tick) == 0 ==> after.tick == state.tick
            &&& (forall|i: int| 0 <= i < actions.len() ==> actions[i] is Press)
                ==> after.boot_pressed == state.boot_pressed
        }),
    decreases actions.len(),
{
    broadcast use vstd::seq_lib::group_to_multiset_ensures;
    broadcast use vstd::multiset::group_multiset_axioms;

    if actions.len() > 0 {
        let earlier = actions.drop_last();
        law_actions_count_presses(state, earlier);
        assert(actions == earlier.push(actions.last()));
        law_actions_change_what_they_name(acted_row(state, earlier)->0, actions.last());
        if forall|i: int| 0 <= i < actions.len() ==> actions[i] is Press {
            assert forall|i: int| 0 <= i < earlier.len() implies earlier[i] is Press by {
                assert(earlier[i] == actions[i]);
            }
        }
    }
}

/// The theme has no say in the page: from two states on the same page, whatever the
/// theme, an action leads to the same page, or is refused in both.
pub proof fn law_page_ignores_theme(a: SharedState, b: SharedState, action: Action)
    requires
        a.page == b.page,
    ensures
        a.acted(action) is Some <==> b.acted(action) is Some,
        a.acted(action) is Some ==> a.acted(action)->0.page == b.acted(action)->0.page,
{
}

/// The user interface keeps up: if it shows the theme that was written last, then
/// after one more round it shows the whole state, and so does it after the next.
pub proof fn law_ui_shows_state(sync: UiSync, ui: SharedState, state: SharedState)
    requires
        ui.dark_mode == sync.last_dark,
    ensures
        sync.update_for(state).written_to(ui) == state,
        sync.update_for(state).dark_mode is Some <==> state.dark_mode != ui.dark_mode,
        sync.update_for(state).dark_mode is Some ==> sync.update_for(state).dark_mode->0
            == state.dark_mode,
        sync.update_for(state).boot_pressed == state.boot_pressed,
        sync.update_for(state).page == state.page,
        sync.update_for(state).tick == state.tick,
{
}

} // verus!
