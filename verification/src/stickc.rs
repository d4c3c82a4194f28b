//! The M5StickC Plus2 board: an ST7789 panel of 135 by 240 pixels and three
//! buttons, for the next page, the previous page and the theme.
use crate::line::{coordinate, line_colors, LineWrite};
use crate::pages::{next_page, previous_page};
use crate::panel::{Orientation, PanelSetup};
use crate::shared::Shared;
use vstd::prelude::*;

verus! {

/// Columns of the panel.
pub const LCD_H_RES: u16 = 135;

/// Rows of the panel.
pub const LCD_V_RES: u16 = 240;

/// Pages that the user interface has.
pub const PAGE_COUNT: i32 = 3;

/// The column of the controller's memory where the panel begins.
pub const DISPLAY_OFFSET_X: u16 = 52;

/// The row of the controller's memory where the panel begins.
pub const DISPLAY_OFFSET_Y: u16 = 40;

/// Which of the three buttons are down.
#[derive(Clone, Copy, Debug, PartialEq, Eq, Structural)]
pub struct Buttons {
    pub next: bool,
    pub prev: bool,
    pub dark: bool,
}

/// What the tasks of the board share. The page is always one of `PAGE_COUNT`.
#[derive(Clone, Copy, Debug, PartialEq, Eq)]
pub struct SharedState {
    page: i32,
    dark_mode: bool,
    tick: i32,
    button_next: bool,
    button_prev: bool,
    button_dark: bool,
}

/// The shared state as contracts speak of it.
pub struct SharedStateView {
    pub page: int,
    pub dark_mode: bool,
    pub tick: int,
    pub buttons: Buttons,
}

impl View for SharedState {
    type V = SharedStateView;

    closed spec fn view(&self) -> SharedStateView {
        SharedStateView {
            page: self.page as int,
            dark_mode: self.dark_mode,
            tick: self.tick as int,
            buttons: Buttons {
                next: self.button_next,
                prev: self.button_prev,
                dark: self.button_dark,
            },
        }
    }
}

impl SharedStateView {
    /// The page after a poll that finds `pressed` down where the poll before
    /// found `last`. A button acts when it goes down; the step forward comes
    /// before the step back.
    pub open spec fn page_after_poll(self, last: Buttons, pressed: Buttons) -> int {
        let forward = if pressed.next && !last.next {
            crate::pages::page_after(self.page, PAGE_COUNT as int)
        } else {
            self.page
        };
        if pressed.prev && !last.prev {
            crate::pages::page_before(forward, PAGE_COUNT as int)
        } else {
            forward
        }
    }

    /// The state after such a poll.
    pub open spec fn after_poll(self, last: Buttons, pressed: Buttons) -> SharedStateView {
        SharedStateView {
            page: self.page_after_poll(last, pressed),
            dark_mode: if pressed.dark && !last.dark {
                !self.dark_mode
            } else {
                self.dark_mode
            },
            tick: self.tick,
            buttons: pressed,
        }
    }
}

/// What a task does to the shared state.
#[derive(Clone, Copy, Debug, PartialEq, Eq, Structural)]
pub enum Action {
    /// Take in a poll that finds `pressed` down where the poll before found `last`.
    Poll { last: Buttons, pressed: Buttons },
    /// Step the tick counter.
    Tick,
}

impl SharedStateView {
    /// The state after `action`.
    pub open spec fn acted(self, action: Action) -> SharedStateView {
        match action {
            Action::Poll { last, pressed } => self.after_poll(last, pressed),
            Action::Tick => SharedStateView {
                tick: crate::counters::tick_after(self.tick),
                ..self
            },
        }
    }
}

impl SharedState {
    #[verifier::type_invariant]
    spec fn wf(self) -> bool {
        crate::pages::is_page(self.page as int, PAGE_COUNT as int)
    }

    /// The state at start-up: first page, light theme, nothing pressed.
    pub fn new() -> (state: SharedState)
        ensures
            state@ == (SharedStateView {
                page: 0,
                dark_mode: false,
                tick: 0,
                buttons: Buttons { next: false, prev: false, dark: false },
            }),
    {
        SharedState {
            page: 0,
            dark_mode: false,
            tick: 0,
            button_next: false,
            button_prev: false,
            button_dark: false,
        }
    }

    /// The page that is shown.
    pub fn page(&self) -> (page: i32)
        ensures
            page == self@.page,
            0 <= page < 3,
            crate::pages::is_page(page as int, PAGE_COUNT as int),
    {
        proof {
            use_type_invariant(self);
        }
        self.page
    }

    /// Whether the dark theme is on.
    pub fn dark_mode(&self) -> (dark_mode: bool)
        ensures
            dark_mode == self@.dark_mode,
    {
        self.dark_mode
    }

    /// The tick counter.
    pub fn tick(&self) -> (tick: i32)
        ensures
            tick == self@.tick,
    {
        self.tick
    }

    /// Which buttons the last poll found down.
    pub fn buttons(&self) -> (buttons: Buttons)
        ensures
            buttons == self@.buttons,
    {
        Buttons { next: self.button_next, prev: self.button_prev, dark: self.button_dark }
    }

    /// Takes in one poll of the buttons, where the poll before found `last` down.
    /// Each button acts once when it goes down: one turns the page forward, one
    /// back, one toggles the theme.
    pub fn poll(&mut self, last: Buttons, pressed: Buttons)
        ensures
            final(self)@ == old(self)@.after_poll(last, pressed),
            crate::pages::is_page(final(self)@.page, PAGE_COUNT as int),
            ({
                &&& 0 <= old(self)@.page < 3
                &&& 0 <= final(self)@.page < 3
                &&& (final(self)@.page - old(self)@.page - (if pressed.next && !last.next {
                    1int
                } else {
                    0int
                }) + (if pressed.prev && !last.prev {
                    1int
                } else {
                    0int
                })) % 3 == 0
                &&& final(self)@.dark_mode != old(self)@.dark_mode <==> pressed.dark && !last.dark
                &&& final(self)@.tick == old(self)@.tick
                &&& final(self)@.buttons == pressed
            }),
    {
        proof {
            use_type_invariant(&*self);
            law_poll_moves_page(self@, last, pressed);
        }
        self.button_next = pressed.next;
        self.button_prev = pressed.prev;
        self.button_dark = pressed.dark;

        if pressed.next && !last.next {
            self.page = next_page(self.page, PAGE_COUNT);
        }
        if pressed.prev && !last.prev {
            self.page = previous_page(self.page, PAGE_COUNT);
        }
        if pressed.dark && !last.dark {
            self.dark_mode = !self.dark_mode;
        }
    }

    /// Steps the tick counter, from the largest value to the smallest.
    pub fn advance_tick(&mut self)
        ensures
            final(self)@ == (SharedStateView {
                tick: crate::counters::tick_after(old(self)@.tick),
                ..old(self)@
            }),
            final(self)@ == (SharedStateView { tick: final(self)@.tick, ..old(self)@ }),
            old(self)@.tick < i32::MAX ==> final(self)@.tick == old(self)@.tick + 1,
            old(self)@.tick == i32::MAX ==> final(self)@.tick == i32::MIN,
    {
        proof {
            use_type_invariant(&*self);
        }
        self.tick = self.tick.wrapping_add(1);
    }

    /// Does `action` and returns a copy of the state after it.
    pub fn act(&mut self, action: Action) -> (after: SharedState)
        ensures
            final(self)@ == old(self)@.acted(action),
            after == *final(self),
            action matches Action::Poll { last, pressed } ==> {
                &&& 0 <= old(self)@.page < 3
                &&& 0 <= final(self)@.page < 3
                &&& (final(self)@.page - old(self)@.page - (if pressed.next && !last.next {
                    1int
                } else {
                    0int
                }) + (if pressed.prev && !last.prev {
                    1int
                } else {
                    0int
                })) % 3 == 0
                &&& final(self)@.dark_mode != old(self)@.dark_mode <==> pressed.dark && !last.dark
                &&& final(self)@.tick == old(self)@.tick
                &&& final(self)@.buttons == pressed
            },
            action is Tick ==> {
                &&& final(self)@ == (SharedStateView { tick: final(self)@.tick, ..old(self)@ })
                &&& old(self)@.tick < i32::MAX ==> final(self)@.tick == old(self)@.tick + 1
                &&& old(self)@.tick == i32::MAX ==> final(self)@.tick == i32::MIN
            },
    {
        match action {
            Action::Poll { last, pressed } => {
                self.poll(last, pressed);
            },
            Action::Tick => {
                self.advance_tick();
            },
        }
        *self
    }
}

/// Remembers which buttons the last poll found down.
#[derive(Clone, Copy, Debug, PartialEq, Eq, Structural)]
pub struct ButtonTracker {
    pub last: Buttons,
}

impl ButtonTracker {
    /// Before the first poll every button counts as up.
    pub fn new() -> (tracker: ButtonTracker)
        ensures
            tracker.last == (Buttons { next: false, prev: false, dark: false }),
    {
        ButtonTracker { last: Buttons { next: false, prev: false, dark: false } }
    }

    /// Takes in one poll of the buttons and says what it does to the shared state.
    pub fn poll(&mut self, pressed: Buttons) -> (action: Action)
        ensures
            action == (Action::Poll { last: old(self).last, pressed }),
            final(self).last == pressed,
    {
        let last: Buttons = self.last;
        self.last = pressed;
        Action::Poll { last, pressed }
    }
}

/// Calls `embassy_sync`'s `Mutex::lock`, borrows the `RefCell` mutably and does
/// `action` with `SharedState::act`; the borrow ends with it.
///
/// The action is done once, on whatever state the tasks before left behind, and its
/// result is returned. What it wrote stays for the next user. Which state it finds
/// depends on the other tasks, so nothing is said of it.
#[verifier::external_body]
fn lock_and_act(shared: &Shared<SharedState>, action: Action) -> (after: SharedState)
    ensures
        exists|before: SharedState| after@ == #[trigger] before@.acted(action),
{
    shared.cell.lock(|cell| cell.borrow_mut().act(action))
}

/// Does `action` to the shared state, with no other task using it, and returns a
/// copy of the state after it. It finds the state as the other tasks left it.
pub fn with_shared(shared: &Shared<SharedState>, action: Action) -> (after: SharedState)
    ensures
        exists|before: SharedState| after@ == #[trigger] before@.acted(action),
        crate::pages::is_page(after@.page, PAGE_COUNT as int),
        0 <= after@.page < 3,
        action matches Action::Poll { pressed, .. } ==> after@.buttons == pressed,
{
    let after = lock_and_act(shared, action);
    proof {
        use_type_invariant(&after);
    }
    after
}

/// What is written to the display for the rendered pixels from `start` up to, but
/// not including, `end` of the line `line`. They fill the rectangle.
pub fn process_line(buffer: &[u16], line: usize, start: usize, end: usize) -> (write: LineWrite)
    requires
        start <= end <= buffer@.len(),
        0 < end,
    ensures
        write.sx == crate::line::coordinate_of(start as int),
        write.ex == crate::line::coordinate_of(end - 1),
        write.sy == crate::line::coordinate_of(line as int),
        write.ey == crate::line::coordinate_of(line as int),
        write.colors@.len() == end - start,
        forall|k: int|
            0 <= k < end - start ==> {
                &&& (#[trigger] write.colors@[k]).r < 32
                &&& write.colors@[k].g < 64
                &&& write.colors@[k].b < 32
                &&& write.colors@[k].r * 2048 + write.colors@[k].g * 32 + write.colors@[k].b
                    == buffer@[start + k]
            },
        (start - write.sx) % 0x1_0000 == 0,
        (line - write.sy) % 0x1_0000 == 0,
        write.ey == write.sy,
        (end - 1 - write.ex) % 0x1_0000 == 0,
        start < end <= 0x1_0000 ==> write.ex - write.sx + 1 == write.colors@.len(),
        write.colors@ == crate::line::colors_of(buffer@.subrange(start as int, end as int)),
{
    let colors = line_colors(buffer, start, end);
    LineWrite {
        sx: coordinate(start),
        sy: coordinate(line),
        ex: coordinate(end - 1),
        ey: coordinate(line),
        colors,
    }
}

/// How the display controller is set up: a part of the ST7789 memory of 240 by
/// 320 pixels, blue first, colours inverted, the picture upright.
pub fn panel_setup() -> (setup: PanelSetup)
    ensures
        setup == (PanelSetup {
            width: LCD_H_RES,
            height: LCD_V_RES,
            offset_x: DISPLAY_OFFSET_X,
            offset_y: DISPLAY_OFFSET_Y,
            bgr: true,
            inverted: true,
            orientation: Orientation { degrees: 0, mirrored: false },
        }),
        setup.width == 135 && setup.height == 240,
        setup.offset_x == 52 && setup.offset_y == 40,
        setup.fits(240, 320),
{
    PanelSetup {
        width: LCD_H_RES,
        height: LCD_V_RES,
        offset_x: DISPLAY_OFFSET_X,
        offset_y: DISPLAY_OFFSET_Y,
        bgr: true,
        inverted: true,
        orientation: Orientation::upright(),
    }
}

/// The state after a row of polls, where the poll before the row found `last`.
pub open spec fn state_after(
    state: SharedStateView,
    last: Buttons,
    polls: Seq<Buttons>,
) -> SharedStateView
    decreases polls.len(),
{
    if polls.len() == 0 {
        state
    } else {
        state_after(state, last, polls.drop_last()).after_poll(
            buttons_after(last, polls.drop_last()),
            polls.last(),
        )
    }
}

/// What the last of a row of polls found down.
pub open spec fn buttons_after(last: Buttons, polls: Seq<Buttons>) -> Buttons {
    if polls.len() == 0 {
        last
    } else {
        polls.last()
    }
}

/// The levels of the button for the next page in a row of polls.
pub open spec fn next_levels(polls: Seq<Buttons>) -> Seq<bool> {
    polls.map_values(|b: Buttons| b.next)
}

/// The levels of the button for the previous page in a row of polls.
pub open spec fn prev_levels(polls: Seq<Buttons>) -> Seq<bool> {
    polls.map_values(|b: Buttons| b.prev)
}

/// The levels of the button for the theme in a row of polls.
pub open spec fn dark_levels(polls: Seq<Buttons>) -> Seq<bool> {
    polls.map_values(|b: Buttons| b.dark)
}

/// A row of polls moves the page by as many pages as the one button went down
/// more often than the other, around the ring, and changes the theme when the
/// third button went down an odd number of times. How long a button stays down
/// does not matter.
pub proof fn law_polls_count_presses(state: SharedStateView, last: Buttons, polls: Seq<Buttons>)
    requires
        crate::pages::is_page(state.page, PAGE_COUNT as int),
    ensures
        ({
            let after = state_after(state, last, polls);
            let forward = crate::edges::rises(next_levels(polls), last.next);
            let back = crate::edges::rises(prev_levels(polls), last.prev);
            let toggles = crate::edges::rises(dark_levels(polls), last.dark);
            &&& crate::pages::is_page(after.page, PAGE_COUNT as int)
            &&& after.page == (state.page + forward - back) % (PAGE_COUNT as int)
            &&& after.dark_mode == (state.dark_mode != (toggles % 2 == 1))
            &&& after.tick == state.tick
        }),
    decreases polls.len(),
{
    if polls.len() > 0 {
        let earlier = polls.drop_last();
        law_polls_count_presses(state, last, earlier);
        assert(next_levels(polls).drop_last() == next_levels(earlier));
        assert(prev_levels(polls).drop_last() == prev_levels(earlier));
        assert(dark_levels(polls).drop_last() == dark_levels(earlier));
        let n = PAGE_COUNT as int;
        let before = state_after(state, last, earlier);
        let forward = crate::edges::rises(next_levels(earlier), last.next);
        let back = crate::edges::rises(prev_levels(earlier), last.prev);
        crate::pages::law_steps_stay_on_pages(before.page, n);
        crate::pages::law_steps_count_around(before.page, n);
        crate::pages::law_steps_count_around(crate::pages::page_after(before.page, n), n);
        crate::pages::lemma_shift_mod(state.page + forward - back, 1, n);
        crate::pages::lemma_shift_mod(state.page + forward - back, -1, n);
        crate::pages::lemma_shift_mod(state.page + forward - back + 1, -1, n);
    }
}

/// One poll moves a page by one around the ring for a button that goes down, forward
/// or back, and stays where neither or both do; the theme changes exactly when its
/// own button goes down, and the state shows which buttons are down.
pub proof fn law_poll_moves_page(state: SharedStateView, last: Buttons, pressed: Buttons)
    requires
        0 <= state.page < 3,
    ensures
        ({
            let after = state.acted(Action::Poll { last, pressed });
            let forward: int = if pressed.next && !last.next {
                1
            } else {
                0
            };
            let back: int = if pressed.prev && !last.prev {
                1
            } else {
                0
            };
            &&& 0 <= after.page < 3
            &&& (after.page - state.page - forward + back) % 3 == 0
            &&& after.dark_mode != state.dark_mode <==> pressed.dark && !last.dark
            &&& after.tick == state.tick
            &&& after.buttons == pressed
            &&& after == state.after_poll(last, pressed)
        }),
{
}

/// A tick steps the counter, after the largest value to the smallest, and changes
/// nothing else.
pub proof fn law_tick_steps_counter(state: SharedStateView)
    ensures
        ({
            let after = state.acted(Action::Tick);
            &&& state.tick < i32::MAX ==> after.tick == state.tick + 1
            &&& state.tick == i32::MAX ==> after.tick == i32::MIN
            &&& after.page == state.page
            &&& after.dark_mode == state.dark_mode
            &&& after.buttons == state.buttons
        }),
{
}

/// The state after a row of polls, each done as the action that the tracker makes of
/// it, where the poll before the row found `last`.
pub open spec fn acted_polls(
    state: SharedStateView,
    last: Buttons,
    polls: Seq<Buttons>,
) -> SharedStateView
    decreases polls.len(),
{
    if polls.len() == 0 {
        state
    } else {
        let earlier = polls.drop_last();
        acted_polls(state, last, earlier).acted(
            Action::Poll {
                last: if earlier.len() == 0 {
                    last
                } else {
                    earlier.last()
                },
                pressed: polls.last(),
            },
        )
    }
}

/// A row of polls done as actions moves the page by as many pages as the one button
/// went down more often than the other, in either theme, and changes the theme once
/// for each time that the third went down.
pub proof fn law_actions_count_presses(state: SharedStateView, last: Buttons, polls: Seq<Buttons>)
    requires
        0 <= state.page < 3,
    ensures
        ({
            let after = acted_polls(state, last, polls);
            let nexts = Seq::new(polls.len(), |i: int| polls[i].next);
            let prevs = Seq::new(polls.len(), |i: int| polls[i].prev);
            let darks = Seq::new(polls.len(), |i: int| polls[i].dark);
            let forward = crate::edges::rises(nexts, last.next);
            let back = crate::edges::rises(prevs, last.prev);
            let toggles = crate::edges::rises(darks, last.dark);
            &&& 0 <= after.page < 3
            &&& (after.page - state.page - forward + back) % 3 == 0
            &&& after.dark_mode == state.dark_mode <==> toggles % 2 == 0
            &&& after.tick == state.tick
            &&& polls.len() > 0 ==> after.buttons == polls.last()
        }),
    decreases polls.len(),
{
    if polls.len() > 0 {
        let earlier = polls.drop_last();
        law_actions_count_presses(state, last, earlier);
        let before = if earlier.len() == 0 {
            last
        } else {
            earlier.last()
        };
        law_poll_moves_page(acted_polls(state, last, earlier), before, polls.last());
        let nexts = Seq::new(earlier.len(), |i: int| earlier[i].next);
        let prevs = Seq::new(earlier.len(), |i: int| earlier[i].prev);
        let darks = Seq::new(earlier.len(), |i: int| earlier[i].dark);
        crate::edges::law_each_rise_counts_once(nexts, last.next, polls.last().next);
        crate::edges::law_each_rise_counts_once(prevs, last.prev, polls.last().prev);
        crate::edges::law_each_rise_counts_once(darks, last.dark, polls.last().dark);
        assert(Seq::new(polls.len(), |i: int| polls[i].next) =~= nexts.push(polls.last().next));
        assert(Seq::new(polls.len(), |i: int| polls[i].prev) =~= prevs.push(polls.last().prev));
        assert(Seq::new(polls.len(), |i: int| polls[i].dark) =~= darks.push(polls.last().dark));
    }
}

/// Page and theme have no say in each other: from two states on the same page an
/// action leads to the same page whatever the theme, and from two states in the same
/// theme to the same theme whatever the page.
pub proof fn law_page_and_theme_independent(
    a: SharedStateView,
    b: SharedStateView,
    action: Action,
)
    ensures
        a.page == b.page ==> a.acted(action).page == b.acted(action).page,
        a.dark_mode == b.dark_mode ==> a.acted(action).dark_mode == b.acted(action).dark_mode,
{
}

/// Going forward and back at once stays on the page.
pub proof fn law_both_directions_cancel(state: SharedStateView, last: Buttons, pressed: Buttons)
    requires
        crate::pages::is_page(state.page, PAGE_COUNT as int),
        pressed.next && !last.next,
        pressed.prev && !last.prev,
    ensures
        state.after_poll(last, pressed).page == state.page,
{
    crate::pages::law_steps_undo(state.page, PAGE_COUNT as int);
}

/// A poll that finds the buttons as the poll before did changes neither page nor
/// theme.
pub proof fn law_held_buttons_do_nothing(state: SharedStateView, pressed: Buttons)
    ensures
        state.after_poll(pressed, pressed) == (SharedStateView { buttons: pressed, ..state }),
{
}

} // verus!
