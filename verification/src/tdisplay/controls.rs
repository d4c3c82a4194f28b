//! The two buttons, and what they control: theme, light and page. Also the tick
//! counter that the user interface shows.
use crate::pages::next_page;
use crate::tdisplay::PAGE_COUNT;
use vstd::prelude::*;

verus! {

/// Ticks between two that are shown.
pub const TICKS_PER_UPDATE: i32 = 10;

/// What a change of the theme means for the user interface and for the light,
/// whose pin is active low.
#[derive(Clone, Copy, Debug, PartialEq, Eq, Structural)]
pub struct ThemeUpdate {
    pub dark_mode: bool,
    pub led_on: bool,
    pub led_pin_low: bool,
}

/// What a poll of the BOOT button does.
#[derive(Clone, Copy, Debug, PartialEq, Eq, Structural)]
pub enum ThemeEvent {
    /// Nothing.
    Idle,
    /// The pin is high: the button can act again.
    Armed,
    /// The pin went low: the theme changes.
    Toggled(ThemeUpdate),
}

/// What a poll of the second button does.
#[derive(Clone, Copy, Debug, PartialEq, Eq, Structural)]
pub enum PageEvent {
    /// Nothing.
    Idle,
    /// The pin is high: the button can act again.
    Armed,
    /// The pin went low: this page is shown now.
    Turned(i32),
}

/// The state of the controls. The page is always one of `PAGE_COUNT`.
#[derive(Clone, Copy, Debug, PartialEq, Eq)]
pub struct Controls {
    button_pressed: bool,
    button2_pressed: bool,
    dark_mode: bool,
    page: i32,
    tick: i32,
}

/// The controls as contracts speak of them.
pub struct ControlsView {
    /// The BOOT button's pin was high at its last poll.
    pub button_pressed: bool,
    /// The second button's pin was high at its last poll.
    pub button2_pressed: bool,
    pub dark_mode: bool,
    pub page: int,
    pub tick: int,
}

impl View for Controls {
    type V = ControlsView;

    closed spec fn view(&self) -> ControlsView {
        ControlsView {
            button_pressed: self.button_pressed,
            button2_pressed: self.button2_pressed,
            dark_mode: self.dark_mode,
            page: self.page as int,
            tick: self.tick as int,
        }
    }
}

/// The theme `dark_mode` for the user interface and for the light: the light is on
/// in the dark theme, and on means a low pin.
pub open spec fn theme(dark_mode: bool) -> ThemeUpdate {
    ThemeUpdate { dark_mode, led_on: dark_mode, led_pin_low: dark_mode }
}

impl ControlsView {
    /// The controls after a poll that finds the BOOT button's pin low or high.
    pub open spec fn after_button(self, low: bool) -> ControlsView {
        ControlsView {
            button_pressed: !low,
            dark_mode: if low && self.button_pressed {
                !self.dark_mode
            } else {
                self.dark_mode
            },
            ..self
        }
    }

    /// What such a poll does.
    pub open spec fn theme_event(self, low: bool) -> ThemeEvent {
        if !low && !self.button_pressed {
            ThemeEvent::Armed
        } else if low && self.button_pressed {
            ThemeEvent::Toggled(theme(!self.dark_mode))
        } else {
            ThemeEvent::Idle
        }
    }

    /// The controls after a poll that finds the second button's pin low or high.
    pub open spec fn after_button2(self, low: bool) -> ControlsView {
        ControlsView {
            button2_pressed: !low,
            page: if low && self.button2_pressed {
                crate::pages::page_after(self.page, PAGE_COUNT as int)
            } else {
                self.page
            },
            ..self
        }
    }

    /// What such a poll does.
    pub open spec fn page_event(self, low: bool) -> PageEvent {
        if !low && !self.button2_pressed {
            PageEvent::Armed
        } else if low && self.button2_pressed {
            PageEvent::Turned(crate::pages::page_after(self.page, PAGE_COUNT as int) as i32)
        } else {
            PageEvent::Idle
        }
    }
}

impl Controls {
    #[verifier::type_invariant]
    spec fn wf(self) -> bool {
        crate::pages::is_page(self.page as int, PAGE_COUNT as int)
    }

    /// The controls at start-up: first page, light theme. A button acts only after
    /// its pin has been seen high.
    pub fn new() -> (controls: Controls)
        ensures
            controls@ == (ControlsView {
                button_pressed: false,
                button2_pressed: false,
                dark_mode: false,
                page: 0,
                tick: 0,
            }),
    {
        Controls {
            button_pressed: false,
            button2_pressed: false,
            dark_mode: false,
            page: 0,
            tick: 0,
        }
    }

    /// Whether the dark theme is on.
    pub fn dark_mode(&self) -> (dark_mode: bool)
        ensures
            dark_mode == self@.dark_mode,
    {
        self.dark_mode
    }

    /// The page that is shown.
    pub fn page(&self) -> (page: i32)
        ensures
            page == self@.page,
            0 <= page < 3,
            crate::pages::is_page(page as int, PAGE_COUNT as int),
    {
        proof {
            use_type_invariant(self);
        }
        self.page
    }

    /// Takes in one poll of the BOOT button's pin. The theme changes when the pin
    /// goes from high to low.
    pub fn poll_button(&mut self, low: bool) -> (event: ThemeEvent)
        ensures
            final(self)@ == old(self)@.after_button(low),
            event == old(self)@.theme_event(low),
            final(self)@.button_pressed == !low,
            final(self)@.dark_mode != old(self)@.dark_mode <==> low && old(self)@.button_pressed,
            final(self)@.button2_pressed == old(self)@.button2_pressed,
            final(self)@.page == old(self)@.page,
            final(self)@.tick == old(self)@.tick,
            event is Toggled <==> final(self)@.dark_mode != old(self)@.dark_mode,
            event matches ThemeEvent::Toggled(update) ==> {
                &&& update.dark_mode == final(self)@.dark_mode
                &&& update.led_on == final(self)@.dark_mode
                &&& update.led_pin_low == final(self)@.dark_mode
            },
            event is Armed <==> !low && !old(self)@.button_pressed,
    {
        proof {
            use_type_invariant(&*self);
        }
        if !low && !self.button_pressed {
            self.button_pressed = true;
            ThemeEvent::Armed
        } else if low && self.button_pressed {
            self.button_pressed = false;
            self.dark_mode = !self.dark_mode;
            ThemeEvent::Toggled(
                ThemeUpdate {
                    dark_mode: self.dark_mode,
                    led_on: self.dark_mode,
                    led_pin_low: self.dark_mode,
                },
            )
        } else {
            ThemeEvent::Idle
        }
    }

    /// Takes in one poll of the second button's pin. The page turns when the pin
    /// goes from high to low.
    pub fn poll_button2(&mut self, low: bool) -> (event: PageEvent)
        ensures
            final(self)@ == old(self)@.after_button2(low),
            event == old(self)@.page_event(low),
            final(self)@.button2_pressed == !low,
            final(self)@.button_pressed == old(self)@.button_pressed,
            final(self)@.dark_mode == old(self)@.dark_mode,
            final(self)@.tick == old(self)@.tick,
            0 <= old(self)@.page < 3,
            0 <= final(self)@.page < 3,
            low && old(self)@.button2_pressed ==> (final(self)@.page - old(self)@.page - 1) % 3
                == 0,
            !(low && old(self)@.button2_pressed) ==> final(self)@.page == old(self)@.page,
            event is Turned <==> final(self)@.page != old(self)@.page,
            event is Armed <==> !low && !old(self)@.button2_pressed,
            event matches PageEvent::Turned(page) ==> page == final(self)@.page
                && crate::pages::is_page(page as int, PAGE_COUNT as int),
    {
        proof {
            use_type_invariant(&*self);
        }
        if !low && !self.button2_pressed {
            self.button2_pressed = true;
            PageEvent::Armed
        } else if low && self.button2_pressed {
            self.button2_pressed = false;
            self.page = next_page(self.page, PAGE_COUNT);
            PageEvent::Turned(self.page)
        } else {
            PageEvent::Idle
        }
    }

    /// Steps the tick counter and returns it where it is to be shown, at every
    /// multiple of `TICKS_PER_UPDATE`.
    pub fn advance_tick(&mut self) -> (shown: Option<i32>)
        ensures
            final(self)@ == (ControlsView { tick: crate::counters::tick_after(old(self)@.tick), ..old(self)@ }),
            shown == if final(self)@.tick % (TICKS_PER_UPDATE as int) == 0 {
                Some(final(self)@.tick as i32)
            } else {
                None
            },
            final(self)@ == (ControlsView { tick: final(self)@.tick, ..old(self)@ }),
            old(self)@.tick < i32::MAX ==> final(self)@.tick == old(self)@.tick + 1,
            old(self)@.tick == i32::MAX ==> final(self)@.tick == i32::MIN,
            shown is Some <==> final(self)@.tick % 10 == 0,
            shown is Some ==> shown->0 == final(self)@.tick,
    {
        proof {
            use_type_invariant(&*self);
        }
        self.tick = self.tick.wrapping_add(1);
        if self.tick % TICKS_PER_UPDATE == 0 {
            Some(self.tick)
        } else {
            None
        }
    }
}

/// The controls after a row of polls that find the BOOT button's pin low or high.
pub open spec fn after_buttons(controls: ControlsView, lows: Seq<bool>) -> ControlsView
    decreases lows.len(),
{
    if lows.len() == 0 {
        controls
    } else {
        after_buttons(controls, lows.drop_last()).after_button(lows.last())
    }
}

/// Whether the light is on after a row of such polls, if it was `led_on` before:
/// an event that toggles the theme switches it, nothing else does.
pub open spec fn light_after(controls: ControlsView, lows: Seq<bool>, led_on: bool) -> bool
    decreases lows.len(),
{
    if lows.len() == 0 {
        led_on
    } else {
        let earlier = lows.drop_last();
        match after_buttons(controls, earlier).theme_event(lows.last()) {
            ThemeEvent::Toggled(update) => update.led_pin_low,
            _ => light_after(controls, earlier, led_on),
        }
    }
}

/// The theme changes once each time the BOOT button's pin goes from high to low,
/// however long it stays there, and the second button's state and the page are
/// left alone.
pub proof fn law_theme_follows_button(controls: ControlsView, lows: Seq<bool>)
    ensures
        ({
            let after = after_buttons(controls, lows);
            let toggles = crate::edges::rises(lows, !controls.button_pressed);
            &&& after.dark_mode == (controls.dark_mode != (toggles % 2 == 1))
            &&& after.button_pressed == !crate::edges::level_after(lows, !controls.button_pressed)
            &&& after.button2_pressed == controls.button2_pressed
            &&& after.page == controls.page
            &&& after.tick == controls.tick
        }),
    decreases lows.len(),
{
    if lows.len() > 0 {
        law_theme_follows_button(controls, lows.drop_last());
    }
}

/// What a poll of the BOOT button tells is what it did: it tells of a theme exactly
/// when the theme changed, and then the user interface, the light and the light's pin
/// are all given the theme that is on after the poll. Nothing else changes, whatever
/// the tick and the page.
pub proof fn law_toggle_tells_new_theme(controls: ControlsView, low: bool)
    ensures
        ({
            let after = controls.after_button(low);
            let event = controls.theme_event(low);
            &&& after.dark_mode != controls.dark_mode <==> low && controls.button_pressed
            &&& event is Toggled <==> after.dark_mode != controls.dark_mode
            &&& event matches ThemeEvent::Toggled(update) ==> {
                &&& update.dark_mode == after.dark_mode
                &&& update.led_on == after.dark_mode
                &&& update.led_pin_low == after.dark_mode
            }
            &&& event is Armed <==> after.button_pressed && !controls.button_pressed
            &&& after.button_pressed == !low
            &&& after.button2_pressed == controls.button2_pressed
            &&& after.page == controls.page
            &&& after.tick == controls.tick
        }),
{
}

/// What a poll of the second button tells is what it did: it tells of a page exactly
/// when the page turned, and then of the page that is shown after the poll, one
/// further around the ring.
pub proof fn law_turn_tells_new_page(controls: ControlsView, low: bool)
    requires
        0 <= controls.page < 3,
    ensures
        ({
            let after = controls.after_button2(low);
            let event = controls.page_event(low);
            &&& 0 <= after.page < 3
            &&& after.page != controls.page <==> low && controls.button2_pressed
            &&& after.page != controls.page ==> (after.page - controls.page - 1) % 3 == 0
            &&& event is Turned <==> after.page != controls.page
            &&& event matches PageEvent::Turned(page) ==> page == after.page
            &&& event is Armed <==> after.button2_pressed && !controls.button2_pressed
            &&& after.button2_pressed == !low
            &&& after.button_pressed == controls.button_pressed
            &&& after.dark_mode == controls.dark_mode
            &&& after.tick == controls.tick
        }),
{
}

/// What a poll does to theme and page depends on the pins alone: controls that agree
/// on the pin's last level and the theme tell the same, whatever the tick and the
/// page, and likewise for the page.
pub proof fn law_events_ignore_the_rest(a: ControlsView, b: ControlsView, low: bool)
    ensures
        a.button_pressed == b.button_pressed && a.dark_mode == b.dark_mode ==> a.theme_event(low)
            == b.theme_event(low),
        a.button2_pressed == b.button2_pressed && a.page == b.page ==> a.page_event(low)
            == b.page_event(low),
{
}

/// The light mirrors the theme: if it is on in the dark theme and off in the light
/// one, it stays so through every row of polls. Its pin starts high, which is off,
/// with the light theme.
pub proof fn law_light_mirrors_theme(controls: ControlsView, lows: Seq<bool>)
    ensures
        light_after(controls, lows, controls.dark_mode) == after_buttons(controls, lows).dark_mode,
    decreases lows.len(),
{
    if lows.len() > 0 {
        law_light_mirrors_theme(controls, lows.drop_last());
    }
}

/// The controls after a row of polls that find the second button's pin low or high.
pub open spec fn after_buttons2(controls: ControlsView, lows: Seq<bool>) -> ControlsView
    decreases lows.len(),
{
    if lows.len() == 0 {
        controls
    } else {
        after_buttons2(controls, lows.drop_last()).after_button2(lows.last())
    }
}

/// The page turns once each time the second button's pin goes from high to low,
/// around the ring of pages, and the theme and the BOOT button's state are left
/// alone.
pub proof fn law_page_follows_button2(controls: ControlsView, lows: Seq<bool>)
    requires
        crate::pages::is_page(controls.page, PAGE_COUNT as int),
    ensures
        ({
            let after = after_buttons2(controls, lows);
            let turns = crate::edges::rises(lows, !controls.button2_pressed);
            &&& crate::pages::is_page(after.page, PAGE_COUNT as int)
            &&& after.page == (controls.page + turns) % (PAGE_COUNT as int)
            &&& after.button2_pressed == !crate::edges::level_after(
                lows,
                !controls.button2_pressed,
            )
            &&& after.button_pressed == controls.button_pressed
            &&& after.dark_mode == controls.dark_mode
            &&& after.tick == controls.tick
        }),
    decreases lows.len(),
{
    if lows.len() > 0 {
        let earlier = lows.drop_last();
        law_page_follows_button2(controls, earlier);
        crate::pages::law_steps_count_around(
            after_buttons2(controls, earlier).page,
            PAGE_COUNT as int,
        );
        crate::pages::lemma_shift_mod(
            controls.page + crate::edges::rises(earlier, !controls.button2_pressed),
            1,
            PAGE_COUNT as int,
        );
    }
}

/// The buttons do not get in each other's way: in which order they are polled makes
/// no difference, neither to the controls nor to what the polls do.
pub proof fn law_buttons_independent(controls: ControlsView, low: bool, low2: bool)
    ensures
        controls.after_button(low).after_button2(low2) == controls.after_button2(
            low2,
        ).after_button(low),
        controls.after_button(low).page_event(low2) == controls.page_event(low2),
        controls.after_button2(low2).theme_event(low) == controls.theme_event(low),
{
}

/// How many of the next `steps` ticks after `tick` are shown.
pub open spec fn ticks_shown(tick: int, steps: nat) -> nat
    decreases steps,
{
    if steps == 0 {
        0
    } else {
        let next = crate::counters::tick_after(tick);
        ticks_shown(next, (steps - 1) as nat) + if next % (TICKS_PER_UPDATE as int) == 0 {
            1nat
        } else {
            0nat
        }
    }
}

/// Of `TICKS_PER_UPDATE` ticks in a row one is shown, as long as the counter does
/// not start over: between two ticks lie as many shown ones as multiples.
pub proof fn law_one_tick_in_ten_shown(tick: int, steps: nat)
    requires
        tick + steps <= i32::MAX,
    ensures
        ticks_shown(tick, steps) == (tick + steps) / (TICKS_PER_UPDATE as int) - tick / (
        TICKS_PER_UPDATE as int),
        steps == TICKS_PER_UPDATE ==> ticks_shown(tick, steps) == 1,
    decreases steps,
{
    if steps > 0 {
        law_one_tick_in_ten_shown(crate::counters::tick_after(tick), (steps - 1) as nat);
    }
}

} // verus!
