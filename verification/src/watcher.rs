use vstd::prelude::*;
use crate::button::{Button, ElementState, MouseButton, MouseButtonInput};
use crate::events::ClickEvent;
use crate::model::{ClickWatcher, Watcher, WatcherState};
use crate::timing::{elapsed_within, within_window, ClickDuration, ClickTime, DoubleclickDuration, DoubleclickTime};

verus! {

/// The click watcher of one button: its window and when it was last pressed.
#[derive(Clone, Copy, Debug)]
pub struct ClickDetectorBundle {
    button: Button,
    duration: ClickDuration,
    press_time: ClickTime,
}

impl View for ClickDetectorBundle {
    type V = ClickWatcher;

    closed spec fn view(&self) -> ClickWatcher {
        ClickWatcher { button: self.button@, click_window: self.duration@, press_time: self.press_time@ }
    }
}

impl ClickDetectorBundle {
    /// A watcher of `button` that has not seen a press yet.
    pub fn new(button: Button, duration: ClickDuration) -> (r: ClickDetectorBundle)
        ensures
            r@ == (ClickWatcher { button: button@, click_window: duration@, press_time: 0 }),
    {
        ClickDetectorBundle { button, duration, press_time: ClickTime::new(0) }
    }

    pub fn button(&self) -> (r: Button)
        ensures
            r@ == self@.button,
    {
        self.button
    }

    pub fn duration(&self) -> (r: ClickDuration)
        ensures
            r@ == self@.click_window,
    {
        self.duration
    }

    pub fn press_time(&self) -> (r: ClickTime)
        ensures
            r@ == self@.press_time,
    {
        self.press_time
    }

    /// Takes one transition at `now`. A press of this watcher's button is
    /// remembered; a release of it within the window since the last press is
    /// a click, and `true` is returned. Other buttons are ignored.
    pub fn observe(&mut self, ev: &MouseButtonInput, now: u64) -> (fired: bool)
        ensures
            final(self)@.button == old(self)@.button,
            final(self)@.click_window == old(self)@.click_window,
            final(self)@.press_time == (if ev.button == old(self)@.button && ev.state == ElementState::Pressed {
                now as nat
            } else {
                old(self)@.press_time
            }),
            fired == (ev.button == old(self)@.button && ev.state == ElementState::Released && within_window(
                now as nat,
                old(self)@.press_time,
                old(self)@.click_window,
            )),
    {
        if self.button.get() == ev.button {
            match ev.state {
                ElementState::Pressed => {
                    self.press_time = ClickTime::new(now);
                    false
                },
                ElementState::Released => elapsed_within(now, self.press_time.nanos(), self.duration.nanos()),
            }
        } else {
            false
        }
    }
}

/// Both watchers of one button: the click watcher, and the double-click
/// window with the click that the next one may pair with.
#[derive(Clone, Copy, Debug)]
pub struct DoubleClickDetectorBundle {
    cdb: ClickDetectorBundle,
    duration: DoubleclickDuration,
    click_time: DoubleclickTime,
}

impl View for DoubleClickDetectorBundle {
    type V = Watcher;

    closed spec fn view(&self) -> Watcher {
        Watcher {
            button: self.cdb@.button,
            state: WatcherState {
                click_window: self.cdb@.click_window,
                press_time: self.cdb@.press_time,
                doubleclick_window: self.duration@,
                click_time: self.click_time@,
            },
        }
    }
}

impl DoubleClickDetectorBundle {
    /// The pair of watchers around `cdb`, with no click to pair with yet.
    pub fn new(cdb: ClickDetectorBundle, duration: DoubleclickDuration) -> (r: DoubleClickDetectorBundle)
        ensures
            r@.button == cdb@.button,
            r@.state == (WatcherState {
                click_window: cdb@.click_window,
                press_time: cdb@.press_time,
                doubleclick_window: duration@,
                click_time: 0,
            }),
    {
        DoubleClickDetectorBundle { cdb, duration, click_time: DoubleclickTime::new(0) }
    }

    pub fn button(&self) -> (r: Button)
        ensures
            r@ == self@.button,
    {
        self.cdb.button()
    }

    pub fn cdb(&self) -> (r: ClickDetectorBundle)
        ensures
            r@.button == self@.button,
            r@.click_window == self@.state.click_window,
            r@.press_time == self@.state.press_time,
    {
        self.cdb
    }

    pub fn duration(&self) -> (r: DoubleclickDuration)
        ensures
            r@ == self@.state.doubleclick_window,
    {
        self.duration
    }

    pub fn click_time(&self) -> (r: DoubleclickTime)
        ensures
            r@ == self@.state.click_time,
    {
        self.click_time
    }

    /// Takes one transition at `now`, as the click watcher does; the
    /// double-click side is left as it was.
    pub fn observe_input(&mut self, ev: &MouseButtonInput, now: u64) -> (fired: bool)
        ensures
            final(self)@.button == old(self)@.button,
            final(self)@.state == (if ev.button == old(self)@.button && ev.state == ElementState::Pressed {
                old(self)@.state.pressed(now as nat)
            } else {
                old(self)@.state
            }),
            fired == (ev.button == old(self)@.button && ev.state == ElementState::Released && old(
                self,
            )@.state.clicks(now as nat)),
    {
        self.cdb.observe(ev, now)
    }

    /// Takes one click at `now`. A click of this watcher's button within the
    /// window since the one before completes a double click: `true` is
    /// returned and the pair is forgotten. Any other click of the button is
    /// remembered as the one to pair with. Other buttons are ignored.
    pub fn observe_click(&mut self, click: &ClickEvent, now: u64) -> (fired: bool)
        ensures
            final(self)@.button == old(self)@.button,
            final(self)@.state == (if click.button == old(self)@.button {
                old(self)@.state.clicked(now as nat)
            } else {
                old(self)@.state
            }),
            fired == (click.button == old(self)@.button && old(self)@.state.pairs(now as nat)),
    {
        if self.cdb.button().get() == click.button {
            if elapsed_within(now, self.click_time.nanos(), self.duration.nanos()) {
                self.click_time = DoubleclickTime::new(0);
                true
            } else {
                self.click_time = DoubleclickTime::new(now);
                false
            }
        } else {
            false
        }
    }
}

} // verus!
