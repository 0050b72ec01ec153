use vstd::prelude::*;
use crate::button::{ElementState, MouseButton, MouseButtonInput};
use crate::events::{ClickEvent, DoubleclickEvent};
use crate::timing::within_window;

verus! {

/// What a click watcher is: its button, its window, and the last press.
pub struct ClickWatcher {
    pub button: MouseButton,
    pub click_window: nat,
    pub press_time: nat,
}

/// The timing state kept for one button by both detectors.
pub struct WatcherState {
    pub click_window: nat,
    pub press_time: nat,
    pub doubleclick_window: nat,
    pub click_time: nat,
}

/// What a watcher pair is: its button and the state kept for it.
pub struct Watcher {
    pub button: MouseButton,
    pub state: WatcherState,
}

impl WatcherState {
    /// A watcher that has seen neither a press nor a click.
    pub open spec fn fresh(click_window: nat, doubleclick_window: nat) -> WatcherState {
        WatcherState { click_window, press_time: 0, doubleclick_window, click_time: 0 }
    }

    /// The state after a press at `now`.
    pub open spec fn pressed(self, now: nat) -> WatcherState {
        WatcherState { press_time: now, ..self }
    }

    /// Whether a release at `now` completes a click.
    pub open spec fn clicks(self, now: nat) -> bool {
        within_window(now, self.press_time, self.click_window)
    }

    /// Whether a click at `now` completes a double click.
    pub open spec fn pairs(self, now: nat) -> bool {
        within_window(now, self.click_time, self.doubleclick_window)
    }

    /// The state after a click at `now`: a completed pair is forgotten,
    /// any other click becomes the one to pair with.
    pub open spec fn clicked(self, now: nat) -> WatcherState {
        WatcherState { click_time: if self.pairs(now) { 0 } else { now }, ..self }
    }
}

/// Whether the transition `ev` at `now` completes a click.
pub open spec fn click_fires(w: Map<MouseButton, WatcherState>, now: nat, ev: MouseButtonInput) -> bool {
    w.contains_key(ev.button) && ev.state == ElementState::Released && w[ev.button].clicks(now)
}

/// The watchers after the transition `ev` at `now`.
pub open spec fn click_next(w: Map<MouseButton, WatcherState>, now: nat, ev: MouseButtonInput) -> Map<
    MouseButton,
    WatcherState,
> {
    if w.contains_key(ev.button) && ev.state == ElementState::Pressed {
        w.insert(ev.button, w[ev.button].pressed(now))
    } else {
        w
    }
}

/// The watchers after the transitions `evs`, taken in order, all at `now`.
pub open spec fn clicks_next(w: Map<MouseButton, WatcherState>, now: nat, evs: Seq<MouseButtonInput>) -> Map<
    MouseButton,
    WatcherState,
>
    decreases evs.len(),
{
    if evs.len() == 0 {
        w
    } else {
        click_next(clicks_next(w, now, evs.drop_last()), now, evs.last())
    }
}

/// The clicks that the transitions `evs` complete, in order.
pub open spec fn clicks_emitted(w: Map<MouseButton, WatcherState>, now: nat, evs: Seq<MouseButtonInput>) -> Seq<
    ClickEvent,
>
    decreases evs.len(),
{
    if evs.len() == 0 {
        Seq::empty()
    } else {
        let before = clicks_next(w, now, evs.drop_last());
        let out = clicks_emitted(w, now, evs.drop_last());
        if click_fires(before, now, evs.last()) {
            out.push(ClickEvent { button: evs.last().button })
        } else {
            out
        }
    }
}

/// Whether the click `c` at `now` completes a double click.
pub open spec fn pair_fires(w: Map<MouseButton, WatcherState>, now: nat, c: ClickEvent) -> bool {
    w.contains_key(c.button) && w[c.button].pairs(now)
}

/// The watchers after the click `c` at `now`.
pub open spec fn pair_next(w: Map<MouseButton, WatcherState>, now: nat, c: ClickEvent) -> Map<
    MouseButton,
    WatcherState,
> {
    if w.contains_key(c.button) {
        w.insert(c.button, w[c.button].clicked(now))
    } else {
        w
    }
}

/// The watchers after the clicks `cs`, taken in order, all at `now`.
pub open spec fn pairs_next(w: Map<MouseButton, WatcherState>, now: nat, cs: Seq<ClickEvent>) -> Map<
    MouseButton,
    WatcherState,
>
    decreases cs.len(),
{
    if cs.len() == 0 {
        w
    } else {
        pair_next(pairs_next(w, now, cs.drop_last()), now, cs.last())
    }
}

/// The double clicks that the clicks `cs` complete, in order.
pub open spec fn pairs_emitted(w: Map<MouseButton, WatcherState>, now: nat, cs: Seq<ClickEvent>) -> Seq<
    DoubleclickEvent,
>
    decreases cs.len(),
{
    if cs.len() == 0 {
        Seq::empty()
    } else {
        let before = pairs_next(w, now, cs.drop_last());
        let out = pairs_emitted(w, now, cs.drop_last());
        if pair_fires(before, now, cs.last()) {
            out.push(DoubleclickEvent { button: cs.last().button })
        } else {
            out
        }
    }
}

/// The watchers after one whole cycle at `now`: first every transition, then
/// every click that they completed.
pub open spec fn cycle_next(w: Map<MouseButton, WatcherState>, now: nat, evs: Seq<MouseButtonInput>) -> Map<
    MouseButton,
    WatcherState,
> {
    pairs_next(clicks_next(w, now, evs), now, clicks_emitted(w, now, evs))
}

/// The double clicks of one whole cycle at `now`.
pub open spec fn cycle_doubles(w: Map<MouseButton, WatcherState>, now: nat, evs: Seq<MouseButtonInput>) -> Seq<
    DoubleclickEvent,
> {
    pairs_emitted(clicks_next(w, now, evs), now, clicks_emitted(w, now, evs))
}

} // verus!
