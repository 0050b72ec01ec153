use vstd::prelude::*;
use crate::button::{ElementState, MouseButton, MouseButtonInput};
use crate::events::{ClickEvent, DoubleclickEvent};
use crate::model::{
    click_fires, click_next, clicks_emitted, clicks_next, cycle_doubles, cycle_next, pair_fires, pair_next,
    pairs_emitted, pairs_next, WatcherState,
};

verus! {

/// The press of `b`.
pub open spec fn press_of(b: MouseButton) -> MouseButtonInput {
    MouseButtonInput { button: b, state: ElementState::Pressed }
}

/// The release of `b`.
pub open spec fn release_of(b: MouseButton) -> MouseButtonInput {
    MouseButtonInput { button: b, state: ElementState::Released }
}

/// The click of `b`.
pub open spec fn click_of(b: MouseButton) -> ClickEvent {
    ClickEvent { button: b }
}

/// The double click of `b`.
pub open spec fn double_of(b: MouseButton) -> DoubleclickEvent {
    DoubleclickEvent { button: b }
}

/// The clicks that are of `b`.
pub open spec fn clicks_of(b: MouseButton) -> spec_fn(ClickEvent) -> bool {
    |c: ClickEvent| c.button == b
}

/// The double clicks that are of `b`.
pub open spec fn doubles_of(b: MouseButton) -> spec_fn(DoubleclickEvent) -> bool {
    |d: DoubleclickEvent| d.button == b
}

/// A cycle of one transition is that transition's step.
pub proof fn lemma_single_transition(w: Map<MouseButton, WatcherState>, now: nat, ev: MouseButtonInput)
    ensures
        clicks_next(w, now, seq![ev]) == click_next(w, now, ev),
        clicks_emitted(w, now, seq![ev]) == (if click_fires(w, now, ev) {
            seq![click_of(ev.button)]
        } else {
            Seq::empty()
        }),
{
    let one = seq![ev];
    assert(one.drop_last() =~= Seq::empty());
    assert(one.last() == ev);
    assert(clicks_next(w, now, one.drop_last()) == w);
    assert(clicks_emitted(w, now, one.drop_last()) =~= Seq::empty());
    assert(Seq::<ClickEvent>::empty().push(click_of(ev.button)) =~= seq![click_of(ev.button)]);
}

/// A cycle of one click is that click's step.
pub proof fn lemma_single_click(w: Map<MouseButton, WatcherState>, now: nat, c: ClickEvent)
    ensures
        pairs_next(w, now, seq![c]) == pair_next(w, now, c),
        pairs_emitted(w, now, seq![c]) == (if pair_fires(w, now, c) {
            seq![double_of(c.button)]
        } else {
            Seq::empty()
        }),
{
    let one = seq![c];
    assert(one.drop_last() =~= Seq::empty());
    assert(one.last() == c);
    assert(pairs_next(w, now, one.drop_last()) == w);
    assert(pairs_emitted(w, now, one.drop_last()) =~= Seq::empty());
    assert(Seq::<DoubleclickEvent>::empty().push(double_of(c.button)) =~= seq![double_of(c.button)]);
}

/// A press of a watched button at `t0` gives no click, and its release at
/// `t1` gives exactly one click of that button when `t1 - t0` is no more
/// than the button's click window, and none when it is more.
pub proof fn law_press_then_release(w: Map<MouseButton, WatcherState>, b: MouseButton, t0: nat, t1: nat)
    requires
        w.contains_key(b),
    ensures
        clicks_emitted(w, t0, seq![press_of(b)]) == Seq::<ClickEvent>::empty(),
        clicks_emitted(clicks_next(w, t0, seq![press_of(b)]), t1, seq![release_of(b)]) == (if t1 - t0
            <= w[b].click_window {
            seq![click_of(b)]
        } else {
            Seq::empty()
        }),
{
    lemma_single_transition(w, t0, press_of(b));
    lemma_single_transition(click_next(w, t0, press_of(b)), t1, release_of(b));
}

/// A press and the release of the same watched button within one cycle
/// give exactly one click of it.
pub proof fn law_press_and_release_in_one_cycle(w: Map<MouseButton, WatcherState>, b: MouseButton, now: nat)
    requires
        w.contains_key(b),
    ensures
        clicks_emitted(w, now, seq![press_of(b), release_of(b)]) == seq![click_of(b)],
{
    let both = seq![press_of(b), release_of(b)];
    assert(both.drop_last() =~= seq![press_of(b)]);
    assert(both.last() == release_of(b));
    lemma_single_transition(w, now, press_of(b));
    assert(Seq::<ClickEvent>::empty().push(click_of(b)) =~= seq![click_of(b)]);
}

/// A transition that gives a click is a release.
pub proof fn law_only_release_clicks(w: Map<MouseButton, WatcherState>, now: nat, ev: MouseButtonInput)
    requires
        click_fires(w, now, ev),
    ensures
        ev.state == ElementState::Released,
{
}

/// Presses alone give no click, however many and of whatever buttons.
pub proof fn law_press_never_clicks(w: Map<MouseButton, WatcherState>, now: nat, evs: Seq<MouseButtonInput>)
    requires
        forall|i: int| 0 <= i < evs.len() ==> (#[trigger] evs[i]).state == ElementState::Pressed,
    ensures
        clicks_emitted(w, now, evs) == Seq::<ClickEvent>::empty(),
    decreases evs.len(),
{
    if evs.len() > 0 {
        law_press_never_clicks(w, now, evs.drop_last());
        assert(evs.last() == evs[evs.len() - 1]);
    }
}

/// There are never more clicks than transitions.
pub proof fn law_at_most_one_click_each(w: Map<MouseButton, WatcherState>, now: nat, evs: Seq<MouseButtonInput>)
    ensures
        clicks_emitted(w, now, evs).len() <= evs.len(),
    decreases evs.len(),
{
    if evs.len() > 0 {
        law_at_most_one_click_each(w, now, evs.drop_last());
    }
}

/// A button that was never pressed gives no click, whatever is released,
/// once the time is past its click window; and its watcher stays as it was.
pub proof fn law_release_without_press(
    w: Map<MouseButton, WatcherState>,
    b: MouseButton,
    now: nat,
    evs: Seq<MouseButtonInput>,
)
    requires
        w.contains_key(b) ==> w[b].press_time == 0 && now > w[b].click_window,
        forall|i: int| 0 <= i < evs.len() ==> #[trigger] evs[i] != press_of(b),
    ensures
        clicks_next(w, now, evs).contains_key(b) == w.contains_key(b),
        w.contains_key(b) ==> clicks_next(w, now, evs)[b] == w[b],
        forall|k: int|
            0 <= k < clicks_emitted(w, now, evs).len() ==> (#[trigger] clicks_emitted(w, now, evs)[k]).button != b,
    decreases evs.len(),
{
    if evs.len() > 0 {
        law_release_without_press(w, b, now, evs.drop_last());
        let ev = evs.last();
        assert(ev == evs[evs.len() - 1]);
        assert(ev != press_of(b));
    }
}

/// A first click of a watched button at `t0` that pairs with nothing before
/// it gives no double click, and a second at `t1` gives exactly one double
/// click of that button when `t1 - t0` is no more than the button's
/// double-click window, and none when it is more.
pub proof fn law_two_clicks_pair(w: Map<MouseButton, WatcherState>, b: MouseButton, t0: nat, t1: nat)
    requires
        w.contains_key(b),
        !w[b].pairs(t0),
    ensures
        pairs_emitted(w, t0, seq![click_of(b)]) == Seq::<DoubleclickEvent>::empty(),
        pairs_emitted(pairs_next(w, t0, seq![click_of(b)]), t1, seq![click_of(b)]) == (if t1 - t0
            <= w[b].doubleclick_window {
            seq![double_of(b)]
        } else {
            Seq::empty()
        }),
{
    lemma_single_click(w, t0, click_of(b));
    lemma_single_click(pair_next(w, t0, click_of(b)), t1, click_of(b));
}

/// After a click that completed a double click, the next click of that
/// button pairs with nothing: past the double-click window since the start
/// it gives no double click, and becomes the click to pair with.
pub proof fn law_third_click_starts_anew(w: Map<MouseButton, WatcherState>, b: MouseButton, t1: nat, t2: nat)
    requires
        w.contains_key(b),
        w[b].pairs(t1),
        t2 > w[b].doubleclick_window,
    ensures
        pairs_emitted(w, t1, seq![click_of(b)]) == seq![double_of(b)],
        pairs_next(w, t1, seq![click_of(b)])[b].click_time == 0,
        pairs_emitted(pairs_next(w, t1, seq![click_of(b)]), t2, seq![click_of(b)]) == Seq::<
            DoubleclickEvent,
        >::empty(),
        pairs_next(pairs_next(w, t1, seq![click_of(b)]), t2, seq![click_of(b)])[b].click_time == t2,
{
    lemma_single_click(w, t1, click_of(b));
    lemma_single_click(pair_next(w, t1, click_of(b)), t2, click_of(b));
}

/// What the double-click detector does for a button depends on that
/// button's watcher and that button's clicks alone: with the clicks of all
/// other buttons left out, and whatever the other watchers hold, its watcher
/// ends the same and the same double clicks of it are given.
pub proof fn law_buttons_independent(
    w: Map<MouseButton, WatcherState>,
    v: Map<MouseButton, WatcherState>,
    now: nat,
    cs: Seq<ClickEvent>,
    b: MouseButton,
)
    requires
        w.contains_key(b) == v.contains_key(b),
        w.contains_key(b) ==> w[b] == v[b],
    ensures
        pairs_next(w, now, cs).contains_key(b) == w.contains_key(b),
        pairs_next(v, now, cs.filter(clicks_of(b))).contains_key(b) == w.contains_key(b),
        w.contains_key(b) ==> pairs_next(w, now, cs)[b] == pairs_next(v, now, cs.filter(clicks_of(b)))[b],
        pairs_emitted(w, now, cs).filter(doubles_of(b)) == pairs_emitted(v, now, cs.filter(clicks_of(b))),
    decreases cs.len(),
{
    reveal(Seq::filter);
    if cs.len() == 0 {
        assert(pairs_emitted(w, now, cs).filter(doubles_of(b)) =~= Seq::empty());
    } else {
        let init = cs.drop_last();
        let c = cs.last();
        law_buttons_independent(w, v, now, init, b);
        let own_init = init.filter(clicks_of(b));
        let out_init = pairs_emitted(w, now, init);
        let w1 = pairs_next(w, now, init);
        let v1 = pairs_next(v, now, own_init);
        out_init.lemma_filter_push(double_of(c.button), doubles_of(b));
        if c.button == b {
            let own = own_init.push(c);
            assert(cs.filter(clicks_of(b)) == own);
            assert(own.drop_last() =~= own_init);
            assert(own.last() == c);
            assert(pair_fires(w1, now, c) == pair_fires(v1, now, c));
        } else {
            assert(cs.filter(clicks_of(b)) == own_init);
        }
    }
}

/// Clicks of other buttons leave a button's watcher as it was and give no
/// double click of it.
pub proof fn law_no_cross_trigger(w: Map<MouseButton, WatcherState>, now: nat, cs: Seq<ClickEvent>, b: MouseButton)
    requires
        forall|i: int| 0 <= i < cs.len() ==> (#[trigger] cs[i]).button != b,
    ensures
        pairs_next(w, now, cs).contains_key(b) == w.contains_key(b),
        w.contains_key(b) ==> pairs_next(w, now, cs)[b] == w[b],
        forall|k: int|
            0 <= k < pairs_emitted(w, now, cs).len() ==> (#[trigger] pairs_emitted(w, now, cs)[k]).button != b,
    decreases cs.len(),
{
    if cs.len() > 0 {
        law_no_cross_trigger(w, now, cs.drop_last(), b);
        assert(cs.last() == cs[cs.len() - 1]);
    }
}

/// Transitions of other buttons leave a button's watcher as it was and give
/// no click of it.
pub proof fn law_no_cross_click(
    w: Map<MouseButton, WatcherState>,
    now: nat,
    evs: Seq<MouseButtonInput>,
    b: MouseButton,
)
    requires
        forall|i: int| 0 <= i < evs.len() ==> (#[trigger] evs[i]).button != b,
    ensures
        clicks_next(w, now, evs).contains_key(b) == w.contains_key(b),
        w.contains_key(b) ==> clicks_next(w, now, evs)[b] == w[b],
        forall|k: int|
            0 <= k < clicks_emitted(w, now, evs).len() ==> (#[trigger] clicks_emitted(w, now, evs)[k]).button != b,
    decreases evs.len(),
{
    if evs.len() > 0 {
        law_no_cross_click(w, now, evs.drop_last(), b);
        assert(evs.last() == evs[evs.len() - 1]);
    }
}

/// The click detector neither adds nor drops a watcher, and of a watcher it
/// changes nothing but the time of the last press.
pub proof fn law_click_detector_owns_press_time(
    w: Map<MouseButton, WatcherState>,
    now: nat,
    evs: Seq<MouseButtonInput>,
    b: MouseButton,
)
    ensures
        clicks_next(w, now, evs).contains_key(b) == w.contains_key(b),
        w.contains_key(b) ==> clicks_next(w, now, evs)[b] == (WatcherState {
            press_time: clicks_next(w, now, evs)[b].press_time,
            ..w[b]
        }),
    decreases evs.len(),
{
    if evs.len() > 0 {
        law_click_detector_owns_press_time(w, now, evs.drop_last(), b);
    }
}

/// The double-click detector neither adds nor drops a watcher, and of a
/// watcher it changes nothing but the click to pair with.
pub proof fn law_double_click_detector_owns_click_time(
    w: Map<MouseButton, WatcherState>,
    now: nat,
    cs: Seq<ClickEvent>,
    b: MouseButton,
)
    ensures
        pairs_next(w, now, cs).contains_key(b) == w.contains_key(b),
        w.contains_key(b) ==> pairs_next(w, now, cs)[b] == (WatcherState {
            click_time: pairs_next(w, now, cs)[b].click_time,
            ..w[b]
        }),
    decreases cs.len(),
{
    if cs.len() > 0 {
        law_double_click_detector_owns_click_time(w, now, cs.drop_last(), b);
    }
}

/// A cycle is a function of the watchers, the time and the transitions:
/// from equal watchers, equal transitions at an equal time give the same
/// clicks, the same double clicks and the same watchers afterwards.
pub proof fn law_replay_gives_the_same(
    w: Map<MouseButton, WatcherState>,
    v: Map<MouseButton, WatcherState>,
    now: nat,
    evs: Seq<MouseButtonInput>,
    again: Seq<MouseButtonInput>,
)
    requires
        w =~= v,
        evs =~= again,
    ensures
        clicks_emitted(w, now, evs) == clicks_emitted(v, now, again),
        cycle_doubles(w, now, evs) == cycle_doubles(v, now, again),
        cycle_next(w, now, evs) == cycle_next(v, now, again),
{
}

} // verus!
