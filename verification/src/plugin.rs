use vstd::prelude::*;
use crate::button::{Button, MouseButton, MouseButtonInput};
use crate::events::{ClickEvent, DoubleclickEvent};
use crate::model::{
    click_fires, click_next, clicks_emitted, clicks_next, cycle_doubles, cycle_next, pair_fires, pair_next,
    pairs_emitted, pairs_next, WatcherState,
};
use crate::timing::{
    ClickDuration, ConfigError, DoubleclickDuration, DEFAULT_CLICK_NANOS, DEFAULT_DOUBLECLICK_NANOS,
};
use crate::watcher::{ClickDetectorBundle, DoubleClickDetectorBundle};

verus! {

/// No two watchers of `s` are bound to one button.
pub open spec fn distinct_buttons(s: Seq<DoubleClickDetectorBundle>) -> bool {
    forall|i: int, j: int| 0 <= i < j < s.len() ==> (#[trigger] s[i])@.button != (#[trigger] s[j])@.button
}

/// Some watcher of `s` is bound to `b`.
pub open spec fn has_button(s: Seq<DoubleClickDetectorBundle>, b: MouseButton) -> bool {
    exists|i: int| 0 <= i < s.len() && (#[trigger] s[i])@.button == b
}

/// Where in `s` the watcher of `b` stands, if there is one.
pub open spec fn index_of(s: Seq<DoubleClickDetectorBundle>, b: MouseButton) -> int {
    choose|i: int| 0 <= i < s.len() && (#[trigger] s[i])@.button == b
}

/// The watchers of `s` by their buttons.
pub open spec fn watchers_of(s: Seq<DoubleClickDetectorBundle>) -> Map<MouseButton, WatcherState> {
    Map::new(|b: MouseButton| has_button(s, b), |b: MouseButton| s[index_of(s, b)]@.state)
}

/// The watchers that `plugin_init` sets up: the left, middle and right
/// buttons, each with the default windows and nothing seen yet.
pub open spec fn default_watchers() -> Map<MouseButton, WatcherState> {
    let fresh = WatcherState::fresh(DEFAULT_CLICK_NANOS as nat, DEFAULT_DOUBLECLICK_NANOS as nat);
    Map::empty().insert(MouseButton::Left, fresh).insert(MouseButton::Middle, fresh).insert(
        MouseButton::Right,
        fresh,
    )
}

/// Among distinct watchers, the one at `k` is the one found under its button.
pub proof fn lemma_lookup(s: Seq<DoubleClickDetectorBundle>, k: int)
    requires
        distinct_buttons(s),
        0 <= k < s.len(),
    ensures
        has_button(s, s[k]@.button),
        index_of(s, s[k]@.button) == k,
        watchers_of(s).contains_key(s[k]@.button),
        watchers_of(s)[s[k]@.button] == s[k]@.state,
{
    let b = s[k]@.button;
    assert(has_button(s, b));
    let found = index_of(s, b);
    assert(0 <= found < s.len() && s[found]@.button == b);
    if found < k {
        assert(s[found]@.button != s[k]@.button);
    } else if k < found {
        assert(s[k]@.button != s[found]@.button);
    }
}

/// Replacing a watcher by one of the same button replaces its entry and
/// touches no other.
pub proof fn lemma_replace(s: Seq<DoubleClickDetectorBundle>, k: int, w: DoubleClickDetectorBundle)
    requires
        distinct_buttons(s),
        0 <= k < s.len(),
        w@.button == s[k]@.button,
    ensures
        distinct_buttons(s.update(k, w)),
        watchers_of(s.update(k, w)) == watchers_of(s).insert(w@.button, w@.state),
{
    let t = s.update(k, w);
    assert forall|i: int| 0 <= i < s.len() implies (#[trigger] t[i])@.button == s[i]@.button by {}
    assert(distinct_buttons(t)) by {
        assert forall|i: int, j: int| 0 <= i < j < t.len() implies (#[trigger] t[i])@.button != (#[trigger] t[j])@.button by {
            assert(s[i]@.button != s[j]@.button);
        }
    }
    let before = watchers_of(s).insert(w@.button, w@.state);
    let after = watchers_of(t);
    assert forall|b: MouseButton| after.contains_key(b) == before.contains_key(b) by {
        if has_button(t, b) {
            let i = index_of(t, b);
            assert(s[i]@.button == b);
        }
        if has_button(s, b) {
            let i = index_of(s, b);
            assert(t[i]@.button == b);
        }
        lemma_lookup(s, k);
    }
    assert forall|b: MouseButton| after.contains_key(b) implies after[b] == before[b] by {
        let i = index_of(t, b);
        lemma_lookup(t, i);
        if i != k {
            assert(t[i] == s[i]);
            lemma_lookup(s, i);
            if i < k {
                assert(s[i]@.button != s[k]@.button);
            } else {
                assert(s[k]@.button != s[i]@.button);
            }
        }
    }
    assert(after =~= before);
}

/// The watched buttons of a session, at most one pair of watchers for each.
#[derive(Debug)]
pub struct ClickingPlugin {
    watchers: Vec<DoubleClickDetectorBundle>,
}

impl View for ClickingPlugin {
    type V = Map<MouseButton, WatcherState>;

    closed spec fn view(&self) -> Map<MouseButton, WatcherState> {
        watchers_of(self.watchers@)
    }
}

/// Whether no two watchers of `list` are bound to one button.
pub fn all_distinct(list: &Vec<DoubleClickDetectorBundle>) -> (r: bool)
    ensures
        r == distinct_buttons(list@),
{
    let mut j: usize = 0;
    while j < list.len()
        invariant
            j <= list.len(),
            distinct_buttons(list@.take(j as int)),
        decreases list.len() - j,
    {
        let here = list[j].button().get();
        let mut i: usize = 0;
        while i < j
            invariant
                i <= j < list.len(),
                here == list@[j as int]@.button,
                forall|a: int| 0 <= a < i ==> (#[trigger] list@[a])@.button != here,
            decreases j - i,
        {
            if list[i].button().get() == here {
                assert(list@[i as int]@.button == list@[j as int]@.button);
                return false;
            }
            i += 1;
        }
        proof {
            let grown = list@.take(j as int + 1);
            assert forall|a: int, b: int| 0 <= a < b < grown.len() implies (#[trigger] grown[a])@.button != (
            #[trigger] grown[b])@.button by {
                if b < j {
                    assert(list@.take(j as int)[a] == grown[a]);
                    assert(list@.take(j as int)[b] == grown[b]);
                }
            }
        }
        j += 1;
    }
    assert(list@.take(list.len() as int) =~= list@);
    true
}

/// The default watchers: the left, middle and right buttons, each with a
/// click window of a tenth of a second and a double-click window of three
/// tenths.
pub fn plugin_init() -> (r: ClickingPlugin)
    ensures
        r@ == default_watchers(),
{
    let click = ClickDuration::new(DEFAULT_CLICK_NANOS).unwrap();
    let double = DoubleclickDuration::new(DEFAULT_DOUBLECLICK_NANOS).unwrap();
    let left = DoubleClickDetectorBundle::new(ClickDetectorBundle::new(Button::new(MouseButton::Left), click), double);
    let middle = DoubleClickDetectorBundle::new(
        ClickDetectorBundle::new(Button::new(MouseButton::Middle), click),
        double,
    );
    let right = DoubleClickDetectorBundle::new(
        ClickDetectorBundle::new(Button::new(MouseButton::Right), click),
        double,
    );
    let mut watchers: Vec<DoubleClickDetectorBundle> = Vec::new();
    watchers.push(left);
    watchers.push(middle);
    watchers.push(right);
    proof {
        let s = watchers@;
        assert(s[0] == left && s[1] == middle && s[2] == right);
        assert(distinct_buttons(s));
        lemma_lookup(s, 0);
        lemma_lookup(s, 1);
        lemma_lookup(s, 2);
        assert forall|b: MouseButton| has_button(s, b) implies default_watchers().contains_key(b) by {
            let i = index_of(s, b);
            assert(i == 0 || i == 1 || i == 2);
        }
        assert(watchers_of(s) =~= default_watchers());
    }
    ClickingPlugin { watchers }
}

impl ClickingPlugin {
    #[verifier::type_invariant]
    spec fn distinct(self) -> bool {
        distinct_buttons(self.watchers@)
    }

    /// The plugin that watches with `list`; refused when two watchers of
    /// `list` are bound to one button.
    pub fn with_watchers(list: Vec<DoubleClickDetectorBundle>) -> (r: Result<ClickingPlugin, ConfigError>)
        ensures
            distinct_buttons(list@) ==> r is Ok && r->Ok_0@ == watchers_of(list@),
            !distinct_buttons(list@) ==> r is Err && r->Err_0 == ConfigError::DuplicateButton,
    {
        if all_distinct(&list) {
            Ok(ClickingPlugin { watchers: list })
        } else {
            Err(ConfigError::DuplicateButton)
        }
    }

    fn find(&self, button: MouseButton) -> (r: Option<usize>)
        ensures
            match r {
                Some(i) => i < self.watchers@.len() && self.watchers@[i as int]@.button == button,
                None => !self@.contains_key(button),
            },
    {
        let mut i: usize = 0;
        while i < self.watchers.len()
            invariant
                i <= self.watchers@.len(),
                forall|a: int| 0 <= a < i ==> (#[trigger] self.watchers@[a])@.button != button,
            decreases self.watchers@.len() - i,
        {
            if self.watchers[i].button().get() == button {
                return Some(i);
            }
            i += 1;
        }
        None
    }

    /// Puts `w` in the place of the watcher at `i`, which is of the same
    /// button. The list is taken out for the change and put back after it,
    /// so that it is never seen half changed.
    fn put(&mut self, i: usize, w: DoubleClickDetectorBundle)
        requires
            i < old(self).watchers@.len(),
            w@.button == old(self).watchers@[i as int]@.button,
        ensures
            final(self).watchers@ == old(self).watchers@.update(i as int, w),
            final(self)@ == old(self)@.insert(w@.button, w@.state),
    {
        proof {
            use_type_invariant(&*self);
            lemma_replace(self.watchers@, i as int, w);
        }
        let mut list: Vec<DoubleClickDetectorBundle> = Vec::new();
        core::mem::swap(&mut self.watchers, &mut list);
        list.set(i, w);
        core::mem::swap(&mut self.watchers, &mut list);
    }

    /// The watchers of `button` as they stand, if it is watched.
    pub fn watcher(&self, button: MouseButton) -> (r: Option<DoubleClickDetectorBundle>)
        ensures
            r is Some == self@.contains_key(button),
            r is Some ==> r->Some_0@.button == button && r->Some_0@.state == self@[button],
    {
        match self.find(button) {
            Some(i) => {
                proof {
                    use_type_invariant(self);
                    lemma_lookup(self.watchers@, i as int);
                }
                Some(self.watchers[i])
            },
            None => None,
        }
    }

    /// Takes one transition at `now`: a press of a watched button is
    /// remembered, a release of one within its click window since the last
    /// press gives a click. A button that is not watched is ignored.
    pub fn on_input(&mut self, ev: &MouseButtonInput, now: u64) -> (r: Option<ClickEvent>)
        ensures
            final(self)@ == click_next(old(self)@, now as nat, *ev),
            r == (if click_fires(old(self)@, now as nat, *ev) {
                Some(ClickEvent { button: ev.button })
            } else {
                None
            }),
    {
        match self.find(ev.button) {
            None => None,
            Some(i) => {
                let mut w = self.watchers[i];
                let fired = w.observe_input(ev, now);
                proof {
                    use_type_invariant(&*self);
                    lemma_lookup(self.watchers@, i as int);
                    assert(self@.insert(ev.button, self@[ev.button]) =~= self@);
                }
                self.put(i, w);
                if fired {
                    Some(ClickEvent { button: ev.button })
                } else {
                    None
                }
            },
        }
    }

    /// Takes one click at `now`: a click of a watched button within its
    /// double-click window since the one before gives a double click and is
    /// forgotten with it; any other becomes the one to pair with. A button
    /// that is not watched is ignored.
    pub fn on_click(&mut self, click: &ClickEvent, now: u64) -> (r: Option<DoubleclickEvent>)
        ensures
            final(self)@ == pair_next(old(self)@, now as nat, *click),
            r == (if pair_fires(old(self)@, now as nat, *click) {
                Some(DoubleclickEvent { button: click.button })
            } else {
                None
            }),
    {
        match self.find(click.button) {
            None => None,
            Some(i) => {
                let mut w = self.watchers[i];
                let fired = w.observe_click(click, now);
                proof {
                    use_type_invariant(&*self);
                    lemma_lookup(self.watchers@, i as int);
                }
                self.put(i, w);
                if fired {
                    Some(DoubleclickEvent { button: click.button })
                } else {
                    None
                }
            },
        }
    }

    /// Takes the transitions of one cycle, in order, all at `now`, and gives
    /// the clicks that they complete, in order.
    pub fn click_detector(&mut self, input: &Vec<MouseButtonInput>, now: u64) -> (clicks: Vec<ClickEvent>)
        ensures
            final(self)@ == clicks_next(old(self)@, now as nat, input@),
            clicks@ == clicks_emitted(old(self)@, now as nat, input@),
    {
        let mut clicks: Vec<ClickEvent> = Vec::new();
        let mut k: usize = 0;
        while k < input.len()
            invariant
                k <= input.len(),
                self@ == clicks_next(old(self)@, now as nat, input@.take(k as int)),
                clicks@ == clicks_emitted(old(self)@, now as nat, input@.take(k as int)),
            decreases input.len() - k,
        {
            proof {
                assert(input@.take(k as int + 1).drop_last() =~= input@.take(k as int));
            }
            match self.on_input(&input[k], now) {
                Some(click) => {
                    clicks.push(click);
                },
                None => {},
            }
            k += 1;
        }
        proof {
            assert(input@.take(input.len() as int) =~= input@);
        }
        clicks
    }

    /// Takes the clicks of one cycle, in order, all at `now`, and gives the
    /// double clicks that they complete, in order.
    pub fn double_click_detector(&mut self, clicks: &Vec<ClickEvent>, now: u64) -> (doubles: Vec<
        DoubleclickEvent,
    >)
        ensures
            final(self)@ == pairs_next(old(self)@, now as nat, clicks@),
            doubles@ == pairs_emitted(old(self)@, now as nat, clicks@),
    {
        let mut doubles: Vec<DoubleclickEvent> = Vec::new();
        let mut k: usize = 0;
        while k < clicks.len()
            invariant
                k <= clicks.len(),
                self@ == pairs_next(old(self)@, now as nat, clicks@.take(k as int)),
                doubles@ == pairs_emitted(old(self)@, now as nat, clicks@.take(k as int)),
            decreases clicks.len() - k,
        {
            proof {
                assert(clicks@.take(k as int + 1).drop_last() =~= clicks@.take(k as int));
            }
            match self.on_click(&clicks[k], now) {
                Some(double) => {
                    doubles.push(double);
                },
                None => {},
            }
            k += 1;
        }
        proof {
            assert(clicks@.take(clicks.len() as int) =~= clicks@);
        }
        doubles
    }

    /// One whole cycle at `now`: every transition goes through the click
    /// detector first, then every click of this cycle through the
    /// double-click detector. Gives the clicks and the double clicks.
    pub fn update(&mut self, input: &Vec<MouseButtonInput>, now: u64) -> (r: (Vec<ClickEvent>, Vec<DoubleclickEvent>))
        ensures
            final(self)@ == cycle_next(old(self)@, now as nat, input@),
            r.0@ == clicks_emitted(old(self)@, now as nat, input@),
            r.1@ == cycle_doubles(old(self)@, now as nat, input@),
    {
        let clicks = self.click_detector(input, now);
        let doubles = self.double_click_detector(&clicks, now);
        (clicks, doubles)
    }
}

} // verus!
