use clicking::button::{Button, ElementState, MouseButton, MouseButtonInput};
use clicking::events::{ClickEvent, DoubleclickEvent};
use clicking::plugin::{all_distinct, plugin_init, ClickingPlugin};
use clicking::timing::{
    elapsed_within, ClickDuration, ClickTime, ConfigError, DoubleclickDuration, DoubleclickTime,
    DEFAULT_CLICK_NANOS, DEFAULT_DOUBLECLICK_NANOS,
};
use clicking::watcher::{ClickDetectorBundle, DoubleClickDetectorBundle};

const MS: u64 = 1_000_000;

fn press(button: MouseButton) -> MouseButtonInput {
    MouseButtonInput { button, state: ElementState::Pressed }
}

fn release(button: MouseButton) -> MouseButtonInput {
    MouseButtonInput { button, state: ElementState::Released }
}

fn click(button: MouseButton) -> ClickEvent {
    ClickEvent { button }
}

fn double(button: MouseButton) -> DoubleclickEvent {
    DoubleclickEvent { button }
}

fn pair(button: MouseButton, click_ms: u64, double_ms: u64) -> DoubleClickDetectorBundle {
    DoubleClickDetectorBundle::new(
        ClickDetectorBundle::new(Button::new(button), ClickDuration::new(click_ms * MS).unwrap()),
        DoubleclickDuration::new(double_ms * MS).unwrap(),
    )
}

fn press_time(plugin: &ClickingPlugin, button: MouseButton) -> u64 {
    plugin.watcher(button).unwrap().cdb().press_time().nanos()
}

fn click_time(plugin: &ClickingPlugin, button: MouseButton) -> u64 {
    plugin.watcher(button).unwrap().click_time().nanos()
}

#[test]
fn release_within_the_window_is_a_click() {
    let mut plugin = ClickingPlugin::with_watchers(vec![pair(MouseButton::Left, 100, 300)]).unwrap();
    assert_eq!(plugin.click_detector(&vec![press(MouseButton::Left)], 0), vec![]);
    assert_eq!(
        plugin.click_detector(&vec![release(MouseButton::Left)], 50 * MS),
        vec![click(MouseButton::Left)]
    );
}

#[test]
fn release_after_the_window_is_no_click() {
    let mut plugin = ClickingPlugin::with_watchers(vec![pair(MouseButton::Left, 100, 300)]).unwrap();
    assert_eq!(plugin.click_detector(&vec![press(MouseButton::Left)], 0), vec![]);
    assert_eq!(plugin.click_detector(&vec![release(MouseButton::Left)], 200 * MS), vec![]);
}

#[test]
fn second_click_within_the_window_is_a_double_click_and_the_third_is_not() {
    let mut plugin = ClickingPlugin::with_watchers(vec![pair(MouseButton::Right, 100, 300)]).unwrap();
    let one = vec![click(MouseButton::Right)];
    assert_eq!(plugin.double_click_detector(&one, 1000 * MS), vec![]);
    assert_eq!(click_time(&plugin, MouseButton::Right), 1000 * MS);
    assert_eq!(plugin.double_click_detector(&one, 1200 * MS), vec![double(MouseButton::Right)]);
    assert_eq!(click_time(&plugin, MouseButton::Right), 0);
    assert_eq!(plugin.double_click_detector(&one, 1250 * MS), vec![]);
    assert_eq!(click_time(&plugin, MouseButton::Right), 1250 * MS);
}

#[test]
fn second_click_after_the_window_starts_a_new_pair() {
    let mut plugin = plugin_init();
    assert_eq!(plugin.on_click(&click(MouseButton::Left), 1000 * MS), None);
    assert_eq!(plugin.on_click(&click(MouseButton::Left), 1301 * MS), None);
    assert_eq!(click_time(&plugin, MouseButton::Left), 1301 * MS);
    assert_eq!(plugin.on_click(&click(MouseButton::Left), 1601 * MS), Some(double(MouseButton::Left)));
}

#[test]
fn the_click_window_is_inclusive() {
    let mut plugin = plugin_init();
    assert_eq!(plugin.on_input(&press(MouseButton::Middle), 5000 * MS), None);
    assert_eq!(
        plugin.on_input(&release(MouseButton::Middle), 5000 * MS + DEFAULT_CLICK_NANOS),
        Some(click(MouseButton::Middle))
    );
    assert_eq!(plugin.on_input(&release(MouseButton::Middle), 5000 * MS + DEFAULT_CLICK_NANOS + 1), None);
}

#[test]
fn the_double_click_window_is_inclusive() {
    let mut plugin = plugin_init();
    let start = 7000 * MS;
    assert_eq!(plugin.on_click(&click(MouseButton::Left), start), None);
    assert_eq!(
        plugin.on_click(&click(MouseButton::Left), start + DEFAULT_DOUBLECLICK_NANOS),
        Some(double(MouseButton::Left))
    );
    assert_eq!(plugin.on_click(&click(MouseButton::Left), start), None);
    assert_eq!(plugin.on_click(&click(MouseButton::Left), start + DEFAULT_DOUBLECLICK_NANOS + 1), None);
}

#[test]
fn presses_alone_give_no_click() {
    let mut plugin = plugin_init();
    let presses = vec![
        press(MouseButton::Left),
        press(MouseButton::Right),
        press(MouseButton::Left),
        press(MouseButton::Other(7)),
        press(MouseButton::Middle),
    ];
    assert_eq!(plugin.click_detector(&presses, 42 * MS), vec![]);
    assert_eq!(plugin.click_detector(&presses, 43 * MS), vec![]);
    assert_eq!(press_time(&plugin, MouseButton::Left), 43 * MS);
    assert_eq!(press_time(&plugin, MouseButton::Right), 43 * MS);
    assert_eq!(press_time(&plugin, MouseButton::Middle), 43 * MS);
}

#[test]
fn a_release_without_a_press_gives_no_click() {
    let mut plugin = plugin_init();
    assert_eq!(plugin.click_detector(&vec![release(MouseButton::Left)], 101 * MS), vec![]);
    assert_eq!(plugin.click_detector(&vec![release(MouseButton::Right)], 90_000 * MS), vec![]);
    assert_eq!(press_time(&plugin, MouseButton::Left), 0);
    assert_eq!(press_time(&plugin, MouseButton::Right), 0);
}

#[test]
fn a_release_without_a_press_inside_the_first_window_counts_from_zero() {
    let mut plugin = plugin_init();
    assert_eq!(
        plugin.click_detector(&vec![release(MouseButton::Left)], 100 * MS),
        vec![click(MouseButton::Left)]
    );
}

#[test]
fn a_later_press_replaces_the_earlier_one() {
    let mut plugin = plugin_init();
    assert_eq!(plugin.on_input(&press(MouseButton::Left), 1000 * MS), None);
    assert_eq!(plugin.on_input(&press(MouseButton::Left), 1500 * MS), None);
    assert_eq!(press_time(&plugin, MouseButton::Left), 1500 * MS);
    assert_eq!(plugin.on_input(&release(MouseButton::Left), 1550 * MS), Some(click(MouseButton::Left)));
}

#[test]
fn a_release_does_not_forget_the_press() {
    let mut plugin = plugin_init();
    assert_eq!(plugin.on_input(&press(MouseButton::Left), 1000 * MS), None);
    assert_eq!(plugin.on_input(&release(MouseButton::Left), 1010 * MS), Some(click(MouseButton::Left)));
    assert_eq!(press_time(&plugin, MouseButton::Left), 1000 * MS);
    assert_eq!(plugin.on_input(&release(MouseButton::Left), 1020 * MS), Some(click(MouseButton::Left)));
}

#[test]
fn a_clock_that_runs_backwards_is_within_every_window() {
    let mut plugin = plugin_init();
    assert_eq!(plugin.on_input(&press(MouseButton::Left), 9000 * MS), None);
    assert_eq!(plugin.on_input(&release(MouseButton::Left), 8000 * MS), Some(click(MouseButton::Left)));
    assert_eq!(plugin.on_click(&click(MouseButton::Right), 9000 * MS), None);
    assert_eq!(plugin.on_click(&click(MouseButton::Right), 8000 * MS), Some(double(MouseButton::Right)));
}

#[test]
fn elapsed_within_is_a_signed_comparison() {
    assert!(elapsed_within(150, 100, 50));
    assert!(!elapsed_within(151, 100, 50));
    assert!(elapsed_within(100, 100, 1));
    assert!(elapsed_within(99, 100, 1));
    assert!(elapsed_within(0, u64::MAX, 1));
    assert!(!elapsed_within(u64::MAX, 0, u64::MAX - 1));
    assert!(elapsed_within(u64::MAX, 0, u64::MAX));
}

#[test]
fn buttons_do_not_click_for_each_other() {
    let mut plugin = plugin_init();
    assert_eq!(plugin.on_input(&press(MouseButton::Left), 1000 * MS), None);
    assert_eq!(plugin.on_input(&release(MouseButton::Right), 1010 * MS), None);
    assert_eq!(press_time(&plugin, MouseButton::Right), 0);
    assert_eq!(press_time(&plugin, MouseButton::Middle), 0);
}

#[test]
fn buttons_do_not_double_click_for_each_other() {
    let mut plugin = plugin_init();
    assert_eq!(plugin.on_click(&click(MouseButton::Left), 1000 * MS), None);
    assert_eq!(plugin.on_click(&click(MouseButton::Right), 1100 * MS), None);
    assert_eq!(click_time(&plugin, MouseButton::Left), 1000 * MS);
    assert_eq!(click_time(&plugin, MouseButton::Right), 1100 * MS);
    assert_eq!(click_time(&plugin, MouseButton::Middle), 0);
    assert_eq!(plugin.on_click(&click(MouseButton::Left), 1200 * MS), Some(double(MouseButton::Left)));
    assert_eq!(click_time(&plugin, MouseButton::Right), 1100 * MS);
}

#[test]
fn mixed_clicks_give_what_each_button_gives_alone() {
    let mixed = vec![
        click(MouseButton::Left),
        click(MouseButton::Right),
        click(MouseButton::Left),
        click(MouseButton::Middle),
        click(MouseButton::Left),
        click(MouseButton::Right),
    ];
    let mut all = plugin_init();
    let doubles = all.double_click_detector(&mixed, 2000 * MS);
    assert_eq!(doubles, vec![double(MouseButton::Left), double(MouseButton::Right)]);
    for button in [MouseButton::Left, MouseButton::Right, MouseButton::Middle] {
        let own: Vec<ClickEvent> = mixed.iter().copied().filter(|c| c.button == button).collect();
        let mut alone = plugin_init();
        let got = alone.double_click_detector(&own, 2000 * MS);
        let expected: Vec<DoubleclickEvent> = doubles.iter().copied().filter(|d| d.button == button).collect();
        assert_eq!(got, expected);
        assert_eq!(click_time(&alone, button), click_time(&all, button));
    }
}

#[test]
fn a_button_that_is_not_watched_is_ignored() {
    let mut plugin = plugin_init();
    assert!(plugin.watcher(MouseButton::Other(4)).is_none());
    let input = vec![press(MouseButton::Other(4)), release(MouseButton::Other(4))];
    assert_eq!(plugin.click_detector(&input, 1000 * MS), vec![]);
    assert_eq!(plugin.double_click_detector(&vec![click(MouseButton::Other(4))], 1000 * MS), vec![]);
    assert_eq!(plugin.double_click_detector(&vec![click(MouseButton::Other(4))], 1001 * MS), vec![]);
    let (clicks, doubles) = plugin.update(&input, 1002 * MS);
    assert_eq!(clicks, vec![]);
    assert_eq!(doubles, vec![]);
}

#[test]
fn an_empty_cycle_changes_nothing() {
    let mut plugin = plugin_init();
    plugin.on_input(&press(MouseButton::Left), 500 * MS);
    plugin.on_click(&click(MouseButton::Left), 600 * MS);
    let (clicks, doubles) = plugin.update(&vec![], 700 * MS);
    assert_eq!(clicks, vec![]);
    assert_eq!(doubles, vec![]);
    assert_eq!(press_time(&plugin, MouseButton::Left), 500 * MS);
    assert_eq!(click_time(&plugin, MouseButton::Left), 600 * MS);
}

#[test]
fn a_cycle_runs_the_click_detector_before_the_double_click_detector() {
    let mut plugin = plugin_init();
    let twice = vec![
        press(MouseButton::Left),
        release(MouseButton::Left),
        press(MouseButton::Left),
        release(MouseButton::Left),
    ];
    let (clicks, doubles) = plugin.update(&twice, 1000 * MS);
    assert_eq!(clicks, vec![click(MouseButton::Left), click(MouseButton::Left)]);
    assert_eq!(doubles, vec![double(MouseButton::Left)]);
    assert_eq!(click_time(&plugin, MouseButton::Left), 0);
}

#[test]
fn a_double_click_over_several_cycles() {
    let mut plugin = plugin_init();
    let down = vec![press(MouseButton::Left)];
    let up = vec![release(MouseButton::Left)];
    assert_eq!(plugin.update(&down, 1000 * MS), (vec![], vec![]));
    assert_eq!(plugin.update(&up, 1040 * MS), (vec![click(MouseButton::Left)], vec![]));
    assert_eq!(plugin.update(&down, 1150 * MS), (vec![], vec![]));
    assert_eq!(
        plugin.update(&up, 1200 * MS),
        (vec![click(MouseButton::Left)], vec![double(MouseButton::Left)])
    );
    assert_eq!(plugin.update(&down, 1250 * MS), (vec![], vec![]));
    assert_eq!(plugin.update(&up, 1300 * MS), (vec![click(MouseButton::Left)], vec![]));
}

#[test]
fn the_same_cycles_from_the_same_start_give_the_same_events() {
    let log: Vec<(u64, Vec<MouseButtonInput>)> = vec![
        (1000 * MS, vec![press(MouseButton::Left), press(MouseButton::Right)]),
        (1050 * MS, vec![release(MouseButton::Left)]),
        (1100 * MS, vec![press(MouseButton::Left), release(MouseButton::Left), release(MouseButton::Right)]),
        (1500 * MS, vec![release(MouseButton::Middle), press(MouseButton::Right), release(MouseButton::Right)]),
    ];
    let mut first = plugin_init();
    let mut second = plugin_init();
    let mut seen = Vec::new();
    for (now, input) in &log {
        seen.push(first.update(input, *now));
    }
    for (k, (now, input)) in log.iter().enumerate() {
        assert_eq!(second.update(input, *now), seen[k]);
    }
    assert_eq!(seen[0], (vec![], vec![]));
    assert_eq!(seen[1], (vec![click(MouseButton::Left)], vec![]));
    assert_eq!(
        seen[2],
        (vec![click(MouseButton::Left), click(MouseButton::Right)], vec![double(MouseButton::Left)])
    );
    assert_eq!(seen[3], (vec![click(MouseButton::Right)], vec![]));
    for button in [MouseButton::Left, MouseButton::Right, MouseButton::Middle] {
        assert_eq!(press_time(&first, button), press_time(&second, button));
        assert_eq!(click_time(&first, button), click_time(&second, button));
    }
}

#[test]
fn the_default_watchers_are_left_middle_and_right() {
    let plugin = plugin_init();
    for button in [MouseButton::Left, MouseButton::Middle, MouseButton::Right] {
        let watcher = plugin.watcher(button).unwrap();
        assert_eq!(watcher.button().get(), button);
        assert_eq!(watcher.cdb().button().get(), button);
        assert_eq!(watcher.cdb().duration().nanos(), 100_000_000);
        assert_eq!(watcher.cdb().press_time().nanos(), 0);
        assert_eq!(watcher.duration().nanos(), 300_000_000);
        assert_eq!(watcher.click_time().nanos(), 0);
    }
    assert!(plugin.watcher(MouseButton::Other(0)).is_none());
    assert!(plugin.watcher(MouseButton::Other(3)).is_none());
    assert_eq!(DEFAULT_CLICK_NANOS, 100_000_000);
    assert_eq!(DEFAULT_DOUBLECLICK_NANOS, 300_000_000);
}

#[test]
fn a_window_of_zero_is_refused() {
    assert_eq!(ClickDuration::new(0).unwrap_err(), ConfigError::NonPositiveWindow);
    assert_eq!(DoubleclickDuration::new(0).unwrap_err(), ConfigError::NonPositiveWindow);
    assert_eq!(ClickDuration::new(1).unwrap().nanos(), 1);
    assert_eq!(DoubleclickDuration::new(u64::MAX).unwrap().nanos(), u64::MAX);
}

#[test]
fn two_watchers_of_one_button_are_refused() {
    let twice = vec![
        pair(MouseButton::Left, 100, 300),
        pair(MouseButton::Right, 100, 300),
        pair(MouseButton::Left, 200, 400),
    ];
    assert!(!all_distinct(&twice));
    assert_eq!(ClickingPlugin::with_watchers(twice).unwrap_err(), ConfigError::DuplicateButton);
    let others = vec![pair(MouseButton::Other(1), 100, 300), pair(MouseButton::Other(1), 100, 300)];
    assert_eq!(ClickingPlugin::with_watchers(others).unwrap_err(), ConfigError::DuplicateButton);
}

#[test]
fn watchers_of_one_s_own_choice() {
    let list = vec![pair(MouseButton::Other(8), 20, 50), pair(MouseButton::Left, 250, 500)];
    assert!(all_distinct(&list));
    let mut plugin = ClickingPlugin::with_watchers(list).unwrap();
    assert!(plugin.watcher(MouseButton::Right).is_none());
    assert_eq!(plugin.watcher(MouseButton::Other(8)).unwrap().cdb().duration().nanos(), 20 * MS);
    assert_eq!(plugin.watcher(MouseButton::Left).unwrap().duration().nanos(), 500 * MS);
    let input = vec![press(MouseButton::Other(8)), press(MouseButton::Left)];
    assert_eq!(plugin.update(&input, 1000 * MS), (vec![], vec![]));
    let input = vec![release(MouseButton::Other(8)), release(MouseButton::Left)];
    assert_eq!(plugin.update(&input, 1021 * MS), (vec![click(MouseButton::Left)], vec![]));
    assert!(ClickingPlugin::with_watchers(vec![]).unwrap().watcher(MouseButton::Left).is_none());
}

#[test]
fn a_single_watcher_takes_only_its_own_button() {
    let mut left = ClickDetectorBundle::new(Button::new(MouseButton::Left), ClickDuration::new(100 * MS).unwrap());
    assert!(!left.observe(&press(MouseButton::Right), 1000 * MS));
    assert_eq!(left.press_time().nanos(), 0);
    assert!(!left.observe(&press(MouseButton::Left), 1000 * MS));
    assert_eq!(left.press_time().nanos(), 1000 * MS);
    assert!(!left.observe(&release(MouseButton::Right), 1001 * MS));
    assert!(left.observe(&release(MouseButton::Left), 1100 * MS));
    assert!(!left.observe(&release(MouseButton::Left), 1101 * MS));
    assert_eq!(left.button().get(), MouseButton::Left);
    assert_eq!(left.duration().nanos(), 100 * MS);

    let mut both = pair(MouseButton::Left, 100, 300);
    assert!(!both.observe_input(&press(MouseButton::Left), 2000 * MS));
    assert!(both.observe_input(&release(MouseButton::Left), 2001 * MS));
    assert!(!both.observe_click(&click(MouseButton::Right), 2001 * MS));
    assert_eq!(both.click_time().nanos(), 0);
    assert!(!both.observe_click(&click(MouseButton::Left), 2001 * MS));
    assert_eq!(both.click_time().nanos(), 2001 * MS);
    assert!(both.observe_click(&click(MouseButton::Left), 2301 * MS));
    assert_eq!(both.click_time().nanos(), 0);
    assert_eq!(both.cdb().press_time().nanos(), 2000 * MS);
}

#[test]
fn times_hold_what_they_were_given() {
    assert_eq!(ClickTime::new(17).nanos(), 17);
    assert_eq!(DoubleclickTime::new(u64::MAX).nanos(), u64::MAX);
    assert_eq!(Button::new(MouseButton::Other(9)).get(), MouseButton::Other(9));
}
