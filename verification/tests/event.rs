use cosmo_svg_animation_lib::time_since;
use cosmo_svg_animation_lib::Event;
use cosmo_svg_animation_lib::Listener;

#[test]
fn new_event_has_not_fired() {
    let event = Event::new();
    assert!(!event.triggered());
    assert!(!event.triggered_untracked());
    assert_eq!(event.time(0), 0);
    assert_eq!(event.time(123_456), 0);
    assert_eq!(event.time_untracked(123_456), 0);
}

#[test]
fn fired_event_measures_from_its_trigger_time() {
    let mut event = Event::new();
    event.trigger(1_000);
    assert!(event.triggered());
    assert!(event.triggered_untracked());
    assert_eq!(event.time(1_000), 0);
    assert_eq!(event.time(1_001), 1);
    assert_eq!(event.time(4_500), 3_500);
    assert_eq!(event.time_untracked(4_500), 3_500);
}

#[test]
fn fired_event_time_grows_with_the_clock() {
    let mut event = Event::new();
    event.trigger(700);
    let mut last = 0;
    for now in [700u64, 701, 800, 800, 5_000, 1_000_000] {
        let t = event.time(now);
        assert!(t >= last);
        last = t;
    }
    assert_eq!(last, 999_300);
}

#[test]
fn reading_from_before_the_trigger_counts_as_zero() {
    let mut event = Event::new();
    event.trigger(700);
    assert_eq!(event.time(699), 0);
    assert_eq!(event.time(0), 0);
}

#[test]
fn trigger_overwrites_an_earlier_trigger_time() {
    let mut event = Event::new();
    event.trigger(10);
    event.trigger(25);
    assert_eq!(event.trigger_time, Some(25));
    assert_eq!(event.time(30), 5);
}

#[test]
fn trigger_once_twice_keeps_the_first_time() {
    let mut event = Event::new();
    event.trigger_once(100);
    assert_eq!(event.trigger_time, Some(100));
    event.trigger_once(900);
    assert_eq!(event.trigger_time, Some(100));
    assert_eq!(event.time(1_000), 900);
}

#[test]
fn trigger_once_after_trigger_is_a_no_op() {
    let mut event = Event::new();
    event.trigger(40);
    event.trigger_once(50);
    assert_eq!(event.trigger_time, Some(40));
}

#[test]
fn work_runs_after_the_event_with_the_time_since() {
    let mut started = Event::new();
    let expanded = Event::new();
    assert_eq!(started.after(5, &vec![expanded]), None);
    started.trigger(10);
    assert_eq!(started.after(10, &vec![expanded]), Some(0));
    assert_eq!(started.after(760, &vec![expanded]), Some(750));
    assert_eq!(started.after(760, &vec![]), Some(750));
}

#[test]
fn fired_silencer_stops_the_work_while_the_event_stays_fired() {
    let mut a = Event::new();
    let mut b = Event::new();
    a.trigger(0);
    assert_eq!(a.after(500, &vec![b]), Some(500));
    b.trigger_once(1_000);
    assert_eq!(a.after(1_000, &vec![b]), None);
    assert_eq!(a.after(1_016, &vec![b]), None);
    assert_eq!(a.after(9_999, &vec![b]), None);
    assert!(a.triggered());
    assert_eq!(a.time(9_999), 9_999);
}

#[test]
fn any_one_of_several_silencers_is_enough() {
    let mut a = Event::new();
    a.trigger(0);
    let quiet = Event::new();
    let mut loud = Event::new();
    loud.trigger(3);
    assert_eq!(a.after(7, &vec![quiet, quiet, quiet]), Some(7));
    assert_eq!(a.after(7, &vec![quiet, quiet, loud]), None);
    assert_eq!(a.after(7, &vec![loud, quiet, quiet]), None);
    assert_eq!(a.after(7, &vec![quiet, loud, quiet]), None);
}

#[test]
fn from_trigger_fires_at_once_when_the_condition_holds() {
    let event = Event::from_trigger(true, 77);
    assert!(event.triggered());
    assert_eq!(event.trigger_time, Some(77));
    assert!(!event.awaiting);
}

#[test]
fn from_trigger_waits_for_the_condition() {
    let mut event = Event::from_trigger(false, 77);
    assert!(!event.triggered());
    assert!(event.awaiting);
    assert!(!event.observe(false, 80));
    assert!(!event.triggered());
    assert!(event.observe(true, 90));
    assert_eq!(event.trigger_time, Some(90));
    assert_eq!(event.time(100), 10);
}

#[test]
fn watched_event_fires_only_the_first_time() {
    let mut event = Event::from_trigger(false, 0);
    assert!(event.observe(true, 10));
    assert!(!event.observe(false, 20));
    assert!(!event.observe(true, 30));
    assert!(!event.observe(true, 40));
    assert_eq!(event.trigger_time, Some(10));
}

#[test]
fn plain_event_ignores_conditions() {
    let mut event = Event::new();
    assert!(!event.observe(true, 10));
    assert!(!event.triggered());
}

#[test]
fn listener_reports_a_trigger_once() {
    let mut event = Event::new();
    let mut listener = event.on();
    assert_eq!(listener.notify(&event), None);
    event.trigger(42);
    assert_eq!(listener.notify(&event), Some((42, 0)));
    assert_eq!(listener.notify(&event), None);
    assert_eq!(listener.notify(&event), None);
    assert_eq!(listener.count, 1);
}

#[test]
fn listener_counts_distinct_trigger_times() {
    let mut event = Event::new();
    let mut listener = event.on();
    event.trigger(1);
    assert_eq!(listener.notify(&event), Some((1, 0)));
    event.trigger(5);
    assert_eq!(listener.notify(&event), Some((5, 1)));
    event.trigger(5);
    assert_eq!(listener.notify(&event), None);
    event.trigger(9);
    assert_eq!(listener.notify(&event), Some((9, 2)));
}

#[test]
fn listener_set_up_after_the_trigger_stays_silent() {
    let mut event = Event::new();
    event.trigger(15);
    let mut listener = event.on();
    assert_eq!(listener.initial, Some(15));
    assert_eq!(listener.notify(&event), None);
    event.trigger_once(30);
    assert_eq!(listener.notify(&event), None);
    event.trigger(31);
    assert_eq!(listener.notify(&event), Some((31, 0)));
}

#[test]
fn listener_state_is_plain_data() {
    let listener = Listener { initial: None, reported: Some(3), count: 4 };
    let mut copy = listener;
    let mut event = Event::new();
    event.trigger(3);
    assert_eq!(copy.notify(&event), None);
    event.trigger(8);
    assert_eq!(copy.notify(&event), Some((8, 4)));
    assert_eq!(copy.count, 5);
    assert_eq!(listener.count, 4);
}

#[test]
fn time_since_is_zero_until_the_condition_holds() {
    let mut latch = Event::from_trigger(false, 0);
    assert_eq!(time_since(&mut latch, false, 100), 0);
    assert_eq!(time_since(&mut latch, false, 200), 0);
    assert_eq!(time_since(&mut latch, true, 300), 0);
    assert_eq!(time_since(&mut latch, true, 450), 150);
    assert_eq!(time_since(&mut latch, false, 500), 200);
    assert_eq!(time_since(&mut latch, true, 1_300), 1_000);
}
