use wired_config::error::Error;
use wired_config::schema::Config;
use wired_config::watcher::{ConfigWatcher, Input, Subscription, DEBOUNCE_MILLIS};

fn forwarded(watcher: &mut ConfigWatcher, inputs: &[Input]) -> usize {
    inputs.iter().filter(|input| watcher.handle(**input)).count()
}

#[test]
fn window_is_ten_milliseconds() {
    assert_eq!(DEBOUNCE_MILLIS, 10);
}

#[test]
fn burst_within_window_is_one_change() {
    let mut watcher = ConfigWatcher::new(10);
    let inputs = [
        Input::Event(100),
        Input::Event(103),
        Input::Event(109),
        Input::Event(118),
        Input::Event(127),
        Input::Poll(137),
    ];
    assert_eq!(forwarded(&mut watcher, &inputs), 1);
    assert_eq!(watcher.due(), None);
}

#[test]
fn events_beyond_window_are_a_change_each() {
    let mut watcher = ConfigWatcher::new(10);
    let inputs = [
        Input::Event(100),
        Input::Event(110),
        Input::Event(125),
        Input::Event(200),
        Input::Poll(210),
    ];
    assert_eq!(forwarded(&mut watcher, &inputs), 4);
}

#[test]
fn polls_between_events_do_not_change_the_count() {
    let mut watcher = ConfigWatcher::new(10);
    let inputs = [
        Input::Poll(0),
        Input::Event(100),
        Input::Poll(101),
        Input::Event(105),
        Input::Poll(114),
        Input::Poll(115),
        Input::Poll(116),
        Input::Event(130),
        Input::Event(139),
        Input::Event(149),
        Input::Poll(150),
    ];
    assert_eq!(forwarded(&mut watcher, &inputs), 2);
}

#[test]
fn change_goes_out_exactly_when_the_window_is_over() {
    let mut watcher = ConfigWatcher::new(10);
    assert!(!watcher.handle(Input::Poll(5)));
    assert!(!watcher.handle(Input::Event(20)));
    assert_eq!(watcher.due(), Some(30));
    assert!(!watcher.handle(Input::Poll(29)));
    assert!(watcher.handle(Input::Poll(30)));
    assert!(!watcher.handle(Input::Poll(31)));
    assert_eq!(watcher.due(), None);
}

#[test]
fn late_event_sends_the_burst_before_it() {
    let mut watcher = ConfigWatcher::new(10);
    assert!(!watcher.handle(Input::Event(0)));
    assert!(watcher.handle(Input::Event(10)));
    assert_eq!(watcher.due(), Some(20));
    assert!(!watcher.handle(Input::Event(19)));
    assert_eq!(watcher.due(), Some(29));
    assert!(watcher.handle(Input::Poll(29)));
}

#[test]
fn clock_that_steps_back_does_not_forward() {
    let mut watcher = ConfigWatcher::new(10);
    assert!(!watcher.handle(Input::Event(50)));
    assert!(!watcher.handle(Input::Poll(40)));
    assert!(!watcher.handle(Input::Event(45)));
    assert_eq!(watcher.due(), Some(55));
    assert!(watcher.handle(Input::Poll(55)));
}

#[test]
fn due_stops_at_the_end_of_the_clock() {
    let mut watcher = ConfigWatcher::new(10);
    assert!(!watcher.handle(Input::Event(u64::MAX - 3)));
    assert_eq!(watcher.due(), Some(u64::MAX));
    assert!(!watcher.handle(Input::Poll(u64::MAX)));
}

#[test]
fn empty_window_forwards_at_once() {
    let mut watcher = ConfigWatcher::new(0);
    assert!(!watcher.handle(Input::Event(7)));
    assert!(watcher.handle(Input::Event(7)));
    assert!(watcher.handle(Input::Poll(7)));
    assert!(!watcher.handle(Input::Poll(7)));
}

#[test]
fn watch_makes_an_idle_handle() {
    let mut watcher = Config::watch(Ok(())).unwrap();
    assert_eq!(watcher.due(), None);
    assert!(!watcher.handle(Input::Event(1)));
    assert_eq!(watcher.due(), Some(1 + DEBOUNCE_MILLIS));
    assert!(!watcher.handle(Input::Poll(10)));
    assert!(watcher.handle(Input::Poll(11)));
}

#[test]
fn watch_reports_failed_subscription() {
    let refused = Config::watch(Err(String::from("permission denied")));
    assert_eq!(refused.err(), Some(Error::Watch(String::from("permission denied"))));
}

#[test]
fn subscription_is_to_the_containing_directory() {
    let request = Subscription::for_file(vec!["/", "home", "u", ".config", "wired", "wired.ron"]);
    assert_eq!(request.directory, vec!["/", "home", "u", ".config", "wired"]);
    assert!(!request.recursive);
}

#[test]
fn subscription_drops_the_last_component_only() {
    let request = Subscription::for_file(vec!["/", "wired.ron"]);
    assert_eq!(request, Subscription { directory: vec!["/"], recursive: false });
    let request = Subscription::for_file(vec!["wired.ron"]);
    assert_eq!(request, Subscription { directory: vec![], recursive: false });
    let request = Subscription::for_file(vec![String::from("a"), String::from("a")]);
    assert_eq!(request, Subscription { directory: vec![String::from("a")], recursive: false });
}

#[test]
fn subscription_of_the_empty_path_is_empty() {
    let request = Subscription::for_file(Vec::<u8>::new());
    assert_eq!(request, Subscription { directory: vec![], recursive: false });
}
