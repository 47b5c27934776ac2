use restop::coordinator::{Coordinator, LoopEvent, Reaction};
use restop::redraw::{RedrawCause, RedrawEventEnum};
use restop::registry::{record, route, ResourceKind, ResourceTag};
use restop::ring::Ring;

fn tag(kind: ResourceKind, id: &str) -> ResourceTag {
    ResourceTag { kind, id: id.to_string() }
}

#[test]
fn three_responses_between_polls_paint_once() {
    let tags = vec![tag(ResourceKind::CPU, "CPU"), tag(ResourceKind::Memory, "MEM")];
    let mut c = Coordinator::new(tags, 1000, 300);
    assert!(c.paint_due(5000));
    assert!(c.pending().is_empty());
    for _ in 0..3 {
        let r = c.handle_event(LoopEvent::Sensor(ResourceKind::CPU, "CPU".to_string()));
        assert_eq!(r, Reaction::Apply(0));
    }
    let mut paints = 0;
    if c.paint_due(5010) {
        paints += 1;
    }
    assert!(c.pending().is_empty());
    if c.paint_due(5020) {
        paints += 1;
    }
    assert_eq!(paints, 1);
}

#[test]
fn ticks_alone_paint_at_most_every_min_interval() {
    let mut c = Coordinator::new(vec![], 1000, 300);
    let start: u64 = 1_000_000;
    assert!(c.paint_due(start));
    let mut paints = 0;
    let mut t = start;
    while t < start + 1400 {
        t += 200;
        c.handle_event(LoopEvent::Timeout);
        if c.paint_due(t) {
            paints += 1;
        }
    }
    assert!(paints <= 5, "painted {paints} times");
    assert_eq!(paints, 3);
}

#[test]
fn response_goes_only_to_matching_identity() {
    let tags = vec![tag(ResourceKind::Drive, "X"), tag(ResourceKind::Drive, "Y")];
    let mut states: Vec<Ring<u64>> = vec![Ring::new(4), Ring::new(4)];
    let mut c = Coordinator::new(tags, 1000, 300);
    match c.handle_event(LoopEvent::Sensor(ResourceKind::Drive, "X".to_string())) {
        Reaction::Apply(i) => states[i].insert_at_first(42),
        other => panic!("unexpected {other:?}"),
    }
    assert_eq!(states[0].newest(), Some(&42));
    assert_eq!(states[1].len(), 0);
    assert_eq!(
        c.handle_event(LoopEvent::Sensor(ResourceKind::Drive, "Z".to_string())),
        Reaction::Unrouted
    );
    assert!(c.pending().contains(RedrawCause::Sensor));
}

#[test]
fn failing_resource_does_not_stop_others_sampling() {
    let tags = vec![tag(ResourceKind::GPU, "A"), tag(ResourceKind::Network, "B")];
    let mut rings: Vec<Ring<u64>> = vec![Ring::new(10), Ring::new(10)];
    let mut c = Coordinator::new(tags, 1000, 300);
    let mut now: u64 = 10_000;
    for round in 0..5u64 {
        now += 1001;
        assert!(c.sampling_due(now));
        for i in c.sampling_order() {
            let id = c.resources()[i].id.clone();
            let kind = c.resources()[i].kind;
            if id == "A" {
                continue;
            }
            if let Reaction::Apply(j) = c.handle_event(LoopEvent::Sensor(kind, id)) {
                record(&mut rings, j, round);
            }
        }
        c.paint_due(now);
    }
    assert_eq!(rings[0].len(), 0);
    assert_eq!(rings[1].len(), 5);
    assert_eq!(rings[1].newest(), Some(&4));
}

#[test]
fn sampling_waits_for_interval() {
    let mut c = Coordinator::new(vec![tag(ResourceKind::CPU, "CPU")], 1000, 300);
    assert!(c.sampling_due(5000));
    assert!(!c.sampling_due(5500));
    assert!(!c.sampling_due(6000));
    assert!(c.sampling_due(6001));
    assert!(!c.sampling_due(10));
    assert_eq!(c.sampling_order(), vec![0]);
}

#[test]
fn first_iteration_paints_and_clock_going_back_allows_tick_paint() {
    let mut c = Coordinator::new(vec![], 1000, 300);
    assert!(c.pending().contains(RedrawCause::Term));
    assert!(c.paint_due(1000));
    assert!(!c.paint_due(1100));
    c.handle_event(LoopEvent::Timeout);
    assert!(!c.paint_due(1200));
    assert!(c.paint_due(500));
}

#[test]
fn terminal_events_and_quit() {
    let mut c = Coordinator::new(vec![tag(ResourceKind::Process, "PROCESS")], 1000, 300);
    c.paint_due(100);
    assert_eq!(c.handle_event(LoopEvent::Resize(80, 24)), Reaction::Relayout(80, 24));
    assert!(c.paint_due(110));
    assert_eq!(c.handle_event(LoopEvent::Key), Reaction::HandleKey);
    assert!(c.pending().contains(RedrawCause::Term));
    assert_eq!(c.handle_event(LoopEvent::FocusedIndex(3)), Reaction::Idle);
    assert_eq!(c.focused_index(), Some(3));
    assert_eq!(
        c.handle_event(LoopEvent::Sensor(ResourceKind::Process, "PROCESS".to_string())),
        Reaction::Apply(0)
    );
    assert_eq!(c.handle_event(LoopEvent::Disconnected), Reaction::Idle);
    assert!(!c.is_stopped());
    assert_eq!(c.handle_event(LoopEvent::Quit), Reaction::Stop);
    assert!(c.is_stopped());
}

#[test]
fn route_picks_first_match_by_kind_and_identity() {
    let tags = vec![
        tag(ResourceKind::Drive, "/sys/block/sda"),
        tag(ResourceKind::Battery, "/sys/block/sda"),
        tag(ResourceKind::Battery, "/sys/block/sda"),
    ];
    assert_eq!(route(&tags, ResourceKind::Battery, &"/sys/block/sda".to_string()), Some(1));
    assert_eq!(route(&tags, ResourceKind::CPU, &"CPU".to_string()), None);
}

#[test]
fn redraw_set_operations() {
    let s = RedrawEventEnum::empty();
    assert!(s.is_empty());
    let s = s.union(RedrawCause::Interval);
    assert!(s.contains(RedrawCause::Interval));
    assert!(!s.contains(RedrawCause::Sensor));
    assert!(!s.is_empty());
    let a = RedrawEventEnum::all();
    assert!(a.contains(RedrawCause::Sensor) && a.contains(RedrawCause::Term));
}

#[test]
fn tick_at_exactly_min_interval_paints() {
    let mut c = Coordinator::new(vec![], 1000, 300);
    assert!(c.paint_due(0));
    c.handle_event(LoopEvent::Timeout);
    assert!(!c.paint_due(299));
    assert!(c.paint_due(300));
}

#[test]
fn routing_needs_matching_identity_for_every_kind() {
    let tags = vec![tag(ResourceKind::Process, "Y"), tag(ResourceKind::Process, "X")];
    assert_eq!(route(&tags, ResourceKind::Process, &"X".to_string()), Some(1));
    assert_eq!(route(&tags, ResourceKind::Process, &"process".to_string()), None);
}

#[test]
fn record_touches_only_its_resource() {
    let mut rings: Vec<Ring<u32>> = vec![Ring::new(2), Ring::new(2)];
    rings[0].insert_at_first(9);
    for v in 1..=3 {
        record(&mut rings, 1, v);
    }
    assert_eq!(rings[0].newest(), Some(&9));
    assert_eq!(rings[0].len(), 1);
    assert_eq!(rings[1].len(), 2);
    assert_eq!(rings[1].newest(), Some(&3));
}
