use dunes::bit::BitPos;
use dunes::dispatch::Bus;
use dunes::scheduler::{Event, EventKind, Scheduler};
use dunes::timeline;
use dunes::triple_buffer::{index_of, is_updated, publish, Slots};

#[test]
fn bit_positions() {
    assert!(0x01u8.lsb());
    assert!(!0x02u8.lsb());
    assert!(0x80u8.msb());
    assert!(!0x7fu8.msb());
}

#[test]
fn scheduler_starts_with_the_sentinel() {
    let s = Scheduler::new();
    assert_eq!(s.ticks, 0);
    assert_eq!(s.events, vec![Event { kind: EventKind::Unreachable, tick: u64::MAX }]);
}

#[test]
fn scheduler_keeps_events_in_order() {
    let mut s = Scheduler::new();
    s.queue(EventKind::Reset, 10);
    s.tick();
    s.tick();
    s.queue(EventKind::Reset, 3);
    assert_eq!(s.ticks, 2);
    let ticks: Vec<u64> = s.events.iter().map(|e| e.tick).collect();
    assert_eq!(ticks, vec![5, 10, u64::MAX]);
}

#[test]
fn scheduler_latest_first_among_equal_ticks() {
    let mut s = Scheduler::new();
    s.queue(EventKind::Reset, 4);
    s.queue(EventKind::Unreachable, 4);
    assert_eq!(s.events[0], Event { kind: EventKind::Unreachable, tick: 4 });
    assert_eq!(s.events[1], Event { kind: EventKind::Reset, tick: 4 });
    assert_eq!(s.events.len(), 3);
}

#[test]
fn timeline_ready_and_next() {
    let mut s = timeline::Scheduler::new();
    s.queue(EventKind::Reset, 1);
    assert_eq!(s.time, 0);
    assert!(s.ready());
    assert_eq!(s.next(), EventKind::Reset);
    s.tick();
    assert!(s.ready());
    s.tick();
    assert!(!s.ready());
    // The event stays queued.
    assert_eq!(s.next(), EventKind::Reset);
}

#[test]
fn triple_buffer_bytes() {
    assert_eq!(publish(2), 0b110);
    assert_eq!(index_of(0b110), 2);
    assert!(is_updated(0b110));
    assert!(!is_updated(0b010));
}

#[test]
fn triple_buffer_reader_takes_latest() {
    let mut s = Slots::new();
    assert_eq!((s.write, s.read, s.back), (1, 2, 0));
    // Nothing published yet: the reader keeps its buffer.
    s.reader_swap();
    assert_eq!((s.write, s.read, s.back), (1, 2, 0));
    s.writer_swap();
    assert_eq!((s.write, s.read, s.back), (0, 2, 0b101));
    s.writer_swap();
    assert_eq!((s.write, s.read, s.back), (1, 2, 0b100));
    s.reader_swap();
    assert_eq!((s.write, s.read, s.back), (1, 0, 2));
    s.reader_swap();
    assert_eq!((s.write, s.read, s.back), (1, 0, 2));
}

#[test]
fn dispatch_table_ranges() {
    let mut bus: Bus<u8, u8> = Bus::new(0x10000, 0, 0);
    bus.set(0x2000, 0x3fff, Some(1), None);
    bus.set(0x4000, 0x4017, Some(2), Some(3));
    bus.set(0xffff, 0xffff, None, Some(4));
    assert_eq!(bus.reader(0x1fff), 0);
    assert_eq!(bus.reader(0x2000), 1);
    assert_eq!(bus.reader(0x3fff), 1);
    assert_eq!(bus.writer(0x3fff), 0);
    assert_eq!(bus.reader(0x4017), 2);
    assert_eq!(bus.writer(0x4000), 3);
    assert_eq!(bus.writer(0xffff), 4);
    assert_eq!(bus.reader(0xffff), 0);
    // An empty range changes nothing.
    bus.set(0x10, 0x0f, Some(9), Some(9));
    assert_eq!(bus.reader(0x10), 0);
}
