use poll_evented::poll_evented::{
    classes_of, is_wouldblock, Answer, Async, Class, ErrorKind, PollEvented, Query,
    ReadinessState, Slot,
};
use poll_evented::ready::{Ready, ERROR, HUP, READABLE, WRITABLE};

fn both_unknown() -> ReadinessState {
    ReadinessState { read: Slot::Unknown, write: Slot::Unknown }
}

#[test]
fn ready_bits_and_set_operations() {
    assert_eq!(Ready::readable().as_usize(), READABLE);
    assert_eq!(Ready::writable().as_usize(), WRITABLE);
    assert_eq!(Ready::error().as_usize(), ERROR);
    assert_eq!(Ready::hup().as_usize(), HUP);
    let rh = Ready::readable().union(Ready::hup());
    assert_eq!(rh.as_usize(), 0b1001);
    assert_eq!(rh.intersection(Ready::hup()), Ready::hup());
    assert_eq!(rh.difference(Ready::hup()), Ready::readable());
    assert!(rh.contains(Ready::readable()));
    assert!(!rh.contains(Ready::writable()));
    assert!(Ready::empty().is_empty());
    assert!(!rh.is_empty());
    assert!(rh.is_readable());
    assert!(!rh.is_writable());
    let all = Ready::from_usize(0b1111);
    assert_eq!(all.read_class().as_usize(), 0b1101);
    assert!(Ready::writable().read_class().is_empty());
}

#[test]
fn new_stream_knows_nothing() {
    let pe = PollEvented::new(7u32);
    assert_eq!(pe.state(), both_unknown());
    assert_eq!(pe.query(Class::Read), Query::Poll);
    assert_eq!(pe.query(Class::Write), Query::Poll);
    assert_eq!(*pe.get_ref(), 7u32);
}

#[test]
fn fresh_stream_is_writable_not_readable() {
    let mut pe = PollEvented::new(());
    let r = pe.poll_read(Answer::Polled(Async::NotReady));
    let w = pe.poll_write(Answer::Polled(Async::Ready(Ready::writable())));
    assert_eq!(r, Async::NotReady);
    assert_eq!(w, Async::Ready(()));
    assert_eq!(pe.state().read, Slot::Unknown);
    assert_eq!(pe.state().write, Slot::Cached(Ready::writable()));
}

#[test]
fn hangup_filtered_by_requested_mask() {
    let rh = Ready::readable().union(Ready::hup());
    let mut pe = PollEvented::new(());
    let r = pe.poll_ready(Ready::readable(), None, Some(Answer::Polled(Async::Ready(rh))));
    assert_eq!(r, Async::Ready(Ready::readable()));
    assert_eq!(pe.query(Class::Read), Query::Drain);
    let r2 = pe.poll_ready(rh, None, Some(Answer::Drained(None)));
    assert_eq!(r2, Async::Ready(rh));
}

#[test]
fn drained_hangup_is_unioned_into_cache() {
    let mut pe = PollEvented::new(());
    let r = pe.poll_class(Class::Read, Answer::Polled(Async::Ready(Ready::readable())));
    assert_eq!(r, Async::Ready(Ready::readable()));
    assert_eq!(pe.query(Class::Read), Query::Drain);
    let r2 = pe.poll_class(Class::Read, Answer::Drained(Some(Ready::hup())));
    let rh = Ready::readable().union(Ready::hup());
    assert_eq!(r2, Async::Ready(rh));
    assert_eq!(pe.state().read, Slot::Cached(rh));
    assert_eq!(pe.poll_read(Answer::Drained(None)), Async::Ready(()));
}

#[test]
fn empty_mask_is_ready_with_nothing() {
    let mut pe = PollEvented::new(());
    assert_eq!(pe.poll_ready(Ready::empty(), None, None), Async::Ready(Ready::empty()));
    assert_eq!(pe.state(), both_unknown());
}

#[test]
fn writable_mask_leaves_read_slot_alone() {
    let mut pe = PollEvented::new(());
    pe.poll_read(Answer::Polled(Async::Ready(Ready::readable())));
    let before = pe.state().read;
    let r = pe.poll_ready(Ready::writable(), Some(Answer::Polled(Async::NotReady)), None);
    assert_eq!(r, Async::NotReady);
    assert_eq!(pe.state().read, before);
    assert_eq!(pe.state().write, Slot::Unknown);
}

#[test]
fn readable_mask_leaves_write_slot_alone() {
    let mut pe = PollEvented::new(());
    pe.poll_write(Answer::Polled(Async::Ready(Ready::writable())));
    let r = pe.poll_ready(Ready::readable(), None, Some(Answer::Polled(Async::NotReady)));
    assert_eq!(r, Async::NotReady);
    assert_eq!(pe.state().write, Slot::Cached(Ready::writable()));
}

#[test]
fn poll_ready_clears_classes_that_found_nothing() {
    let mut pe = PollEvented::new(());
    pe.poll_read(Answer::Polled(Async::Ready(Ready::hup())));
    let mask = Ready::readable().union(Ready::writable());
    let r = pe.poll_ready(
        mask,
        Some(Answer::Polled(Async::NotReady)),
        Some(Answer::Drained(None)),
    );
    assert_eq!(r, Async::NotReady);
    assert_eq!(pe.state(), both_unknown());
}

#[test]
fn poll_ready_combines_both_classes() {
    let mut pe = PollEvented::new(());
    let mask = Ready::from_usize(0b1011);
    let r = pe.poll_ready(
        mask,
        Some(Answer::Polled(Async::Ready(Ready::writable()))),
        Some(Answer::Polled(Async::Ready(Ready::from_usize(0b0101)))),
    );
    assert_eq!(r, Async::Ready(Ready::from_usize(0b0011)));
    assert_eq!(pe.state().read, Slot::Cached(Ready::from_usize(0b0101)));
}

#[test]
fn need_read_blocks_until_fresh_readiness() {
    let mut pe = PollEvented::new(());
    pe.poll_read(Answer::Polled(Async::Ready(Ready::readable())));
    let wake = pe.need_read(Async::NotReady);
    assert!(!wake);
    assert_eq!(pe.state().read, Slot::Unknown);
    assert_eq!(pe.query(Class::Read), Query::Poll);
    assert_eq!(pe.poll_read(Answer::Polled(Async::NotReady)), Async::NotReady);
    assert_eq!(pe.poll_read(Answer::Polled(Async::NotReady)), Async::NotReady);
    assert_eq!(pe.poll_read(Answer::Polled(Async::Ready(Ready::readable()))), Async::Ready(()));
}

#[test]
fn need_wakes_when_readiness_came_back() {
    let mut pe = PollEvented::new(());
    pe.poll_write(Answer::Polled(Async::Ready(Ready::writable())));
    let wake = pe.need_write(Async::Ready(Ready::writable()));
    assert!(wake);
    assert_eq!(pe.state().write, Slot::Cached(Ready::writable()));
    assert!(!pe.need_class(Class::Write, Async::NotReady));
    assert_eq!(pe.state().write, Slot::Unknown);
}

#[test]
fn repeated_read_query_is_idempotent() {
    let mut pe = PollEvented::new(());
    let a = pe.poll_read(Answer::Polled(Async::Ready(Ready::readable())));
    let b = pe.poll_read(Answer::Drained(None));
    assert_eq!(a, b);
    let mut pe2 = PollEvented::new(());
    let c = pe2.poll_read(Answer::Polled(Async::NotReady));
    let d = pe2.poll_read(Answer::Polled(Async::NotReady));
    assert_eq!(c, d);
    assert_eq!(c, Async::NotReady);
}

#[test]
fn wouldblock_read_then_not_ready() {
    let mut pe = PollEvented::new(());
    assert_eq!(pe.poll_read(Answer::Polled(Async::Ready(Ready::readable()))), Async::Ready(()));
    let res: Result<usize, ErrorKind> = Err(ErrorKind::WouldBlock);
    assert!(is_wouldblock(&res));
    pe.need_read(Async::NotReady);
    assert_eq!(pe.poll_read(Answer::Polled(Async::NotReady)), Async::NotReady);
}

#[test]
fn wouldblock_detection() {
    let ok: Result<usize, ErrorKind> = Ok(3);
    let other: Result<usize, ErrorKind> = Err(ErrorKind::Other);
    let wb: Result<(), ErrorKind> = Err(ErrorKind::WouldBlock);
    assert!(!is_wouldblock(&ok));
    assert!(!is_wouldblock(&other));
    assert!(is_wouldblock(&wb));
}

#[test]
fn get_mut_keeps_cache() {
    let mut pe = PollEvented::new(vec![1u8]);
    pe.poll_read(Answer::Polled(Async::Ready(Ready::readable())));
    pe.get_mut().push(2);
    assert_eq!(*pe.get_ref(), vec![1u8, 2]);
    assert_eq!(pe.state().read, Slot::Cached(Ready::readable()));
    assert_eq!(pe.deregister(), Ok(()));
}

#[test]
fn empty_polled_snapshot_is_not_cached() {
    let mut pe = PollEvented::new(());
    assert_eq!(pe.poll_read(Answer::Polled(Async::Ready(Ready::empty()))), Async::NotReady);
    assert_eq!(pe.poll_write(Answer::Polled(Async::Ready(Ready::empty()))), Async::NotReady);
    assert_eq!(pe.state(), both_unknown());
    let r = pe.poll_class(Class::Read, Answer::Polled(Async::Ready(Ready::empty())));
    assert_eq!(r, Async::Ready(Ready::empty()));
    assert_eq!(pe.query(Class::Read), Query::Poll);
}

#[test]
fn read_readiness_needs_a_read_class_bit() {
    let mut pe = PollEvented::new(());
    assert_eq!(pe.poll_read(Answer::Polled(Async::Ready(Ready::writable()))), Async::NotReady);
    assert_eq!(pe.poll_read(Answer::Drained(Some(Ready::hup()))), Async::Ready(()));
    assert_eq!(pe.state().read, Slot::Cached(Ready::from_usize(WRITABLE | HUP)));
}

#[test]
fn need_read_with_empty_poll_stays_blocked() {
    let mut pe = PollEvented::new(());
    pe.poll_read(Answer::Polled(Async::Ready(Ready::readable())));
    assert!(!pe.need_read(Async::Ready(Ready::empty())));
    assert_eq!(pe.state().read, Slot::Unknown);
    for _ in 0..3 {
        assert_eq!(pe.poll_read(Answer::Polled(Async::Ready(Ready::empty()))), Async::NotReady);
        assert_eq!(pe.poll_read(Answer::Polled(Async::NotReady)), Async::NotReady);
    }
    assert!(!pe.need_write(Async::Ready(Ready::empty())));
    assert_eq!(pe.state(), both_unknown());
}

#[test]
fn io_begin_fails_with_would_block_when_not_ready() {
    let mut pe = PollEvented::new(());
    assert_eq!(pe.io_begin(Class::Read, Answer::Polled(Async::NotReady)), Err(ErrorKind::WouldBlock));
    assert_eq!(pe.state(), both_unknown());
    assert_eq!(pe.io_begin(Class::Write, Answer::Polled(Async::Ready(Ready::writable()))), Ok(()));
    assert_eq!(pe.state().write, Slot::Cached(Ready::writable()));
    assert_eq!(pe.io_begin(Class::Write, Answer::Drained(None)), Ok(()));
}

#[test]
fn io_finished_rearms_only_on_would_block() {
    let mut pe = PollEvented::new(());
    pe.poll_read(Answer::Polled(Async::Ready(Ready::readable())));
    let ok: Result<usize, ErrorKind> = Ok(4);
    let other: Result<usize, ErrorKind> = Err(ErrorKind::Other);
    let wb: Result<usize, ErrorKind> = Err(ErrorKind::WouldBlock);
    assert!(!pe.io_finished(Class::Read, &ok));
    assert!(!pe.io_finished(Class::Read, &other));
    assert_eq!(pe.state().read, Slot::Cached(Ready::readable()));
    assert!(pe.io_finished(Class::Read, &wb));
    assert_eq!(pe.state().read, Slot::Unknown);
    assert!(!pe.need_read(Async::NotReady));
    assert_eq!(pe.io_begin(Class::Read, Answer::Polled(Async::NotReady)), Err(ErrorKind::WouldBlock));
}

#[test]
fn classes_consulted_by_a_mask() {
    assert_eq!(classes_of(Ready::empty()), (false, false));
    assert_eq!(classes_of(Ready::writable()), (true, false));
    assert_eq!(classes_of(Ready::hup()), (false, true));
    assert_eq!(classes_of(Ready::from_usize(READABLE | WRITABLE)), (true, true));
}

#[test]
fn class_readiness_of_a_report() {
    assert!(PollEvented::<()>::class_ready(Class::Read, Async::Ready(Ready::hup())));
    assert!(!PollEvented::<()>::class_ready(Class::Read, Async::Ready(Ready::writable())));
    assert!(PollEvented::<()>::class_ready(Class::Write, Async::Ready(Ready::readable())));
    assert!(!PollEvented::<()>::class_ready(Class::Write, Async::Ready(Ready::empty())));
    assert!(!PollEvented::<()>::class_ready(Class::Read, Async::NotReady));
}
