use accel::stream::{Event, Stream, STREAM_DEFAULT, STREAM_NON_BLOCKING};

#[test]
fn stream_flags() {
    assert_eq!(Stream::creation_flags(false), STREAM_DEFAULT);
    assert_eq!(Stream::creation_flags(true), STREAM_NON_BLOCKING);
    assert_eq!(Stream::blocking(1).flags(), 0);
    assert_eq!(Stream::non_blocking(2).flags(), 1);
}

#[test]
fn wait_follows_last_record() {
    let s1 = Stream::blocking(1);
    let s2 = Stream::non_blocking(2);
    let s3 = Stream::blocking(3);
    let mut e = Event::new(9, 2);
    assert_eq!(s2.wait(&e), None);
    e.record(&s1);
    assert_eq!(s2.wait(&e), Some(1));
    e.record(&s3);
    assert_eq!(s2.wait(&e), Some(3));
    assert_eq!(e.get_ptr(), 9);
    assert_eq!(e.flags(), 2);
}
