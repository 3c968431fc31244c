use async_pipe::{ChannelState, PipeError, Progress};
use futures::task::noop_waker;

#[test]
fn fresh_state_is_flushed_and_open() {
    let s = ChannelState::new();
    assert!(s.is_flushed());
    assert!(!s.is_closed());
}

#[test]
fn whole_chunk_round_trip() {
    let w = noop_waker();
    let mut s = ChannelState::new();
    let (r, wake) = s.poll_write(w.clone(), b"hello world");
    assert_eq!(r, Progress::Pending);
    assert!(wake.is_none());
    assert!(!s.is_flushed());
    let mut buf = [7u8; 16];
    let (r, wake) = s.poll_read(w.clone(), &mut buf);
    assert_eq!(r, Progress::Ready(11));
    assert!(wake.is_some());
    assert_eq!(&buf[..11], b"hello world");
    assert_eq!(&buf[11..], &[7u8; 5]);
    assert!(!s.is_flushed());
    let (r, _) = s.poll_write(w.clone(), b"hello world");
    assert_eq!(r, Progress::Ready(Ok(11)));
    assert!(s.is_flushed());
    let (r, _) = s.poll_read(w.clone(), &mut buf);
    assert_eq!(r, Progress::Pending);
}

#[test]
fn short_read_drops_the_excess() {
    let w = noop_waker();
    let mut s = ChannelState::new();
    s.poll_write(w.clone(), b"abcdef");
    let mut buf = [0u8; 2];
    let (r, _) = s.poll_read(w.clone(), &mut buf);
    assert_eq!(r, Progress::Ready(2));
    assert_eq!(&buf, b"ab");
    let mut more = [0u8; 8];
    let (r, _) = s.poll_read(w.clone(), &mut more);
    assert_eq!(r, Progress::Pending);
    assert_eq!(more, [0u8; 8]);
    let (r, _) = s.poll_write(w.clone(), b"abcdef");
    assert_eq!(r, Progress::Ready(Ok(2)));
}

#[test]
fn reader_close_fails_pending_write() {
    let w = noop_waker();
    let mut s = ChannelState::new();
    s.poll_write(w.clone(), b"data");
    let wake = s.close_by_reader();
    assert!(wake.is_some());
    assert!(s.is_closed());
    let (r, wake) = s.poll_write(w.clone(), b"data");
    assert_eq!(r, Progress::Ready(Err(PipeError::BrokenPipe)));
    assert!(wake.is_none());
    let (r, _) = s.poll_write(w.clone(), b"other");
    assert_eq!(r, Progress::Ready(Err(PipeError::BrokenPipe)));
}

#[test]
fn close_after_take_keeps_the_write() {
    let w = noop_waker();
    let mut s = ChannelState::new();
    s.poll_write(w.clone(), &[0u8; 8]);
    let mut buf = [1u8; 8];
    assert_eq!(s.poll_read(w.clone(), &mut buf).0, Progress::Ready(8));
    s.close_by_reader();
    assert_eq!(s.poll_write(w.clone(), &[0u8; 8]).0, Progress::Ready(Ok(8)));
}

#[test]
fn writer_close_gives_end_of_stream() {
    let w = noop_waker();
    let mut s = ChannelState::new();
    let mut buf = [0u8; 8];
    assert_eq!(s.poll_read(w.clone(), &mut buf).0, Progress::Pending);
    let wake = s.close_by_writer();
    assert!(wake.is_some());
    assert_eq!(s.poll_read(w.clone(), &mut buf).0, Progress::Ready(0));
    assert_eq!(s.poll_read(w.clone(), &mut buf).0, Progress::Ready(0));
}

#[test]
fn pending_chunk_is_read_after_writer_close() {
    let w = noop_waker();
    let mut s = ChannelState::new();
    s.poll_write(w.clone(), b"xyz");
    s.close_by_writer();
    let mut buf = [0u8; 8];
    assert_eq!(s.poll_read(w.clone(), &mut buf).0, Progress::Ready(3));
    assert_eq!(&buf[..3], b"xyz");
    assert_eq!(s.poll_read(w.clone(), &mut buf).0, Progress::Ready(0));
}

#[test]
fn second_write_waits_for_cycle() {
    let w = noop_waker();
    let mut s = ChannelState::new();
    let mut buf = [0u8; 4];
    assert_eq!(s.poll_read(w.clone(), &mut buf).0, Progress::Pending);
    let (r, wake) = s.poll_write(w.clone(), b"ab");
    assert_eq!(r, Progress::Pending);
    assert!(wake.is_some());
    let (r, wake) = s.poll_write(w.clone(), b"ab");
    assert_eq!(r, Progress::Pending);
    assert!(wake.is_none());
    assert_eq!(s.poll_flush(w.clone()), Progress::Pending);
}

#[test]
fn empty_write_reads_as_zero_bytes() {
    let w = noop_waker();
    let mut s = ChannelState::new();
    s.poll_write(w.clone(), b"");
    let mut buf = [5u8; 4];
    assert_eq!(s.poll_read(w.clone(), &mut buf).0, Progress::Ready(0));
    assert_eq!(buf, [5u8; 4]);
    assert_eq!(s.poll_write(w.clone(), b"").0, Progress::Ready(Ok(0)));
}
