use promptline::segments::{ExitCode, Openstack};
use promptline::sink::BoundedBuffer;
use promptline::{Color, ColorableStream, ColoredStream};

const SEPARATOR: &str = "\u{e0b0}";
const RESET: &str = "\x01\x1b[0m\x02";

fn fg(r: u8, g: u8, b: u8) -> String {
    format!("\x01\x1b[38;2;{};{};{}m\x02", r, g, b)
}

fn bg(r: u8, g: u8, b: u8) -> String {
    format!("\x01\x1b[48;2;{};{};{}m\x02", r, g, b)
}

fn fresh() -> ColoredStream<Vec<u8>> {
    ColoredStream::new(Vec::new())
}

fn text(stream: ColoredStream<Vec<u8>>) -> String {
    String::from_utf8(stream.into_inner()).unwrap()
}

#[test]
fn a_new_stream_is_black_and_has_written_nothing() {
    let stream = fresh();
    assert_eq!(stream.background(), Color::from_rgb(0, 0, 0));
    assert_eq!(stream.into_inner(), Vec::<u8>::new());
}

#[test]
fn a_stream_keeps_what_the_sink_held_before() {
    let mut stream = ColoredStream::new(b"$ ".to_vec());
    stream.write_str("x").unwrap();
    assert_eq!(stream.into_inner(), b"$ x".to_vec());
}

#[test]
fn the_first_segment_only_sets_its_background() {
    let mut stream = fresh();
    stream.start_segment(Color::from_rgb(80, 80, 80)).unwrap();
    assert_eq!(stream.background(), Color::from_rgb(80, 80, 80));
    assert_eq!(text(stream), bg(80, 80, 80));
}

#[test]
fn consecutive_segments_hand_the_background_over() {
    let mut stream = fresh();
    stream.start_segment(Color::from_rgb(80, 80, 80)).unwrap();
    stream.start_segment(Color::from_rgb(30, 30, 255)).unwrap();
    let out = stream.into_inner();
    let expected = "\x01\x1b[48;2;80;80;80m\x02\x01\x1b[38;2;80;80;80m\x02\x01\x1b[48;2;30;30;255m\x02\u{e0b0}";
    assert_eq!(out, expected.as_bytes().to_vec());
}

#[test]
fn every_segment_of_a_run_takes_over_the_background_before_it() {
    let colors = [(1u8, 2u8, 3u8), (40, 50, 60), (0, 0, 0), (255, 255, 255), (40, 50, 60)];
    let mut stream = fresh();
    let mut expected = String::new();
    for (i, &(r, g, b)) in colors.iter().enumerate() {
        stream.start_segment(Color::from_rgb(r, g, b)).unwrap();
        stream.write_str("content").unwrap();
        if i > 0 {
            let (pr, pg, pb) = colors[i - 1];
            expected += &fg(pr, pg, pb);
        }
        expected += &bg(r, g, b);
        if i > 0 {
            expected += SEPARATOR;
        }
        expected += "content";
    }
    assert_eq!(text(stream), expected);
}

#[test]
fn colours_set_inside_a_segment_do_not_break_the_hand_over() {
    let mut stream = fresh();
    stream.start_segment(Color::from_rgb(10, 10, 10)).unwrap();
    stream.set_fg(Color::from_rgb(1, 1, 1)).unwrap();
    stream.set_bg(Color::from_rgb(20, 20, 20)).unwrap();
    stream.start_segment(Color::from_rgb(30, 30, 30)).unwrap();
    let expected = bg(10, 10, 10) + &fg(1, 1, 1) + &bg(20, 20, 20) + &fg(20, 20, 20)
        + &bg(30, 30, 30) + SEPARATOR;
    assert_eq!(text(stream), expected);
}

#[test]
fn set_fg_inner_sets_the_foreground_and_nothing_else() {
    let mut stream = fresh();
    stream.set_fg_inner(Color::from_rgb(9, 8, 7)).unwrap();
    assert_eq!(stream.background(), Color::from_rgb(0, 0, 0));
    assert_eq!(text(stream), fg(9, 8, 7));
}

#[test]
fn set_bg_after_a_boundary_opens_the_segment() {
    let mut stream = fresh();
    stream.write_segment(&mut ExitCode::new(None)).unwrap();
    stream.set_bg(Color::from_rgb(5, 6, 7)).unwrap();
    let expected = bg(0, 0, 100) + &fg(200, 200, 200) + "   " + &fg(0, 0, 100) + &bg(5, 6, 7)
        + SEPARATOR;
    assert_eq!(text(stream), expected);
}

#[test]
fn set_fg_after_a_boundary_opens_the_segment_and_sets_the_foreground() {
    let mut stream = fresh();
    stream.write_segment(&mut ExitCode::new(None)).unwrap();
    stream.set_fg(Color::from_rgb(5, 6, 7)).unwrap();
    let expected = bg(0, 0, 100) + &fg(200, 200, 200) + "   " + &fg(0, 0, 100) + &bg(0, 0, 100)
        + SEPARATOR + &fg(5, 6, 7);
    assert_eq!(text(stream), expected);
}

#[test]
fn raw_bytes_after_a_boundary_open_the_segment() {
    let mut stream = fresh();
    stream.write_segment(&mut ExitCode::new(None)).unwrap();
    assert_eq!(stream.write(b"raw").unwrap(), 3);
    let expected = bg(0, 0, 100) + &fg(200, 200, 200) + "   " + &fg(0, 0, 100) + &bg(0, 0, 100)
        + SEPARATOR + "raw";
    assert_eq!(text(stream), expected);
}

#[test]
fn raw_bytes_inside_a_segment_pass_through() {
    let mut stream = fresh();
    stream.start_segment(Color::from_rgb(1, 1, 1)).unwrap();
    assert_eq!(stream.write(&[0xff, 0x00, 0x7f]).unwrap(), 3);
    let mut expected = bg(1, 1, 1).into_bytes();
    expected.extend_from_slice(&[0xff, 0x00, 0x7f]);
    assert_eq!(stream.into_inner(), expected);
}

#[test]
fn writing_no_bytes_at_all_does_nothing() {
    let mut stream = fresh();
    stream.write_segment(&mut ExitCode::new(None)).unwrap();
    let before = bg(0, 0, 100) + &fg(200, 200, 200) + "   ";
    stream.write_all(b"").unwrap();
    stream.write_str("").unwrap();
    assert_eq!(text(stream), before);
}

#[test]
fn a_segment_that_writes_nothing_leaves_no_trace() {
    let mut with = fresh();
    with.write_segment(&mut ExitCode::new(Some(1))).unwrap();
    with.write_segment(&mut Openstack::new(None, None)).unwrap();
    with.write_segment(&mut ExitCode::new(Some(0))).unwrap();

    let mut without = fresh();
    without.write_segment(&mut ExitCode::new(Some(1))).unwrap();
    without.write_segment(&mut ExitCode::new(Some(0))).unwrap();

    assert_eq!(with.background(), without.background());
    assert_eq!(with.into_inner(), without.into_inner());
}

#[test]
fn a_segment_that_writes_nothing_on_an_empty_line_writes_no_byte() {
    let mut stream = fresh();
    stream.write_segment(&mut Openstack::new(None, None)).unwrap();
    assert_eq!(stream.background(), Color::from_rgb(0, 0, 0));
    assert_eq!(stream.into_inner(), Vec::<u8>::new());
}

#[test]
fn the_first_segment_after_silent_ones_has_nothing_handed_over() {
    let mut stream = fresh();
    stream.write_segment(&mut Openstack::new(None, None)).unwrap();
    stream.write_segment(&mut ExitCode::new(Some(0))).unwrap();
    assert_eq!(text(stream), bg(0, 100, 0) + &fg(200, 200, 200) + "   ");
}

#[test]
fn reset_returns_to_black_every_time() {
    let mut stream = fresh();
    stream.reset().unwrap();
    assert_eq!(stream.background(), Color::from_rgb(0, 0, 0));
    stream.start_segment(Color::from_rgb(9, 9, 9)).unwrap();
    stream.set_bg(Color::from_rgb(7, 7, 7)).unwrap();
    stream.write_str("x").unwrap();
    assert_eq!(stream.background(), Color::from_rgb(7, 7, 7));
    stream.reset().unwrap();
    assert_eq!(stream.background(), Color::from_rgb(0, 0, 0));
    stream.reset().unwrap();
    assert_eq!(stream.background(), Color::from_rgb(0, 0, 0));
    let expected = RESET.to_owned() + &bg(9, 9, 9) + &bg(7, 7, 7) + "x" + RESET + RESET;
    assert_eq!(text(stream), expected);
}

#[test]
fn a_blank_line_with_reset_is_bit_for_bit() {
    let mut stream = fresh();
    stream.end_line().unwrap();
    stream.reset().unwrap();
    assert_eq!(
        stream.into_inner(),
        b"\x01\x1b[38;2;0;0;0m\x02\xee\x82\xb0\x01\x1b[0m\x02\x01\x1b[0m\x02".to_vec()
    );
}

#[test]
fn end_line_hands_the_background_over_to_the_terminal() {
    let mut stream = fresh();
    stream.start_segment(Color::from_rgb(60, 60, 60)).unwrap();
    stream.write_str(" ~ ").unwrap();
    stream.end_line().unwrap();
    assert_eq!(stream.background(), Color::from_rgb(0, 0, 0));
    let expected = bg(60, 60, 60) + " ~ " + &fg(60, 60, 60) + SEPARATOR + RESET;
    assert_eq!(text(stream), expected);
}

#[test]
fn the_line_after_end_line_starts_empty() {
    let mut stream = fresh();
    stream.start_segment(Color::from_rgb(60, 60, 60)).unwrap();
    stream.end_line().unwrap();
    stream.start_segment(Color::from_rgb(1, 2, 3)).unwrap();
    let expected = bg(60, 60, 60) + &fg(60, 60, 60) + SEPARATOR + RESET + &bg(1, 2, 3);
    assert_eq!(text(stream), expected);
}

#[test]
fn new_line_closes_the_line_and_feeds_one() {
    let mut stream = fresh();
    stream.start_segment(Color::from_rgb(60, 60, 60)).unwrap();
    stream.new_line().unwrap();
    stream.write_segment(&mut ExitCode::new(Some(0))).unwrap();
    let expected = bg(60, 60, 60) + &fg(60, 60, 60) + SEPARATOR + RESET + "\n" + &bg(0, 100, 0)
        + &fg(200, 200, 200) + "   ";
    assert_eq!(text(stream), expected);
}

#[test]
fn end_line_ends_with_the_reset_on_an_empty_line_too() {
    let mut stream = fresh();
    stream.end_line().unwrap();
    assert!(text(stream).ends_with(RESET));
    let mut stream = fresh();
    stream.write_segment(&mut ExitCode::new(Some(1))).unwrap();
    stream.new_line().unwrap();
    assert!(text(stream).ends_with(&(RESET.to_owned() + "\n")));
}

#[test]
fn write_says_what_the_sink_took() {
    let mut stream = ColoredStream::new(BoundedBuffer::new(2));
    assert_eq!(stream.write(b"abc").unwrap(), 2);
    assert_eq!(stream.write(b"d").unwrap(), 0);
    assert_eq!(stream.into_inner().into_bytes(), b"ab".to_vec());
    let mut stream = ColoredStream::new(BoundedBuffer::new(3));
    assert_eq!(stream.write(b"abc").unwrap(), 3);
    assert_eq!(stream.write(b"").unwrap(), 0);
    assert_eq!(stream.into_inner().into_bytes(), b"abc".to_vec());
}

#[test]
fn a_write_that_cannot_open_the_pending_segment_fails() {
    let mut stream = ColoredStream::new(BoundedBuffer::new(5));
    stream.write_segment(&mut Openstack::new(None, None)).unwrap();
    let error = stream.write(b"abc").unwrap_err();
    assert_eq!(error.kind(), std::io::ErrorKind::WriteZero);
}

#[test]
fn a_segment_that_writes_nothing_succeeds_on_a_sink_that_is_full() {
    let mut stream = ColoredStream::new(BoundedBuffer::new(0));
    assert!(stream.write_segment(&mut Openstack::new(None, None)).is_ok());
    assert!(stream.write_all(b"").is_ok());
    assert!(stream.write_str("").is_ok());
    assert!(stream.flush().is_ok());
    assert!(stream.reset().is_err());
}

#[test]
fn an_operation_succeeds_on_a_sink_with_room_for_it() {
    let whole = {
        let mut stream = fresh();
        stream.start_segment(Color::from_rgb(1, 2, 3)).unwrap();
        stream.write_segment(&mut ExitCode::new(Some(3))).unwrap();
        stream.new_line().unwrap();
        stream.into_inner()
    };
    let mut stream = ColoredStream::new(BoundedBuffer::new(whole.len()));
    assert!(stream.start_segment(Color::from_rgb(1, 2, 3)).is_ok());
    assert!(stream.write_segment(&mut ExitCode::new(Some(3))).is_ok());
    assert!(stream.new_line().is_ok());
    assert!(stream.reset().is_err());
}

#[test]
fn a_bounded_buffer_takes_a_part_of_a_write() {
    let mut sink = BoundedBuffer::new(4);
    assert_eq!(sink.write(b"abc").unwrap(), 3);
    assert_eq!(sink.write(b"def").unwrap(), 1);
    assert_eq!(sink.write(b"g").unwrap(), 0);
    assert_eq!(sink.into_bytes(), b"abcd".to_vec());
    let mut sink: Vec<u8> = Vec::new();
    assert_eq!(ColorableStream::write(&mut sink, b"abc").unwrap(), 3);
    assert_eq!(sink, b"abc".to_vec());
}

#[test]
fn flush_writes_nothing() {
    let mut stream = fresh();
    stream.write_str("x").unwrap();
    stream.flush().unwrap();
    assert_eq!(stream.into_inner(), b"x".to_vec());
}

#[test]
fn a_vector_takes_every_write() {
    let mut sink: Vec<u8> = Vec::new();
    ColorableStream::write_all(&mut sink, b"ab").unwrap();
    ColorableStream::write_all(&mut sink, b"").unwrap();
    ColorableStream::write_all(&mut sink, b"c").unwrap();
    ColorableStream::flush(&mut sink).unwrap();
    assert_eq!(sink, b"abc".to_vec());
}

#[test]
fn a_bounded_buffer_takes_what_fits() {
    let mut sink = BoundedBuffer::new(4);
    assert!(sink.write_all(b"abc").is_ok());
    assert!(sink.write_all(b"").is_ok());
    assert!(sink.write_all(b"d").is_ok());
    assert!(sink.flush().is_ok());
    assert_eq!(sink.into_bytes(), b"abcd".to_vec());
}

#[test]
fn a_bounded_buffer_fails_when_it_is_full() {
    let mut sink = BoundedBuffer::new(4);
    assert!(sink.write_all(b"abc").is_ok());
    let error = sink.write_all(b"def").unwrap_err();
    assert_eq!(error.kind(), std::io::ErrorKind::WriteZero);
    assert!(sink.write_all(b"g").is_err());
    assert_eq!(sink.into_bytes(), b"abcd".to_vec());
}

#[test]
fn a_failing_sink_stops_the_segment() {
    let mut stream = ColoredStream::new(BoundedBuffer::new(5));
    let mut segment = ExitCode::new(Some(-7));
    assert!(stream.write_segment(&mut segment).is_err());
    let sink = stream.into_inner();
    assert_eq!(sink.into_bytes(), b"\x01\x1b[48".to_vec());
}

#[test]
fn a_failure_in_the_middle_leaves_a_part_of_the_line() {
    let whole = {
        let mut stream = fresh();
        stream.write_segment(&mut ExitCode::new(Some(3))).unwrap();
        stream.end_line().unwrap();
        stream.into_inner()
    };
    for room in 0..whole.len() {
        let mut stream = ColoredStream::new(BoundedBuffer::new(room));
        let first = stream.write_segment(&mut ExitCode::new(Some(3)));
        let second = first.and_then(|_| stream.end_line());
        assert!(second.is_err());
        let part = stream.into_inner().into_bytes();
        assert_eq!(part, whole[..room].to_vec());
    }
    let mut stream = ColoredStream::new(BoundedBuffer::new(whole.len()));
    stream.write_segment(&mut ExitCode::new(Some(3))).unwrap();
    stream.end_line().unwrap();
    assert_eq!(stream.into_inner().into_bytes(), whole);
}
