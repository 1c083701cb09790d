use rsfml::audio::sound_status::Status;
use rsfml::examples::sound_capture::{
    parse_sample_rate, poll, read_choice, Choice, Polling, POLL_INTERVAL,
};

#[test]
fn a_sample_rate_is_read_from_a_line() {
    assert_eq!(parse_sample_rate(b"44100\n"), Some(44100));
    assert_eq!(parse_sample_rate(b"8000\n"), Some(8000));
    assert_eq!(parse_sample_rate(b"0\n"), Some(0));
    assert_eq!(parse_sample_rate(b"7\n"), Some(7));
}

#[test]
fn leading_zeros_do_not_count() {
    assert_eq!(parse_sample_rate(b"00044100\n"), Some(44100));
    assert_eq!(parse_sample_rate(b"000\n"), Some(0));
}

#[test]
fn a_plus_sign_may_stand_before_the_digits() {
    assert_eq!(parse_sample_rate(b"+22050\n"), Some(22050));
}

#[test]
fn the_last_byte_of_the_line_is_left_out_whatever_it_is() {
    assert_eq!(parse_sample_rate(b"44100"), Some(4410));
    assert_eq!(parse_sample_rate(b"441x"), Some(441));
    assert_eq!(parse_sample_rate(b"5"), None);
}

#[test]
fn a_line_without_a_number_gives_no_sample_rate() {
    assert_eq!(parse_sample_rate(b""), None);
    assert_eq!(parse_sample_rate(b"\n"), None);
    assert_eq!(parse_sample_rate(b"+\n"), None);
    assert_eq!(parse_sample_rate(b"++1\n"), None);
    assert_eq!(parse_sample_rate(b"-5\n"), None);
    assert_eq!(parse_sample_rate(b"cd quality\n"), None);
    assert_eq!(parse_sample_rate(b"44100 \n"), None);
    assert_eq!(parse_sample_rate(b" 44100\n"), None);
    assert_eq!(parse_sample_rate(b"44_100\n"), None);
    assert_eq!(parse_sample_rate(b"44100\r\n"), None);
    assert_eq!(parse_sample_rate(b"4.5\n"), None);
    assert_eq!(parse_sample_rate(b"12/\n"), None);
    assert_eq!(parse_sample_rate(b"12:\n"), None);
}

#[test]
fn the_largest_sample_rate_is_the_largest_count() {
    let line = format!("{}\n", usize::MAX);
    assert_eq!(parse_sample_rate(line.as_bytes()), Some(usize::MAX));
}

#[test]
fn a_sample_rate_beyond_the_largest_count_gives_none() {
    let line = format!("{}\n", usize::MAX as u128 + 1);
    assert_eq!(parse_sample_rate(line.as_bytes()), None);
    let line = format!("{}0\n", usize::MAX);
    assert_eq!(parse_sample_rate(line.as_bytes()), None);
    assert_eq!(parse_sample_rate(b"99999999999999999999999999999999999999999\n"), None);
}

#[test]
fn an_overflowing_number_with_a_stray_byte_gives_none() {
    assert_eq!(parse_sample_rate(b"99999999999999999999999999999999999999999x\n"), None);
}

#[test]
fn an_answer_that_ends_in_s_asks_to_save() {
    assert_eq!(read_choice(b"s"), Choice::Save);
    assert_eq!(read_choice(b"yes"), Choice::Save);
}

#[test]
fn any_other_answer_asks_to_play() {
    assert_eq!(read_choice(b"p"), Choice::Play);
    assert_eq!(read_choice(b"p\n"), Choice::Play);
    assert_eq!(read_choice(b"s\n"), Choice::Play);
    assert_eq!(read_choice(b"S"), Choice::Play);
    assert_eq!(read_choice(b"\n"), Choice::Play);
}

#[test]
fn polling_goes_on_while_the_sound_plays() {
    assert_eq!(POLL_INTERVAL, 100);
    assert_eq!(poll(Status::Playing), Polling::Wait { milliseconds: 100 });
}

#[test]
fn polling_ends_when_the_sound_does_not_play() {
    assert_eq!(poll(Status::Stopped), Polling::Finished);
    assert_eq!(poll(Status::Paused), Polling::Finished);
}
