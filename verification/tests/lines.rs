use remote_control::error::RemoteError;
use remote_control::gpio::{indicator_lines, indicator_offsets, Input, Output};
use remote_control::remote::Command;

#[test]
fn input_from_str_reads_the_four_line_names() {
    assert_eq!(Input::from_str("P1"), Ok(Input::P1));
    assert_eq!(Input::from_str("P2"), Ok(Input::P2));
    assert_eq!(Input::from_str("P3"), Ok(Input::P3));
    assert_eq!(Input::from_str("P4"), Ok(Input::P4));
}

#[test]
fn input_from_str_turns_other_text_away() {
    assert_eq!(Input::from_str("AMBIGUOUS"), Err(RemoteError::InvalidInput));
    assert_eq!(Input::from_str(""), Err(RemoteError::InvalidInput));
    assert_eq!(Input::from_str("p1"), Err(RemoteError::InvalidInput));
    assert_eq!(Input::from_str("P5"), Err(RemoteError::InvalidInput));
    assert_eq!(Input::from_str("P1 "), Err(RemoteError::InvalidInput));
    assert_eq!(Input::from_str("P\u{e9}"), Err(RemoteError::InvalidInput));
}

#[test]
fn input_try_from_maps_offsets_to_positions() {
    assert_eq!(Input::try_from(21), Ok(Input::P1));
    assert_eq!(Input::try_from(20), Ok(Input::P2));
    assert_eq!(Input::try_from(16), Ok(Input::P3));
    assert_eq!(Input::try_from(12), Ok(Input::P4));
    assert_eq!(Input::try_from(13), Err(RemoteError::InvalidInput));
    assert_eq!(Input::try_from(0), Err(RemoteError::InvalidInput));
    assert_eq!(Input::try_from(u32::MAX), Err(RemoteError::InvalidInput));
}

#[test]
fn input_from_u8_maps_pins_to_positions() {
    assert_eq!(Input::from_u8(21), Some(Input::P1));
    assert_eq!(Input::from_u8(20), Some(Input::P2));
    assert_eq!(Input::from_u8(16), Some(Input::P3));
    assert_eq!(Input::from_u8(12), Some(Input::P4));
    assert_eq!(Input::from_u8(6), None);
    assert_eq!(Input::from_u8(255), None);
}

#[test]
fn input_offset_is_the_inverse_of_try_from() {
    for p in indicator_lines() {
        let offset = p.offset().unwrap();
        assert_eq!(Input::try_from(offset), Ok(p));
    }
    assert_eq!(Input::Ambiguous.offset(), None);
}

#[test]
fn indicator_tables_agree() {
    assert_eq!(indicator_lines(), [Input::P1, Input::P2, Input::P3, Input::P4]);
    assert_eq!(indicator_offsets(), [21, 20, 16, 12]);
}

#[test]
fn input_names_are_the_published_ones() {
    assert_eq!(Input::P1.name(), "P1");
    assert_eq!(Input::P2.name(), "P2");
    assert_eq!(Input::P3.name(), "P3");
    assert_eq!(Input::P4.name(), "P4");
    assert_eq!(Input::Ambiguous.name(), "AMBIGUOUS");
    assert_eq!(Input::P3.to_string(), String::from("P3"));
    assert_eq!(Input::Ambiguous.to_string(), String::from("AMBIGUOUS"));
}

#[test]
fn input_name_reads_back_for_every_line() {
    for p in indicator_lines() {
        assert_eq!(Input::from_str(p.name()), Ok(p));
    }
}

#[test]
fn input_next_walks_the_ring() {
    assert_eq!(Input::P1.next(), Input::P2);
    assert_eq!(Input::P2.next(), Input::P3);
    assert_eq!(Input::P3.next(), Input::P4);
    assert_eq!(Input::P4.next(), Input::Ambiguous);
    assert_eq!(Input::Ambiguous.next(), Input::P1);
}

#[test]
fn input_next_returns_after_five_steps() {
    for start in [Input::P1, Input::P2, Input::P3, Input::P4, Input::Ambiguous] {
        let mut p = start;
        for _ in 0..5 {
            p = p.next();
        }
        assert_eq!(p, start);
    }
}

#[test]
fn output_from_str_reads_the_four_words() {
    assert_eq!(Output::from_str("select"), Some(Output::Select));
    assert_eq!(Output::from_str("up"), Some(Output::Up));
    assert_eq!(Output::from_str("stop"), Some(Output::Stop));
    assert_eq!(Output::from_str("down"), Some(Output::Down));
}

#[test]
fn output_from_str_turns_other_text_away() {
    assert_eq!(Output::from_str(""), None);
    assert_eq!(Output::from_str("Select"), None);
    assert_eq!(Output::from_str("upp"), None);
    assert_eq!(Output::from_str("u"), None);
    assert_eq!(Output::from_str("cycle"), None);
}

#[test]
fn output_offsets_are_the_wired_ones() {
    assert_eq!(Output::Select.offset(), 6);
    assert_eq!(Output::Down.offset(), 13);
    assert_eq!(Output::Stop.offset(), 19);
    assert_eq!(Output::Up.offset(), 26);
}

#[test]
fn command_from_str_reads_the_four_words() {
    assert_eq!(Command::from_str("select"), Some(Command::Select));
    assert_eq!(Command::from_str("up"), Some(Command::Up));
    assert_eq!(Command::from_str("stop"), Some(Command::Stop));
    assert_eq!(Command::from_str("down"), Some(Command::Down));
    assert_eq!(Command::from_str("left"), None);
    assert_eq!(Command::from_str(""), None);
}

#[test]
fn command_to_output_keeps_the_button() {
    assert_eq!(Command::Select.to_output(), Output::Select);
    assert_eq!(Command::Up.to_output(), Output::Up);
    assert_eq!(Command::Stop.to_output(), Output::Stop);
    assert_eq!(Command::Down.to_output(), Output::Down);
}

#[test]
fn command_word_and_output_word_agree() {
    for word in ["select", "up", "stop", "down"] {
        let command = Command::from_str(word).unwrap();
        assert_eq!(Some(command.to_output()), Output::from_str(word));
    }
}

#[test]
fn error_messages_name_the_kind() {
    assert_eq!(RemoteError::HardwareAcquisition.message(), "hardware acquisition failed");
    assert_eq!(RemoteError::NoSignal.message(), "no signal within the observation window");
    assert_eq!(RemoteError::InvalidCommand.message(), "invalid command");
    assert_eq!(RemoteError::InvalidInput.message(), "invalid input value");
    assert_eq!(RemoteError::SeekNotConverging.message(), "seek did not converge");
    assert_eq!(RemoteError::LineBusy.message(), "output line is busy");
    assert_eq!(RemoteError::LineIdle.message(), "output line is not held");
    assert_eq!(RemoteError::DwellNotElapsed.message(), "minimum dwell has not elapsed");
    assert_eq!(RemoteError::NoSignal.to_string(), String::from("no signal within the observation window"));
}
