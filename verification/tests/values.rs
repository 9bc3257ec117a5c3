use quicssh_rs::mtu::{parse_mtu_upper_bound, parse_u16, MtuError, SAFETY_MTU};
use quicssh_rs::relay::{
    after_read, after_write, closes_connection, hangup_close_reason, ClientEnd, Direction,
    ReadResult, Relay, Step, RELAY_BUFFER_LEN,
};
use quicssh_rs::text::{str_eq, trim_both};

#[test]
fn parse_u16_agrees_with_std_on_numbers() {
    for n in 0u32..=70_000 {
        let text = n.to_string();
        assert_eq!(parse_u16(&text), text.parse::<u16>().ok(), "{}", text);
        let plus = format!("+{}", n);
        assert_eq!(parse_u16(&plus), plus.parse::<u16>().ok(), "{}", plus);
        let zeros = format!("00{}", n);
        assert_eq!(parse_u16(&zeros), zeros.parse::<u16>().ok(), "{}", zeros);
    }
}

#[test]
fn parse_u16_agrees_with_std_on_odd_text() {
    for text in [
        "", "+", "-", "-0", "-1", "++1", "+-1", " 1", "1 ", "1_000", "0x10", "１２", "12a", "a12",
        "65535", "65536", "0000000000000065535", "99999999999999999999", "+0", "٣",
    ] {
        assert_eq!(parse_u16(text), text.parse::<u16>().ok(), "{:?}", text);
    }
}

#[test]
fn mtu_option_values() {
    assert_eq!(parse_mtu_upper_bound(&None), Ok(None));
    assert_eq!(parse_mtu_upper_bound(&Some("safety".to_string())), Ok(Some(1200)));
    assert_eq!(SAFETY_MTU, 1200);
    assert_eq!(parse_mtu_upper_bound(&Some("1300".to_string())), Ok(Some(1300)));
    assert_eq!(parse_mtu_upper_bound(&Some("1452".to_string())), Ok(Some(1452)));
    assert_eq!(parse_mtu_upper_bound(&Some("Safety".to_string())), Err(MtuError::InvalidValue));
    assert_eq!(parse_mtu_upper_bound(&Some("".to_string())), Err(MtuError::InvalidValue));
    assert_eq!(parse_mtu_upper_bound(&Some("70000".to_string())), Err(MtuError::InvalidValue));
    assert_eq!(MtuError::InvalidValue.message(), "Invalid MTU value");
}

#[test]
fn string_helpers() {
    assert!(str_eq("quic", "quic"));
    assert!(!str_eq("quic", "quick"));
    assert!(!str_eq("", "a"));
    for s in ["[::1]", "[[x]]", "]x[", "", "[", "]", "[]", "abc", "[a]b]"] {
        let expected = s.trim_start_matches('[').trim_end_matches(']');
        assert_eq!(trim_both(s, '[', ']'), expected, "{:?}", s);
    }
}

#[test]
fn relay_read_steps() {
    for dir in [Direction::QuicToStdout, Direction::StdinToQuic, Direction::SshToQuic, Direction::QuicToSsh] {
        assert_eq!(after_read(dir, ReadResult::Failed), Step::Stop);
        assert_eq!(after_read(dir, ReadResult::Finished), Step::ReadAgain);
        assert_eq!(after_read(dir, ReadResult::Data(5)), Step::Forward(5));
        assert_eq!(after_read(dir, ReadResult::Data(RELAY_BUFFER_LEN)), Step::Forward(2048));
    }
    assert_eq!(after_read(Direction::QuicToStdout, ReadResult::Data(0)), Step::Forward(0));
    assert_eq!(after_read(Direction::StdinToQuic, ReadResult::Data(0)), Step::ReadAgain);
    assert_eq!(after_read(Direction::SshToQuic, ReadResult::Data(0)), Step::ReadAgain);
    assert_eq!(after_read(Direction::QuicToSsh, ReadResult::Data(0)), Step::ReadAgain);
    assert_eq!(after_write(true), Step::ReadAgain);
    assert_eq!(after_write(false), Step::Stop);
}

#[test]
fn client_session_end() {
    assert!(closes_connection(ClientEnd::Signal));
    assert!(!closes_connection(ClientEnd::Downstream));
    assert!(!closes_connection(ClientEnd::Upstream));
    assert_eq!(hangup_close_reason(), "signal HUP");
}

#[test]
fn relay_records_each_chunk_before_the_next_read() {
    let mut relay = Relay::new(Direction::QuicToSsh);
    assert!(!relay.awaiting_write());
    let buf = [1u8, 2, 3, 4];
    assert_eq!(relay.read(&buf, ReadResult::Data(3)), Step::Forward(3));
    assert!(relay.awaiting_write());
    assert_eq!(relay.wrote(true), Step::ReadAgain);
    assert!(!relay.awaiting_write());
    assert_eq!(relay.read(&buf, ReadResult::Data(0)), Step::ReadAgain);
    assert!(!relay.awaiting_write());
    assert_eq!(relay.read(&buf, ReadResult::Finished), Step::ReadAgain);
    assert_eq!(relay.read(&buf, ReadResult::Data(4)), Step::Forward(4));
    assert_eq!(relay.wrote(false), Step::Stop);
    assert!(relay.awaiting_write());

    let mut relay = Relay::new(Direction::QuicToStdout);
    assert_eq!(relay.read(&buf, ReadResult::Data(0)), Step::Forward(0));
    assert!(relay.awaiting_write());
    let mut relay = Relay::new(Direction::StdinToQuic);
    assert_eq!(relay.read(&buf, ReadResult::Failed), Step::Stop);
}
