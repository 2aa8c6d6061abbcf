use s7::config::{CollectMode, CollectParam};
use s7::tcp::{Options, Phase, Receiver};
use s7::transport::Connection;
use s7::{Area, DataSizeType, Error};
use std::time::Duration;

fn config(collect_mode: CollectMode) -> CollectParam {
    CollectParam {
        address: [192, 168, 254, 60],
        port: 102,
        collect_mode,
        timeout: Duration::from_secs(2),
        areas: vec![Area::V(DataSizeType::Byte { addr: 300, len: 1 })],
    }
}

#[test]
fn connection_codes() {
    assert_eq!(Connection::PG.code(), 1);
    assert_eq!(Connection::OP.code(), 2);
    assert_eq!(Connection::Basic.code(), 3);
}

#[test]
fn rack_and_slot_derive_the_remote_tsap() {
    let mode = CollectMode::init_rack_slot(Connection::PG, 0, 1);
    assert_eq!(
        mode,
        CollectMode::RackSlot {
            conn_type: Connection::PG,
            rack: 0,
            slot: 1
        }
    );
    assert_eq!(mode.remote_tsap(), [0x01, 0x01]);
    assert_eq!(mode.local_tsap(), [0x01, 0x00]);
    assert_eq!(*mode.conn_type(), Connection::PG);

    let mode = CollectMode::init_rack_slot(Connection::OP, 0, 2);
    assert_eq!(mode.remote_tsap(), [0x02, 0x02]);
    let mode = CollectMode::init_rack_slot(Connection::Basic, 1, 3);
    assert_eq!(mode.remote_tsap(), [0x03, 0x23]);
    let mode = CollectMode::init_rack_slot(Connection::PG, 7, 31);
    assert_eq!(mode.remote_tsap(), [0x01, 0xFF]);
    let mode = CollectMode::init_rack_slot(Connection::PG, 8, 0);
    assert_eq!(mode.remote_tsap(), [0x02, 0x00]);
}

#[test]
fn remote_tsap_beyond_16_bits_keeps_the_low_16_bits() {
    let mode = CollectMode::init_rack_slot(Connection::Basic, 0xFFFF, 0xFFFF);
    assert_eq!(mode.remote_tsap(), [0x02, 0xDF]);
    let mode = CollectMode::init_rack_slot(Connection::PG, 2040, 0);
    assert_eq!(mode.remote_tsap(), [0x00, 0x00]);
}

#[test]
fn explicit_tsaps_are_taken_as_they_are() {
    let mode = CollectMode::init_tsap(Connection::Basic, 0x1000, 0x0301);
    assert_eq!(
        mode,
        CollectMode::Tsap {
            conn_type: Connection::Basic,
            local_tsap: 0x1000,
            remote_tsap: 0x0301
        }
    );
    assert_eq!(mode.local_tsap(), [0x10, 0x00]);
    assert_eq!(mode.remote_tsap(), [0x03, 0x01]);
    assert_eq!(*mode.conn_type(), Connection::Basic);
    let mode = CollectMode::init_tsap(Connection::PG, 0xABCD, 0xFFFE);
    assert_eq!(mode.local_tsap(), [0xAB, 0xCD]);
    assert_eq!(mode.remote_tsap(), [0xFF, 0xFE]);
}

#[test]
fn options_start_unnegotiated() {
    let mode = CollectMode::init_rack_slot(Connection::OP, 0, 2);
    let options = Options::init_from_config(&config(mode));
    assert_eq!(options.address(), [192, 168, 254, 60]);
    assert_eq!(options.port(), 102);
    assert_eq!(options.read_timeout, Duration::from_secs(2));
    assert_eq!(options.write_timeout, Duration::from_secs(2));
    assert_eq!(options.conn_type, Connection::OP);
    assert_eq!(options.pdu_length(), 0);
    assert_eq!(options.last_pdu_type(), 0);
    let copy = options.clone();
    assert_eq!(copy.address(), [192, 168, 254, 60]);
    assert_eq!(copy.read_timeout, Duration::from_secs(2));
}

#[test]
fn collect_param_clones_its_areas() {
    let source = config(CollectMode::init_rack_slot(Connection::OP, 0, 2));
    let copy = source.clone();
    assert_eq!(copy.address, source.address);
    assert_eq!(copy.port, source.port);
    assert_eq!(copy.collect_mode, source.collect_mode);
    assert_eq!(copy.timeout, source.timeout);
    assert_eq!(copy.areas, source.areas);
}

#[test]
fn iso_connection_request_carries_the_tsaps() {
    let mode = CollectMode::init_tsap(Connection::PG, 0x1122, 0x3344);
    let options = Options::init_from_config(&config(mode));
    assert_eq!(
        options.iso_connection_request(),
        vec![
            3, 0, 0, 22, 17, 224, 0, 0, 0, 1, 0, 192, 1, 10, 193, 2, 0x11, 0x22, 194, 2, 0x33,
            0x44,
        ]
    );
    let mode = CollectMode::init_rack_slot(Connection::PG, 0, 2);
    let options = Options::init_from_config(&config(mode));
    let request = options.iso_connection_request();
    assert_eq!(&request[16..18], &[0x01, 0x00]);
    assert_eq!(&request[20..22], &[0x01, 0x02]);
}

#[test]
fn connection_is_confirmed_by_length_and_pdu_type() {
    let mode = CollectMode::init_rack_slot(Connection::PG, 0, 2);
    let mut options = Options::init_from_config(&config(mode));
    assert_eq!(options.confirm_connection(22), Err(Error::Iso));
    options.record_pdu_type(0xD0);
    assert_eq!(options.last_pdu_type(), 0xD0);
    assert_eq!(options.confirm_connection(22), Ok(()));
    assert_eq!(options.confirm_connection(21), Err(Error::PduLength(21)));
    assert_eq!(options.confirm_connection(0), Err(Error::PduLength(0)));
    assert_eq!(
        options.confirm_connection(0x1_0016),
        Err(Error::PduLength(22))
    );
    options.record_pdu_type(0xE0);
    assert_eq!(options.confirm_connection(22), Err(Error::Iso));
    assert_eq!(options.confirm_connection(23), Err(Error::PduLength(23)));
    assert_eq!(options.pdu_length(), 0);
}

#[test]
fn negotiation_request_asks_for_480() {
    assert_eq!(
        Options::pdu_negotiation_request(),
        vec![
            3, 0, 0, 25, 2, 240, 128, 50, 1, 0, 0, 4, 0, 0, 8, 0, 0, 240, 0, 0, 1, 0, 1, 0x01,
            0xE0,
        ]
    );
}

fn negotiation_reply(pdu_length: u16) -> Vec<u8> {
    let mut reply = vec![0x77u8; 27];
    reply[17] = 0;
    reply[18] = 0;
    reply[25] = (pdu_length >> 8) as u8;
    reply[26] = pdu_length as u8;
    reply
}

fn negotiating() -> Options {
    let mode = CollectMode::init_rack_slot(Connection::PG, 0, 2);
    Options::init_from_config(&config(mode))
}

#[test]
fn negotiation_sets_the_pdu_length() {
    let mut options = negotiating();
    assert_eq!(options.accept_negotiation(&negotiation_reply(240)), Ok(()));
    assert_eq!(options.pdu_length(), 240);
    assert_eq!(options.accept_negotiation(&negotiation_reply(480)), Ok(()));
    assert_eq!(options.pdu_length(), 480);
    assert_eq!(
        options.accept_negotiation(&negotiation_reply(0xFFFF)),
        Ok(())
    );
    assert_eq!(options.pdu_length(), 0xFFFF);
    assert_eq!(options.address(), [192, 168, 254, 60]);
    assert_eq!(options.last_pdu_type(), 0);
}

#[test]
fn negotiation_error_bytes_fail_and_keep_the_pdu_length() {
    let failure = Err(Error::Response { code: 0x0010_0000 });
    for (high, low) in [(1u8, 0u8), (0, 1), (0x81, 0x04)] {
        let mut options = negotiating();
        let mut reply = negotiation_reply(240);
        reply[17] = high;
        reply[18] = low;
        assert_eq!(options.accept_negotiation(&reply), failure);
        assert_eq!(options.pdu_length(), 0);

        assert_eq!(options.accept_negotiation(&negotiation_reply(480)), Ok(()));
        assert_eq!(options.accept_negotiation(&reply), failure);
        assert_eq!(options.pdu_length(), 480);
    }
}

#[test]
fn negotiation_reply_of_another_length_fails_and_keeps_the_pdu_length() {
    let failure = Err(Error::Response { code: 0x0010_0000 });
    for len in [0usize, 18, 25, 26, 28, 100] {
        let mut reply = negotiation_reply(240);
        reply.resize(len, 0);
        let mut options = negotiating();
        assert_eq!(options.accept_negotiation(&reply), failure);
        assert_eq!(options.pdu_length(), 0);

        assert_eq!(options.accept_negotiation(&negotiation_reply(222)), Ok(()));
        assert_eq!(options.accept_negotiation(&reply), failure);
        assert_eq!(options.pdu_length(), 222);
    }
}

#[test]
fn negotiated_pdu_length_of_zero_fails() {
    let mut options = negotiating();
    assert_eq!(options.accept_negotiation(&negotiation_reply(480)), Ok(()));
    assert_eq!(
        options.accept_negotiation(&negotiation_reply(0)),
        Err(Error::Response { code: 0x0010_0000 })
    );
    assert_eq!(options.pdu_length(), 0);
}

fn frame(length: u16, fill: u8) -> Vec<u8> {
    let mut frame = vec![fill; length as usize];
    frame[0] = 3;
    frame[1] = 0;
    frame[2] = (length >> 8) as u8;
    frame[3] = length as u8;
    frame
}

/// Feeds the receiver from a byte stream, piece by piece as it asks.
fn receive(stream: &[u8]) -> Result<(Vec<u8>, u8, usize), Error> {
    let mut receiver = Receiver::new();
    let mut at = 0;
    let mut pdu_type = 0;
    while !receiver.is_complete() {
        let wanted = receiver.wanted();
        receiver.accept(&stream[at..at + wanted])?;
        at += wanted;
        if receiver.phase == Phase::Payload {
            pdu_type = receiver.pdu_type();
        }
    }
    Ok((receiver.into_frame(), pdu_type, at))
}

#[test]
fn receiver_asks_for_header_cotp_and_payload() {
    let sent = frame(27, 0x5A);
    let mut receiver = Receiver::new();
    assert_eq!(receiver.phase, Phase::Header);
    assert_eq!(receiver.wanted(), 4);
    assert_eq!(receiver.accept(&sent[..4]), Ok(()));
    assert_eq!(receiver.phase, Phase::Cotp);
    assert_eq!(receiver.wanted(), 3);
    assert_eq!(receiver.accept(&sent[4..7]), Ok(()));
    assert_eq!(receiver.phase, Phase::Payload);
    assert_eq!(receiver.pdu_type(), 0x5A);
    assert_eq!(receiver.wanted(), 20);
    assert!(!receiver.is_complete());
    assert_eq!(receiver.accept(&sent[7..]), Ok(()));
    assert!(receiver.is_complete());
    assert_eq!(receiver.wanted(), 0);
    assert_eq!(receiver.accept(&[]), Ok(()));
    assert_eq!(receiver.into_frame(), sent);
}

#[test]
fn received_frame_is_the_sent_frame() {
    for length in [16u16, 22, 27, 256, 487] {
        let mut sent = frame(length, 0x11);
        sent[5] = 0xD0;
        let mut stream = sent.clone();
        stream.extend_from_slice(&[0xEE; 9]);
        assert_eq!(receive(&stream), Ok((sent, 0xD0, length as usize)));
    }
}

#[test]
fn frames_without_payload_are_skipped() {
    let mut stream = frame(7, 0xF0);
    stream.extend_from_slice(&frame(7, 0xF1));
    let sent = frame(25, 0x32);
    stream.extend_from_slice(&sent);
    assert_eq!(receive(&stream), Ok((sent, 0x32, 39)));

    let mut receiver = Receiver::new();
    assert_eq!(receiver.accept(&[3, 0, 0, 7]), Ok(()));
    assert_eq!(receiver.phase, Phase::Fragment);
    assert_eq!(receiver.wanted(), 3);
    assert_eq!(receiver.accept(&[2, 0xF0, 0x80]), Ok(()));
    assert_eq!(receiver.phase, Phase::Header);
    assert!(receiver.frame.is_empty());
}

#[test]
fn frame_length_outside_the_bounds_is_refused() {
    for length in [0u16, 1, 6, 8, 15, 488, 489, 2084, 0xFFFF] {
        let mut receiver = Receiver::new();
        let header = [3, 0, (length >> 8) as u8, length as u8];
        assert_eq!(receiver.accept(&header), Err(Error::PduLength(length)));
        assert_eq!(receiver.phase, Phase::Header);
        assert!(receiver.frame.is_empty());
    }
    for length in [16u16, 487] {
        let mut receiver = Receiver::new();
        let header = [3, 0, (length >> 8) as u8, length as u8];
        assert_eq!(receiver.accept(&header), Ok(()));
        assert_eq!(receiver.phase, Phase::Cotp);
    }
}

#[test]
fn handshake_requests_state_their_own_length() {
    let options = negotiating();
    for request in [
        options.iso_connection_request(),
        Options::pdu_negotiation_request(),
    ] {
        assert_eq!(&request[..2], &[3, 0]);
        let stated = ((request[2] as usize) << 8) + request[3] as usize;
        assert_eq!(stated, request.len());
    }
}
