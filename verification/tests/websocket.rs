use std::time::Duration;

use actix_codec::Encoder;
use actix_http::ws::{Item, Message, ProtocolError};
use actix_send::websocket::{
    closes_channel, encode_idle, on_decoded, DecodeOutcome, EncodeIdle, FrameCodec, FrameKind,
    HeartBeat, TimerAction, WsConfig, WsMessage, WsProtocolError,
};
use actix_web::web::{Bytes, BytesMut};

#[test]
fn ws_config_defaults_and_setters() {
    let c = WsConfig::new();
    assert!(c.get_codec().is_none());
    assert!(c.get_protocols().is_none());
    assert_eq!(c.heartbeat_timer(), (Some(Duration::from_secs(5)), Duration::from_secs(5)));
    assert!(!c.get_server_send_heartbeat());
    assert_eq!(c.get_timeout(), Duration::from_secs(10));

    let c = WsConfig::default()
        .disable_heartbeat()
        .timeout(Duration::from_secs(1))
        .protocols(vec!["graphql".to_string()])
        .enable_server_send_heartbeat();
    assert_eq!(c.heartbeat_timer(), (None, Duration::from_secs(1)));
    assert_eq!(c.get_timeout(), Duration::from_secs(1));
    assert_eq!(c.get_protocols().as_ref().unwrap()[0], "graphql");
    assert!(c.get_server_send_heartbeat());

    let c = WsConfig::new().heartbeat(Duration::from_millis(500));
    assert_eq!(
        c.heartbeat_timer(),
        (Some(Duration::from_millis(500)), Duration::from_millis(500))
    );
}

#[test]
fn heartbeat_closes_silent_clients() {
    // 500 ms checks, 1 s timeout, started at time 0.
    let mut hb = HeartBeat::new(500, 1000, false, 0);
    assert_eq!(
        hb.on_timer(500),
        TimerAction::Reschedule { next: 1000, send_ping: false }
    );
    assert_eq!(hb.on_timer(1000), TimerAction::Close);
    hb.update(900);
    assert_eq!(hb.deadline, 1900);
    assert_eq!(
        hb.on_timer(1000),
        TimerAction::Reschedule { next: 1500, send_ping: false }
    );
    let hb = HeartBeat::new(5, 10, true, 3);
    assert_eq!(hb.on_timer(5), TimerAction::Reschedule { next: 10, send_ping: true });
}

#[test]
fn frames_and_encoding() {
    assert!(closes_channel(FrameKind::Close));
    assert!(!closes_channel(FrameKind::Text));
    assert_eq!(encode_idle(false, false), EncodeIdle::Flush { wake: false });
    assert_eq!(encode_idle(false, true), EncodeIdle::Flush { wake: true });
    assert_eq!(encode_idle(true, false), EncodeIdle::Wait);
    assert_eq!(encode_idle(true, true), EncodeIdle::End);
}

// The masked "Hello" text frame of RFC 6455, section 5.7.
const MASKED_HELLO: [u8; 11] = [0x81, 0x85, 0x37, 0xfa, 0x21, 0x3d, 0x7f, 0x9f, 0x4d, 0x51, 0x58];

#[test]
fn codec_settings() {
    let c = FrameCodec::new();
    assert!(WsConfig::new().codec(c.clone()).get_codec().is_some());
    let c = c.max_size(5).client_mode();
    // An unmasked frame is what a client codec expects from a server.
    let mut buf = BytesMut::from(&[0x82u8, 0x03, 1, 2, 3][..]);
    let mut c2 = c.clone();
    assert!(matches!(c2.decode(&mut buf), DecodeOutcome::Binary(b) if b == Bytes::from_static(&[1, 2, 3])));
    // A frame over the maximum size is refused.
    let mut buf = BytesMut::from(&[0x82u8, 0x06, 1, 2, 3, 4, 5, 6][..]);
    let mut c3 = c;
    assert!(matches!(c3.decode(&mut buf), DecodeOutcome::Failed(ProtocolError::Overflow)));
}

#[test]
fn decodes_a_masked_text_frame() {
    let mut codec = FrameCodec::new();
    let mut buf = BytesMut::from(&MASKED_HELLO[..]);
    buf.extend_from_slice(&[0x89, 0x80]);
    let d = codec.decode(&mut buf);
    assert!(matches!(&d, DecodeOutcome::Text(b) if b == &Bytes::from_static(b"Hello")));
    // The next frame is not complete yet and stays in the buffer.
    assert_eq!(&buf[..], &[0x89, 0x80]);
    let mut hb = HeartBeat::new(500, 1000, false, 0);
    let msg = on_decoded(&mut hb, 200, d);
    assert!(matches!(msg, Some(Ok(WsMessage::Text(t))) if t == "Hello"));
    assert_eq!(hb.deadline, 1000);

    let mut rest = BytesMut::from(&[0x89u8, 0x80][..]);
    assert!(matches!(codec.decode(&mut rest), DecodeOutcome::Incomplete));
    assert_eq!(rest.len(), 2);
}

#[test]
fn pings_and_pongs_refresh_the_heartbeat() {
    let mut codec = FrameCodec::new();
    let mut buf = BytesMut::from(&[0x89u8, 0x80, 0, 0, 0, 0, 0x8a, 0x80, 0, 0, 0, 0][..]);
    let mut hb = HeartBeat::new(500, 1000, false, 0);

    let d = codec.decode(&mut buf);
    assert!(d.refreshes_heartbeat());
    let msg = on_decoded(&mut hb, 700, d);
    assert!(matches!(msg, Some(Ok(WsMessage::Ping(b))) if b.is_empty()));
    assert_eq!(hb.deadline, 1700);

    let d = codec.decode(&mut buf);
    let msg = on_decoded(&mut hb, 900, d);
    assert!(matches!(msg, Some(Ok(WsMessage::Pong(_)))));
    assert_eq!(hb.deadline, 1900);
    assert!(buf.is_empty());
}

#[test]
fn protocol_errors_and_invalid_text() {
    let mut codec = FrameCodec::new();
    // A server refuses unmasked frames.
    let mut buf = BytesMut::from(&[0x81u8, 0x01, b'a'][..]);
    let d = codec.decode(&mut buf);
    let mut hb = HeartBeat::new(500, 1000, false, 0);
    assert!(matches!(
        on_decoded(&mut hb, 10, d),
        Some(Err(WsProtocolError::Protocol(ProtocolError::UnmaskedFrame)))
    ));
    assert_eq!(hb.deadline, 1000);

    // A text frame whose payload is not UTF-8.
    let mut buf = BytesMut::from(&[0x81u8, 0x81, 0, 0, 0, 0, 0xff][..]);
    let d = codec.decode(&mut buf);
    assert!(matches!(
        on_decoded(&mut hb, 10, d),
        Some(Err(WsProtocolError::InvalidText(_)))
    ));

    // Binary frames and close frames pass as they are.
    let d = DecodeOutcome::Binary(Bytes::from_static(&[0xff]));
    assert!(matches!(on_decoded(&mut hb, 10, d), Some(Ok(WsMessage::Binary(b))) if b[..] == [0xff]));
    assert!(matches!(on_decoded(&mut hb, 10, DecodeOutcome::Close(None)), Some(Ok(WsMessage::Close(None)))));
    assert!(on_decoded(&mut hb, 10, DecodeOutcome::Incomplete).is_none());
}

#[test]
fn fragmented_messages() {
    let mut codec = FrameCodec::new();
    // A first text fragment, a second first fragment, a middle and a last one.
    let mut buf = BytesMut::from(
        &[
            0x01u8, 0x81, 0, 0, 0, 0, b'a', 0x01, 0x81, 0, 0, 0, 0, b'b', 0x00, 0x81, 0, 0, 0, 0,
            b'c', 0x80, 0x81, 0, 0, 0, 0, b'd', 0x80, 0x81, 0, 0, 0, 0, b'e',
        ][..],
    );
    assert!(matches!(codec.decode(&mut buf), DecodeOutcome::Continuation(Item::FirstText(b)) if &b[..] == b"a"));
    assert!(matches!(
        codec.decode(&mut buf),
        DecodeOutcome::Failed(ProtocolError::ContinuationStarted)
    ));
    assert!(matches!(codec.decode(&mut buf), DecodeOutcome::Continuation(Item::Continue(b)) if &b[..] == b"c"));
    let d = codec.decode(&mut buf);
    assert!(matches!(&d, DecodeOutcome::Continuation(Item::Last(b)) if &b[..] == b"d"));
    let mut hb = HeartBeat::new(500, 1000, false, 0);
    assert!(matches!(on_decoded(&mut hb, 1, d), Some(Ok(WsMessage::Continuation(Item::Last(_))))));
    // With the message ended, another last fragment has nothing to end.
    assert!(matches!(
        codec.decode(&mut buf),
        DecodeOutcome::Failed(ProtocolError::ContinuationNotStarted)
    ));
}

#[test]
fn the_encoder_gets_the_codecs_mode() {
    // A client masks what it sends; a server does not.
    let mut client = FrameCodec::new().client_mode().codec();
    let mut out = BytesMut::new();
    client.encode(Message::Text("a".into()), &mut out).unwrap();
    assert_ne!(out[1] & 0x80, 0);

    let mut server = FrameCodec::new().codec();
    let mut out = BytesMut::new();
    server.encode(Message::Text("a".into()), &mut out).unwrap();
    assert_eq!(out[1] & 0x80, 0);
    assert_eq!(FrameCodec::new().max_size(5).get_max_size(), 5);
}
