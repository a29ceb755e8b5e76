use vstd::prelude::*;
use vstd::utf8::{decode_utf8, valid_utf8};

use actix_codec::Decoder;
use actix_http::ws::{CloseReason, Codec, Frame, Item, ProtocolError};
use actix_web::web::{Bytes, BytesMut};
use bytestring::ByteString;
use core::str::Utf8Error;
use core::time::Duration;

use crate::builder::{duration_from_secs, secs};

verus! {

/// The websocket protocol codec of `actix-http`.
#[verifier::external_type_specification]
#[verifier::external_body]
pub struct ExCodec(Codec);

/// A websocket protocol error of `actix-http`.
#[verifier::external_type_specification]
#[verifier::external_body]
pub struct ExProtocolError(ProtocolError);

/// The reason given with a close frame.
#[verifier::external_type_specification]
#[verifier::external_body]
pub struct ExCloseReason(CloseReason);

/// One fragment of a fragmented websocket message.
#[verifier::external_type_specification]
#[verifier::external_body]
pub struct ExItem(Item);

/// An immutable byte buffer.
#[verifier::external_type_specification]
#[verifier::external_body]
pub struct ExBytes(Bytes);

/// A growable byte buffer.
#[verifier::external_type_specification]
#[verifier::external_body]
pub struct ExBytesMut(BytesMut);

/// Why a byte sequence is not UTF-8.
#[verifier::external_type_specification]
#[verifier::external_body]
pub struct ExUtf8Error(Utf8Error);

/// What a `Codec` holds that decoding reads: whether it is in server mode,
/// its maximum frame size, and whether a fragmented message has been started
/// (its private `SERVER` and `CONTINUATION` flags and `max_size`).
pub uninterp spec fn codec_state(c: Codec) -> (bool, usize, bool);

/// The derived `Clone` of `Codec`: the copy holds the same state.
pub assume_specification[ <Codec as Clone>::clone ](c: &Codec) -> (r: Codec)
    ensures
        codec_state(r) == codec_state(*c),
;

/// `Codec::new`: a codec in server mode with the default maximum frame size
/// of 64 KiB, with no fragmented message started.
pub assume_specification[ Codec::new ]() -> (r: Codec)
    ensures
        codec_state(r) == (true, 65536usize, false),
;

/// `Codec::max_size`: the codec with another maximum frame size, the rest kept.
pub assume_specification[ Codec::max_size ](c: Codec, size: usize) -> (r: Codec)
    ensures
        codec_state(r) == (codec_state(c).0, size, codec_state(c).2),
;

/// `Codec::client_mode`: the codec in client mode, the rest kept.
pub assume_specification[ Codec::client_mode ](c: Codec) -> (r: Codec)
    ensures
        codec_state(r) == (false, codec_state(c).1, codec_state(c).2),
;

/// The bytes that a `Bytes` holds.
pub uninterp spec fn payload_bytes(b: Bytes) -> Seq<u8>;

/// The bytes that a read buffer holds.
pub uninterp spec fn buffer_bytes(b: BytesMut) -> Seq<u8>;

/// What `ByteString::try_from` reports of a payload that is not UTF-8.
pub uninterp spec fn utf8_error(bytes: Seq<u8>) -> Utf8Error;

/// What `Codec::decode` gives for a codec in server mode or not, with the given
/// maximum frame size and with a fragmented message started or not, on a
/// buffer holding `buf`: the outcome, what stays in the buffer, and whether a
/// fragmented message is started afterwards.
pub uninterp spec fn ws_decoded(server: bool, max_size: usize, continuation: bool, buf: Seq<u8>) -> (
    DecodeOutcome,
    Seq<u8>,
    bool,
);

/// What decoding the front of the read buffer gave.
#[derive(Debug)]
pub enum DecodeOutcome {
    /// The buffer does not hold a whole frame yet.
    Incomplete,
    /// The bytes break the websocket protocol.
    Failed(ProtocolError),
    /// A text frame; its payload is not checked to be UTF-8.
    Text(Bytes),
    Binary(Bytes),
    Continuation(Item),
    Ping(Bytes),
    Pong(Bytes),
    Close(Option<CloseReason>),
}

impl DecodeOutcome {
    /// Whether the frame proves the client alive: pings and pongs do.
    pub fn refreshes_heartbeat(&self) -> (r: bool)
        ensures
            r == (self is Ping || self is Pong),
    {
        match self {
            DecodeOutcome::Ping(_) | DecodeOutcome::Pong(_) => true,
            _ => false,
        }
    }
}

/// A message from the client.
#[derive(Debug)]
pub enum WsMessage {
    Text(String),
    Binary(Bytes),
    Continuation(Item),
    Ping(Bytes),
    Pong(Bytes),
    Close(Option<CloseReason>),
}

/// Why no message could be read from the client.
#[derive(Debug)]
pub enum WsProtocolError {
    /// The bytes break the websocket protocol.
    Protocol(ProtocolError),
    /// A text frame whose payload is not UTF-8.
    InvalidText(Utf8Error),
}

/// The websocket codec that decodes the client's frames; its settings are
/// those of the `Codec` it holds, whose maximum frame size it keeps beside it
/// to be read.
pub struct FrameCodec {
    codec: Codec,
    max_size: usize,
}

/// Calls `Decoder::decode` of `codec` on `buf`; the result is named, and the
/// codec keeps its mode and maximum frame size. The bound on the maximum frame
/// size keeps the room that the codec reserves for an announced frame within
/// what an allocation may request.
#[verifier::external_body]
fn decode_frame(codec: &mut Codec, buf: &mut BytesMut) -> (r: DecodeOutcome)
    requires
        codec_state(*old(codec)).1 <= (isize::MAX as usize) / 8,
    ensures
        ({
            let (server, max_size, continuation) = codec_state(*old(codec));
            let (outcome, rest, started) = ws_decoded(
                server,
                max_size,
                continuation,
                buffer_bytes(*old(buf)),
            );
            &&& r == outcome
            &&& buffer_bytes(*final(buf)) == rest
            &&& codec_state(*final(codec)) == (server, max_size, started)
        }),
{
    match codec.decode(buf) {
        Ok(None) => DecodeOutcome::Incomplete,
        Err(e) => DecodeOutcome::Failed(e),
        Ok(Some(Frame::Text(b))) => DecodeOutcome::Text(b),
        Ok(Some(Frame::Binary(b))) => DecodeOutcome::Binary(b),
        Ok(Some(Frame::Continuation(i))) => DecodeOutcome::Continuation(i),
        Ok(Some(Frame::Ping(b))) => DecodeOutcome::Ping(b),
        Ok(Some(Frame::Pong(b))) => DecodeOutcome::Pong(b),
        Ok(Some(Frame::Close(c))) => DecodeOutcome::Close(c),
    }
}

/// Calls `ByteString::try_from` on a text payload: it succeeds exactly when
/// the payload is UTF-8, and the text then holds the characters that the
/// payload encodes.
#[verifier::external_body]
fn text_of(data: Bytes) -> (r: Result<String, Utf8Error>)
    ensures
        r is Ok <==> valid_utf8(payload_bytes(data)),
        r matches Ok(s) ==> s@ == decode_utf8(payload_bytes(data)),
        r matches Err(e) ==> e == utf8_error(payload_bytes(data)),
{
    match ByteString::try_from(data) {
        Ok(s) => Ok(s.to_string()),
        Err(e) => Err(e),
    }
}

impl FrameCodec {
    /// The size kept beside the codec is the codec's own.
    #[verifier::type_invariant]
    closed spec fn inv(&self) -> bool {
        codec_state(self.codec).1 == self.max_size
    }

    /// The maximum frame sizes that decoding accepts: the room that the codec
    /// reserves for an announced frame then stays within what an allocation
    /// may request.
    pub open spec fn decodable(&self) -> bool {
        self.spec_max_size() <= (isize::MAX as usize) / 8
    }

    pub closed spec fn spec_server(&self) -> bool {
        codec_state(self.codec).0
    }

    pub closed spec fn spec_max_size(&self) -> usize {
        codec_state(self.codec).1
    }

    pub closed spec fn spec_continuation(&self) -> bool {
        codec_state(self.codec).2
    }

    /// A codec in server mode with the default maximum frame size of 64 KiB.
    pub fn new() -> (c: Self)
        ensures
            c.spec_server(),
            c.spec_max_size() == 65536,
            !c.spec_continuation(),
    {
        FrameCodec { codec: Codec::new(), max_size: 65536 }
    }

    /// Set the maximum frame size.
    pub fn max_size(self, size: usize) -> (c: Self)
        ensures
            c.spec_server() == self.spec_server(),
            c.spec_max_size() == size,
            c.spec_continuation() == self.spec_continuation(),
    {
        FrameCodec { codec: Codec::max_size(self.codec, size), max_size: size }
    }

    /// Set the codec to client mode.
    pub fn client_mode(self) -> (c: Self)
        ensures
            !c.spec_server(),
            c.spec_max_size() == self.spec_max_size(),
            c.spec_continuation() == self.spec_continuation(),
    {
        proof {
            use_type_invariant(&self);
        }
        FrameCodec { codec: Codec::client_mode(self.codec), max_size: self.max_size }
    }

    /// The maximum frame size.
    pub fn get_max_size(&self) -> (r: usize)
        ensures
            r == self.spec_max_size(),
    {
        proof {
            use_type_invariant(self);
        }
        self.max_size
    }

    /// A copy of the `Codec`, with the same settings, for encoding messages to
    /// the client.
    pub fn codec(&self) -> (c: Codec)
        ensures
            codec_state(c) == (self.spec_server(), self.spec_max_size(), self.spec_continuation()),
    {
        self.codec.clone()
    }

    /// Decodes the next frame from the front of the read buffer.
    pub fn decode(&mut self, buf: &mut BytesMut) -> (r: DecodeOutcome)
        requires
            old(self).decodable(),
        ensures
            (r, buffer_bytes(*final(buf)), final(self).spec_continuation()) == ws_decoded(
                old(self).spec_server(),
                old(self).spec_max_size(),
                old(self).spec_continuation(),
                buffer_bytes(*old(buf)),
            ),
            final(self).spec_server() == old(self).spec_server(),
            final(self).spec_max_size() == old(self).spec_max_size(),
    {
        proof {
            use_type_invariant(&*self);
        }
        // The codec is small; decoding a copy keeps the invariant of `self`
        // whole while the decoder runs.
        let mut codec = self.codec.clone();
        let r = decode_frame(&mut codec, buf);
        self.codec = codec;
        r
    }
}

/// Settings of a websocket: codec, known subprotocols, heartbeat check
/// interval (none: no check), whether the server sends pings itself, and how
/// long a client may stay silent.
#[derive(Clone)]
pub struct WsConfig {
    codec: Option<FrameCodec>,
    protocols: Option<Vec<String>>,
    heartbeat: Option<Duration>,
    server_send_heartbeat: bool,
    timeout: Duration,
}

impl WsConfig {
    pub closed spec fn spec_codec(&self) -> Option<FrameCodec> {
        self.codec
    }

    pub closed spec fn spec_protocols(&self) -> Option<Vec<String>> {
        self.protocols
    }

    pub closed spec fn spec_heartbeat(&self) -> Option<Duration> {
        self.heartbeat
    }

    pub closed spec fn spec_server_send_heartbeat(&self) -> bool {
        self.server_send_heartbeat
    }

    pub closed spec fn spec_timeout(&self) -> Duration {
        self.timeout
    }

    /// The settings where nothing was changed: default codec, no subprotocols,
    /// a heartbeat check every 5 seconds, no pings from the server, 10 seconds
    /// of allowed silence.
    pub open spec fn is_default(&self) -> bool {
        &&& self.spec_codec() is None
        &&& self.spec_protocols() is None
        &&& self.spec_heartbeat() == Some(duration_from_secs(5))
        &&& !self.spec_server_send_heartbeat()
        &&& self.spec_timeout() == duration_from_secs(10)
    }

    /// The default settings.
    pub fn new() -> (c: Self)
        ensures
            c.is_default(),
    {
        WsConfig {
            codec: None,
            protocols: None,
            heartbeat: Some(secs(5)),
            server_send_heartbeat: false,
            timeout: secs(10),
        }
    }

    /// Set the websocket protocol codec.
    pub fn codec(self, codec: FrameCodec) -> (c: Self)
        ensures
            c.spec_codec() == Some(codec),
            c.spec_protocols() == self.spec_protocols(),
            c.spec_heartbeat() == self.spec_heartbeat(),
            c.spec_server_send_heartbeat() == self.spec_server_send_heartbeat(),
            c.spec_timeout() == self.spec_timeout(),
    {
        let mut this = self;
        this.codec = Some(codec);
        this
    }

    /// Set the subprotocols that the server knows, in order of preference of
    /// the client's list.
    pub fn protocols(self, protocols: Vec<String>) -> (c: Self)
        ensures
            c.spec_codec() == self.spec_codec(),
            c.spec_protocols() == Some(protocols),
            c.spec_heartbeat() == self.spec_heartbeat(),
            c.spec_server_send_heartbeat() == self.spec_server_send_heartbeat(),
            c.spec_timeout() == self.spec_timeout(),
    {
        let mut this = self;
        this.protocols = Some(protocols);
        this
    }

    /// Set the heartbeat check interval.
    pub fn heartbeat(self, dur: Duration) -> (c: Self)
        ensures
            c.spec_codec() == self.spec_codec(),
            c.spec_protocols() == self.spec_protocols(),
            c.spec_heartbeat() == Some(dur),
            c.spec_server_send_heartbeat() == self.spec_server_send_heartbeat(),
            c.spec_timeout() == self.spec_timeout(),
    {
        let mut this = self;
        this.heartbeat = Some(dur);
        this
    }

    /// Set how long a client may stay without sending a ping.
    pub fn timeout(self, dur: Duration) -> (c: Self)
        ensures
            c.spec_codec() == self.spec_codec(),
            c.spec_protocols() == self.spec_protocols(),
            c.spec_heartbeat() == self.spec_heartbeat(),
            c.spec_server_send_heartbeat() == self.spec_server_send_heartbeat(),
            c.spec_timeout() == dur,
    {
        let mut this = self;
        this.timeout = dur;
        this
    }

    /// Disable the heartbeat check.
    pub fn disable_heartbeat(self) -> (c: Self)
        ensures
            c.spec_codec() == self.spec_codec(),
            c.spec_protocols() == self.spec_protocols(),
            c.spec_heartbeat() is None,
            c.spec_server_send_heartbeat() == self.spec_server_send_heartbeat(),
            c.spec_timeout() == self.spec_timeout(),
    {
        let mut this = self;
        this.heartbeat = None;
        this
    }

    /// Let the server send pings to the client.
    pub fn enable_server_send_heartbeat(self) -> (c: Self)
        ensures
            c.spec_codec() == self.spec_codec(),
            c.spec_protocols() == self.spec_protocols(),
            c.spec_heartbeat() == self.spec_heartbeat(),
            c.spec_server_send_heartbeat(),
            c.spec_timeout() == self.spec_timeout(),
    {
        let mut this = self;
        this.server_send_heartbeat = true;
        this
    }

    /// The codec set, if any.
    pub fn get_codec(&self) -> (r: &Option<FrameCodec>)
        ensures
            *r == self.spec_codec(),
    {
        &self.codec
    }

    /// The subprotocols set, if any.
    pub fn get_protocols(&self) -> (r: &Option<Vec<String>>)
        ensures
            *r == self.spec_protocols(),
    {
        &self.protocols
    }

    /// Whether the server sends pings itself.
    pub fn get_server_send_heartbeat(&self) -> (r: bool)
        ensures
            r == self.spec_server_send_heartbeat(),
    {
        self.server_send_heartbeat
    }

    /// How long a client may stay silent.
    pub fn get_timeout(&self) -> (r: Duration)
        ensures
            r == self.spec_timeout(),
    {
        self.timeout
    }

    /// The heartbeat timer of a new stream: the delay of its first tick (none
    /// when the check is disabled) and the interval between ticks, which is
    /// one second when the check is disabled.
    pub fn heartbeat_timer(&self) -> (r: (Option<Duration>, Duration))
        ensures
            r.0 == self.spec_heartbeat(),
            r.1 == match self.spec_heartbeat() {
                Some(d) => d,
                None => duration_from_secs(1),
            },
    {
        match self.heartbeat {
            Some(dur) => (Some(dur), dur),
            None => (None, secs(1)),
        }
    }
}

impl Clone for FrameCodec {
    /// A codec with the same settings; the `Codec` held is a clone.
    fn clone(&self) -> (c: Self)
        ensures
            c.spec_server() == self.spec_server(),
            c.spec_max_size() == self.spec_max_size(),
            c.spec_continuation() == self.spec_continuation(),
    {
        proof {
            use_type_invariant(self);
        }
        FrameCodec { codec: self.codec.clone(), max_size: self.max_size }
    }
}

impl Default for WsConfig {
    fn default() -> (c: Self)
        ensures
            c.is_default(),
    {
        WsConfig::new()
    }
}

/// What the heartbeat timer does when it fires.
#[derive(Clone, Copy, PartialEq, Eq, Structural, Debug)]
pub enum TimerAction {
    /// The client is alive: fire again at `next`, and send a ping when asked to.
    Reschedule { next: u128, send_ping: bool },
    /// The client stayed silent past its deadline: close the connection.
    Close,
}

/// The heartbeat of a websocket stream. Points in time and durations are
/// nanoseconds on one clock of the caller's choice.
#[derive(Clone, Copy, PartialEq, Eq, Structural, Debug)]
pub struct HeartBeat {
    pub server_send_heartbeat: bool,
    pub interval: u128,
    pub timeout: u128,
    pub deadline: u128,
}

/// The heartbeat after the client was heard of at time `now`.
pub open spec fn updated(hb: HeartBeat, now: u128) -> HeartBeat {
    HeartBeat { deadline: (now + hb.timeout) as u128, ..hb }
}

/// What the timer does when it fires at `fired_at`: past the client's deadline
/// the connection closes, else the timer fires again one interval later.
pub open spec fn timer_action(hb: HeartBeat, fired_at: u128) -> TimerAction {
    if fired_at >= hb.deadline {
        TimerAction::Close
    } else {
        TimerAction::Reschedule {
            next: (fired_at + hb.interval) as u128,
            send_ping: hb.server_send_heartbeat,
        }
    }
}

impl HeartBeat {
    /// A heartbeat at time `now`: the client must be heard of within `timeout`.
    pub fn new(interval: u128, timeout: u128, server_send_heartbeat: bool, now: u128) -> (hb: Self)
        requires
            now + timeout <= u128::MAX,
        ensures
            hb == (HeartBeat { server_send_heartbeat, interval, timeout, deadline: (now + timeout) as u128 }),
    {
        HeartBeat { server_send_heartbeat, interval, timeout, deadline: now + timeout }
    }

    /// The client was heard of at time `now`: its deadline moves to `now + timeout`.
    pub fn update(&mut self, now: u128)
        requires
            now + old(self).timeout <= u128::MAX,
        ensures
            *final(self) == updated(*old(self), now),
    {
        self.deadline = now + self.timeout;
    }

    /// The timer fired at its deadline `fired_at`: past the client's deadline
    /// the connection closes, else the timer fires again one interval later.
    pub fn on_timer(&self, fired_at: u128) -> (a: TimerAction)
        requires
            fired_at < self.deadline ==> fired_at + self.interval <= u128::MAX,
        ensures
            a == timer_action(*self, fired_at),
    {
        if fired_at >= self.deadline {
            TimerAction::Close
        } else {
            TimerAction::Reschedule {
                next: fired_at + self.interval,
                send_ping: self.server_send_heartbeat,
            }
        }
    }
}

/// The kinds of websocket frames.
#[derive(Clone, Copy, PartialEq, Eq, Structural, Debug)]
pub enum FrameKind {
    Text,
    Binary,
    Continuation,
    Ping,
    Pong,
    Close,
}

/// What the encoding side does when no further message is ready.
#[derive(Clone, Copy, PartialEq, Eq, Structural, Debug)]
pub enum EncodeIdle {
    /// Hand out the encoded bytes; `wake` asks to be polled again at once to
    /// end the stream.
    Flush { wake: bool },
    /// Wait for more messages.
    Wait,
    /// The stream is over.
    End,
}

/// The encoding side ran out of ready messages: with bytes buffered it hands
/// them out (and, when the channel is closed, asks to be polled again to end);
/// without, it waits for more, or ends once the channel is closed.
pub fn encode_idle(buffer_empty: bool, channel_closed: bool) -> (r: EncodeIdle)
    ensures
        !buffer_empty ==> r == (EncodeIdle::Flush { wake: channel_closed }),
        buffer_empty && !channel_closed ==> r == EncodeIdle::Wait,
        buffer_empty && channel_closed ==> r == EncodeIdle::End,
{
    if !buffer_empty {
        EncodeIdle::Flush { wake: channel_closed }
    } else if channel_closed {
        EncodeIdle::End
    } else {
        EncodeIdle::Wait
    }
}

/// A message to encode closes the channel when it is a close frame.
pub fn closes_channel(kind: FrameKind) -> (r: bool)
    ensures
        r == (kind == FrameKind::Close),
{
    match kind {
        FrameKind::Close => true,
        _ => false,
    }
}

/// The heartbeat after a decoded frame that arrived at `now`: pings and pongs
/// move the client's deadline, other frames leave it.
pub open spec fn heartbeat_after(hb: HeartBeat, now: u128, d: DecodeOutcome) -> HeartBeat {
    if d is Ping || d is Pong {
        updated(hb, now)
    } else {
        hb
    }
}

/// The answer to a decoded frame: nothing while the frame is incomplete, the
/// protocol error of a failed decoding, a text message exactly when a text
/// payload is UTF-8 (else the UTF-8 error of that payload), and every other frame as the
/// message of the same kind with the same content.
pub open spec fn decoded_message(d: DecodeOutcome, r: Option<Result<WsMessage, WsProtocolError>>) -> bool {
    match d {
        DecodeOutcome::Incomplete => r is None,
        DecodeOutcome::Failed(e) => r == Some(
            Err::<WsMessage, WsProtocolError>(WsProtocolError::Protocol(e)),
        ),
        DecodeOutcome::Text(b) => if valid_utf8(payload_bytes(b)) {
            r matches Some(Ok(WsMessage::Text(s))) && s@ == decode_utf8(payload_bytes(b))
        } else {
            r matches Some(Err(WsProtocolError::InvalidText(e))) && e == utf8_error(payload_bytes(b))
        },
        DecodeOutcome::Binary(b) => r == Some(Ok::<WsMessage, WsProtocolError>(WsMessage::Binary(b))),
        DecodeOutcome::Continuation(i) => r == Some(
            Ok::<WsMessage, WsProtocolError>(WsMessage::Continuation(i)),
        ),
        DecodeOutcome::Ping(b) => r == Some(Ok::<WsMessage, WsProtocolError>(WsMessage::Ping(b))),
        DecodeOutcome::Pong(b) => r == Some(Ok::<WsMessage, WsProtocolError>(WsMessage::Pong(b))),
        DecodeOutcome::Close(c) => r == Some(Ok::<WsMessage, WsProtocolError>(WsMessage::Close(c))),
    }
}

/// Turns a decoded frame that arrived at time `now` into the message for the
/// user of the stream, and keeps the heartbeat: pings and pongs move the
/// client's deadline to `now + timeout`.
pub fn on_decoded(hb: &mut HeartBeat, now: u128, d: DecodeOutcome) -> (r: Option<
    Result<WsMessage, WsProtocolError>,
>)
    requires
        (d is Ping || d is Pong) ==> now + old(hb).timeout <= u128::MAX,
    ensures
        *final(hb) == heartbeat_after(*old(hb), now, d),
        decoded_message(d, r),
{
    match d {
        DecodeOutcome::Incomplete => None,
        DecodeOutcome::Failed(e) => Some(Err(WsProtocolError::Protocol(e))),
        DecodeOutcome::Text(b) => match text_of(b) {
            Ok(s) => Some(Ok(WsMessage::Text(s))),
            Err(e) => Some(Err(WsProtocolError::InvalidText(e))),
        },
        DecodeOutcome::Binary(b) => Some(Ok(WsMessage::Binary(b))),
        DecodeOutcome::Continuation(i) => Some(Ok(WsMessage::Continuation(i))),
        DecodeOutcome::Ping(b) => {
            hb.update(now);
            Some(Ok(WsMessage::Ping(b)))
        },
        DecodeOutcome::Pong(b) => {
            hb.update(now);
            Some(Ok(WsMessage::Pong(b)))
        },
        DecodeOutcome::Close(c) => Some(Ok(WsMessage::Close(c))),
    }
}

/// A ping or pong decoded at `now` keeps the connection through every timer
/// tick before `now + timeout`.
pub proof fn law_decoded_ping_keeps_client(hb: HeartBeat, now: u128, d: DecodeOutcome, fired_at: u128)
    requires
        d is Ping || d is Pong,
        now + hb.timeout <= u128::MAX,
        fired_at < now + hb.timeout,
    ensures
        timer_action(heartbeat_after(hb, now, d), fired_at) is Reschedule,
{
}

/// A client heard of at `now` keeps its connection through every timer tick
/// before `now + timeout`, and loses it at the first tick from then on.
pub proof fn law_heartbeat_deadline(hb: HeartBeat, now: u128, fired_at: u128)
    requires
        now + hb.timeout <= u128::MAX,
    ensures
        fired_at < now + hb.timeout ==> timer_action(updated(hb, now), fired_at) is Reschedule,
        fired_at >= now + hb.timeout ==> timer_action(updated(hb, now), fired_at)
            == TimerAction::Close,
{
}


/// A tick before the client's deadline reschedules the timer one interval
/// later and sends a ping exactly when server heartbeats are on, whatever the
/// interval and the deadline are; a tick at or past the deadline closes.
pub proof fn law_tick_pings_when_server_heartbeats(hb: HeartBeat, fired_at: u128)
    ensures
        fired_at < hb.deadline ==> (timer_action(hb, fired_at) matches TimerAction::Reschedule {
            next,
            send_ping,
        } && next == (fired_at + hb.interval) as u128 && send_ping == hb.server_send_heartbeat),
        fired_at >= hb.deadline ==> timer_action(hb, fired_at) == TimerAction::Close,
{
}

} // verus!
