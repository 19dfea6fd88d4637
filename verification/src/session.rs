//! The session state machine.
//!
//! A session owns the read-accumulation buffer, the write-accumulation
//! buffer, and the termination flag of one live WebSocket connection. The
//! surrounding event loop feeds it whatever source is ready — a received
//! WebSocket frame, an outbound application frame, a heartbeat tick, or a
//! send failure — and performs the actions each step returns: transport
//! writes and events for the application. All decisions are made here; the
//! loop outside only moves bytes.

use vstd::prelude::*;
use crate::codec::{stomp_decode, stomp_decode_of, stomp_encode, stomp_encode_of};
use crate::error::WStompError;
use crate::event::WStompEvent;
use crate::reassembly::{Fragment, Reassembler};

verus! {

/// A received WebSocket frame, as the session sees it.
pub enum WsIncoming {
    /// A Ping frame; the session answers it with a Pong.
    Ping(Vec<u8>),
    /// A Pong frame; ignored.
    Pong(Vec<u8>),
    /// A standalone Text frame: one complete message.
    Text(Vec<u8>),
    /// A standalone Binary frame: one complete message.
    Binary(Vec<u8>),
    /// The peer closed the connection, with its reason if it gave one.
    Close(Option<awc::ws::CloseReason>),
    /// The first fragment of a continued message.
    ContinuationFirst(Vec<u8>),
    /// A middle fragment of a continued message.
    ContinuationMiddle(Vec<u8>),
    /// The final fragment of a continued message.
    ContinuationLast(Vec<u8>),
}

/// The mathematical form of a received WebSocket frame.
pub enum WsIncomingView {
    /// A Ping frame's payload.
    Ping(Seq<u8>),
    /// A Pong frame's payload.
    Pong(Seq<u8>),
    /// A standalone Text frame's payload.
    Text(Seq<u8>),
    /// A standalone Binary frame's payload.
    Binary(Seq<u8>),
    /// A peer close, with its reason.
    Close(Option<awc::ws::CloseReason>),
    /// A first fragment's payload.
    ContinuationFirst(Seq<u8>),
    /// A middle fragment's payload.
    ContinuationMiddle(Seq<u8>),
    /// A final fragment's payload.
    ContinuationLast(Seq<u8>),
}

impl View for WsIncoming {
    type V = WsIncomingView;

    open spec fn view(&self) -> WsIncomingView {
        match self {
            WsIncoming::Ping(b) => WsIncomingView::Ping(b@),
            WsIncoming::Pong(b) => WsIncomingView::Pong(b@),
            WsIncoming::Text(b) => WsIncomingView::Text(b@),
            WsIncoming::Binary(b) => WsIncomingView::Binary(b@),
            WsIncoming::Close(r) => WsIncomingView::Close(*r),
            WsIncoming::ContinuationFirst(b) => WsIncomingView::ContinuationFirst(b@),
            WsIncoming::ContinuationMiddle(b) => WsIncomingView::ContinuationMiddle(b@),
            WsIncoming::ContinuationLast(b) => WsIncomingView::ContinuationLast(b@),
        }
    }
}

/// One side effect the event loop must perform after a step.
pub enum SessionAction {
    /// Send a WebSocket Pong with this payload.
    SendPong(Vec<u8>),
    /// Send a WebSocket Binary frame with this payload.
    SendBinary(Vec<u8>),
    /// Send a WebSocket Ping with this payload.
    SendPing(Vec<u8>),
    /// Deliver this event on the inbound channel.
    Emit(WStompEvent),
}

/// The mathematical form of a session action.
pub enum SessionActionView {
    /// A Pong to send, by payload.
    SendPong(Seq<u8>),
    /// A Binary frame to send, by payload.
    SendBinary(Seq<u8>),
    /// A Ping to send, by payload.
    SendPing(Seq<u8>),
    /// An event to deliver.
    Emit(WStompEvent),
}

impl View for SessionAction {
    type V = SessionActionView;

    open spec fn view(&self) -> SessionActionView {
        match self {
            SessionAction::SendPong(b) => SessionActionView::SendPong(b@),
            SessionAction::SendBinary(b) => SessionActionView::SendBinary(b@),
            SessionAction::SendPing(b) => SessionActionView::SendPing(b@),
            SessionAction::Emit(e) => SessionActionView::Emit(*e),
        }
    }
}

/// What one step of the session asks the event loop to do, in order.
pub struct StepOutcome {
    /// The side effects to perform, in order.
    pub actions: Vec<SessionAction>,
    /// The payload handed to the STOMP decoder during this step, if any.
    pub decoded_input: Ghost<Option<Seq<u8>>>,
}

impl View for StepOutcome {
    type V = Seq<SessionActionView>;

    open spec fn view(&self) -> Seq<SessionActionView> {
        self.actions@.map_values(|a: SessionAction| a@)
    }
}

impl StepOutcome {
    /// A step with no side effects.
    fn none() -> (o: StepOutcome)
        ensures
            o@ == Seq::<SessionActionView>::empty(),
            o.decoded_input@ is None,
    {
        let o = StepOutcome { actions: Vec::new(), decoded_input: Ghost(None) };
        proof {
            assert(o@ =~= Seq::<SessionActionView>::empty());
        }
        o
    }

    /// A step with exactly one side effect.
    fn one(a: SessionAction) -> (o: StepOutcome)
        ensures
            o@ == seq![a@],
            o.decoded_input@ is None,
    {
        let ghost av = a@;
        let mut actions: Vec<SessionAction> = Vec::new();
        actions.push(a);
        let o = StepOutcome { actions, decoded_input: Ghost(None) };
        proof {
            assert(o@ =~= seq![av]);
        }
        o
    }
}

/// The mathematical state of a session.
#[verifier::ext_equal]
pub ghost struct SessionView {
    /// The read-accumulation buffer: payload bytes of the message in
    /// progress.
    pub read: Seq<u8>,
    /// The write-accumulation buffer: encoded bytes not yet sent.
    pub pending: Seq<u8>,
    /// Whether the session has ended; a terminated session does nothing.
    pub terminated: bool,
    /// The fixed heartbeat period, in seconds.
    pub heartbeat_period_secs: u64,
}

/// The payload every heartbeat Ping carries.
pub open spec fn heartbeat_payload_spec() -> Seq<u8> {
    seq![119u8, 115u8, 116u8, 111u8, 109u8, 112u8]
}

/// The heartbeat Ping payload, the bytes of "wstomp".
pub fn heartbeat_payload() -> (r: Vec<u8>)
    ensures
        r@ == heartbeat_payload_spec(),
{
    let mut v: Vec<u8> = Vec::new();
    v.push(119u8);
    v.push(115u8);
    v.push(116u8);
    v.push(111u8);
    v.push(109u8);
    v.push(112u8);
    proof {
        assert(v@ =~= heartbeat_payload_spec());
    }
    v
}

/// What a decode outcome does to a session whose finished message was just
/// taken out of the read buffer: a decoded frame becomes a `Message` event;
/// no-complete-frame and a decode error each emit one `Error` event and end
/// the session.
pub open spec fn decode_step(
    s: SessionView,
    dec: Result<Option<async_stomp::Message<async_stomp::FromServer>>, anyhow::Error>,
) -> (SessionView, Seq<SessionActionView>) {
    if s.terminated {
        (s, Seq::empty())
    } else {
        match dec {
            Ok(Some(m)) => (s, seq![SessionActionView::Emit(WStompEvent::Message(m))]),
            Ok(None) => (
                SessionView { terminated: true, ..s },
                seq![
                    SessionActionView::Emit(
                        WStompEvent::Error(WStompError::IncompleteStompFrame),
                    ),
                ],
            ),
            Err(e) => (
                SessionView { terminated: true, ..s },
                seq![
                    SessionActionView::Emit(WStompEvent::Error(WStompError::StompDecoding(e))),
                ],
            ),
        }
    }
}

/// A finished message: the whole read buffer goes to the decoder and the
/// buffer is left empty, whatever the outcome.
pub open spec fn finish_step(
    s: SessionView,
    dec: Result<Option<async_stomp::Message<async_stomp::FromServer>>, anyhow::Error>,
) -> (SessionView, Seq<SessionActionView>, Option<Seq<u8>>) {
    let (s2, acts) = decode_step(SessionView { read: Seq::empty(), ..s }, dec);
    (s2, acts, Some(s.read))
}

/// The session's reaction to one received WebSocket frame. `dec` is the
/// decoder's answer for the steps that finish a message; steps that finish
/// none ignore it and hand the decoder nothing.
pub open spec fn ws_frame_step(
    s: SessionView,
    f: WsIncomingView,
    dec: Result<Option<async_stomp::Message<async_stomp::FromServer>>, anyhow::Error>,
) -> (SessionView, Seq<SessionActionView>, Option<Seq<u8>>) {
    if s.terminated {
        (s, Seq::empty(), None)
    } else {
        match f {
            WsIncomingView::Ping(p) => (s, seq![SessionActionView::SendPong(p)], None),
            WsIncomingView::Pong(_) => (s, Seq::empty(), None),
            WsIncomingView::Close(rsn) => (
                SessionView { terminated: true, ..s },
                seq![SessionActionView::Emit(WStompEvent::WebsocketClosed(rsn))],
                None,
            ),
            WsIncomingView::Text(b) => finish_step(SessionView { read: s.read + b, ..s }, dec),
            WsIncomingView::Binary(b) => finish_step(SessionView { read: s.read + b, ..s }, dec),
            WsIncomingView::ContinuationFirst(b) => (
                SessionView { read: b, ..s },
                Seq::empty(),
                None,
            ),
            WsIncomingView::ContinuationMiddle(b) => (
                SessionView { read: s.read + b, ..s },
                Seq::empty(),
                None,
            ),
            WsIncomingView::ContinuationLast(b) => finish_step(
                SessionView { read: s.read + b, ..s },
                dec,
            ),
        }
    }
}

/// The decoder's answer for the payload this frame completes: the named
/// decode outcome of the accumulated bytes plus the frame's payload. For a
/// frame that finishes no message the value is immaterial —
/// [`ws_frame_step`] ignores it there.
pub open spec fn frame_decode_outcome(s: SessionView, f: WsIncomingView) -> Result<
    Option<async_stomp::Message<async_stomp::FromServer>>,
    anyhow::Error,
> {
    match f {
        WsIncomingView::Text(b) => stomp_decode_of(s.read + b),
        WsIncomingView::Binary(b) => stomp_decode_of(s.read + b),
        WsIncomingView::ContinuationLast(b) => stomp_decode_of(s.read + b),
        _ => Ok(None),
    }
}

/// The session's reaction to one outbound application frame, given the
/// encoder's outcome: `Ok(appended)` when the encoder appended those bytes
/// to the write buffer, `Err(e)` when it failed. Success sends the whole
/// write buffer and clears it; failure reports the error, drops the
/// malformed frame — the write buffer is cleared, so no residue of it can
/// precede a later frame — and the session carries on.
pub open spec fn outbound_step(
    s: SessionView,
    enc: Result<Seq<u8>, anyhow::Error>,
) -> (SessionView, Seq<SessionActionView>) {
    if s.terminated {
        (s, Seq::empty())
    } else {
        match enc {
            Ok(appended) => (
                SessionView { pending: Seq::empty(), ..s },
                seq![SessionActionView::SendBinary(s.pending + appended)],
            ),
            Err(e) => (
                SessionView { pending: Seq::empty(), ..s },
                seq![
                    SessionActionView::Emit(WStompEvent::Error(WStompError::StompEncoding(e))),
                ],
            ),
        }
    }
}

/// The session's reaction to a heartbeat tick: one Ping, nothing else.
pub open spec fn tick_step(s: SessionView) -> (SessionView, Seq<SessionActionView>) {
    if s.terminated {
        (s, Seq::empty())
    } else {
        (s, seq![SessionActionView::SendPing(heartbeat_payload_spec())])
    }
}

/// The live unit of work for one WebSocket connection: its buffers and its
/// termination flag. The event loop owns the transport; the session owns
/// every decision about it.
pub struct Session {
    read: Reassembler,
    pending: Vec<u8>,
    terminated: bool,
    heartbeat_period_secs: u64,
}

impl View for Session {
    type V = SessionView;

    closed spec fn view(&self) -> SessionView {
        SessionView {
            read: self.read@,
            pending: self.pending@,
            terminated: self.terminated,
            heartbeat_period_secs: self.heartbeat_period_secs,
        }
    }
}

/// The default heartbeat period, in seconds.
pub const DEFAULT_HEARTBEAT_PERIOD_SECS: u64 = 20;

impl Session {
    /// A fresh session with empty buffers and the default heartbeat period.
    pub fn new() -> (s: Session)
        ensures
            s@ == (SessionView {
                read: Seq::<u8>::empty(),
                pending: Seq::<u8>::empty(),
                terminated: false,
                heartbeat_period_secs: DEFAULT_HEARTBEAT_PERIOD_SECS,
            }),
    {
        Session {
            read: Reassembler::new(),
            pending: Vec::new(),
            terminated: false,
            heartbeat_period_secs: DEFAULT_HEARTBEAT_PERIOD_SECS,
        }
    }

    /// A fresh session with empty buffers and the given heartbeat period.
    pub fn with_heartbeat_period(secs: u64) -> (s: Session)
        ensures
            s@ == (SessionView {
                read: Seq::<u8>::empty(),
                pending: Seq::<u8>::empty(),
                terminated: false,
                heartbeat_period_secs: secs,
            }),
    {
        Session {
            read: Reassembler::new(),
            pending: Vec::new(),
            terminated: false,
            heartbeat_period_secs: secs,
        }
    }

    /// Whether the session has ended; once true, every step is a no-op.
    pub fn is_terminated(&self) -> (b: bool)
        ensures
            b == self@.terminated,
    {
        self.terminated
    }

    /// The fixed heartbeat period the event loop should tick at.
    pub fn heartbeat_period_secs(&self) -> (r: u64)
        ensures
            r == self@.heartbeat_period_secs,
    {
        self.heartbeat_period_secs
    }

    /// React to a decode outcome for a message just handed to the codec.
    pub fn apply_decode_result(
        &mut self,
        dec: Result<Option<async_stomp::Message<async_stomp::FromServer>>, anyhow::Error>,
    ) -> (out: StepOutcome)
        ensures
            (final(self)@, out@) == decode_step(old(self)@, dec),
            out.decoded_input@ is None,
    {
        if self.terminated {
            return StepOutcome::none();
        }
        match dec {
            Ok(Some(m)) => StepOutcome::one(SessionAction::Emit(WStompEvent::Message(m))),
            Ok(None) => {
                self.terminated = true;
                StepOutcome::one(
                    SessionAction::Emit(WStompEvent::Error(WStompError::IncompleteStompFrame)),
                )
            },
            Err(e) => {
                self.terminated = true;
                StepOutcome::one(
                    SessionAction::Emit(WStompEvent::Error(WStompError::StompDecoding(e))),
                )
            },
        }
    }

    /// React to an encode outcome for a frame just encoded into the write
    /// buffer: success sends the buffer's whole contents and clears it;
    /// failure reports the error, discards the buffer — the malformed frame
    /// is dropped, leaving no residue for a later send — and the session
    /// stays alive.
    pub fn apply_encode_result(&mut self, r: Result<(), anyhow::Error>) -> (out: StepOutcome)
        ensures
            old(self)@.terminated ==> final(self)@ == old(self)@ && out@ == Seq::<
                SessionActionView,
            >::empty(),
            !old(self)@.terminated && (r matches Ok(_)) ==> final(self)@ == (SessionView {
                pending: Seq::<u8>::empty(),
                ..old(self)@
            }) && out@ == seq![SessionActionView::SendBinary(old(self)@.pending)],
            !old(self)@.terminated ==> (r matches Err(e) ==> final(self)@ == (SessionView {
                pending: Seq::<u8>::empty(),
                ..old(self)@
            }) && out@ == seq![
                SessionActionView::Emit(WStompEvent::Error(WStompError::StompEncoding(e))),
            ]),
            out.decoded_input@ is None,
    {
        if self.terminated {
            return StepOutcome::none();
        }
        match r {
            Ok(_) => {
                let mut bytes: Vec<u8> = Vec::new();
                core::mem::swap(&mut bytes, &mut self.pending);
                StepOutcome::one(SessionAction::SendBinary(bytes))
            },
            Err(e) => {
                self.pending.clear();
                StepOutcome::one(
                    SessionAction::Emit(WStompEvent::Error(WStompError::StompEncoding(e))),
                )
            },
        }
    }

    /// React to one outbound application frame: encode it, then send the
    /// write buffer — its earlier contents followed by exactly the frame's
    /// encoding — as [`Self::apply_encode_result`] says.
    pub fn on_outbound(
        &mut self,
        frame: async_stomp::Message<async_stomp::ToServer>,
    ) -> (out: StepOutcome)
        ensures
            (final(self)@, out@) == outbound_step(old(self)@, Ok(stomp_encode_of(frame))),
            out.decoded_input@ is None,
    {
        if self.terminated {
            let out = StepOutcome::none();
            proof {
                assert((self@, out@) == outbound_step(old(self)@, Ok(stomp_encode_of(frame))));
            }
            return out;
        }
        let r = stomp_encode(frame, &mut self.pending);
        let out = self.apply_encode_result(r);
        proof {
            assert(final(self)@ =~= outbound_step(old(self)@, Ok(stomp_encode_of(frame))).0);
            assert((final(self)@, out@) == outbound_step(
                old(self)@,
                Ok(stomp_encode_of(frame)),
            ));
        }
        out
    }

    /// React to a heartbeat tick: ask for one Ping with the fixed payload.
    pub fn on_heartbeat_tick(&mut self) -> (out: StepOutcome)
        ensures
            (final(self)@, out@) == tick_step(old(self)@),
            out.decoded_input@ is None,
    {
        if self.terminated {
            return StepOutcome::none();
        }
        StepOutcome::one(SessionAction::SendPing(heartbeat_payload()))
    }

    /// Both event sources are gone: the session ends silently.
    pub fn on_sources_closed(&mut self)
        ensures
            final(self)@ == (SessionView { terminated: true, ..old(self)@ }),
    {
        self.terminated = true;
    }

    /// The application dropped its receiving side: the session ends
    /// silently, since nobody is left to hear.
    pub fn on_event_delivery_failed(&mut self)
        ensures
            final(self)@ == (SessionView { terminated: true, ..old(self)@ }),
    {
        self.terminated = true;
    }

    /// The transport failed while the Pong reply was being sent: report a
    /// send error and end the session.
    pub fn on_pong_send_failed(&mut self, e: awc::error::WsProtocolError) -> (out: StepOutcome)
        ensures
            old(self)@.terminated ==> final(self)@ == old(self)@ && out@ == Seq::<
                SessionActionView,
            >::empty(),
            !old(self)@.terminated ==> final(self)@ == (SessionView {
                terminated: true,
                ..old(self)@
            }) && out@ == seq![
                SessionActionView::Emit(WStompEvent::Error(WStompError::WsSend(e))),
            ],
            out.decoded_input@ is None,
    {
        if self.terminated {
            return StepOutcome::none();
        }
        self.terminated = true;
        StepOutcome::one(SessionAction::Emit(WStompEvent::Error(WStompError::WsSend(e))))
    }

    /// The transport failed while an encoded STOMP frame was being sent:
    /// report a send error and end the session.
    pub fn on_binary_send_failed(&mut self, e: awc::error::WsProtocolError) -> (out: StepOutcome)
        ensures
            old(self)@.terminated ==> final(self)@ == old(self)@ && out@ == Seq::<
                SessionActionView,
            >::empty(),
            !old(self)@.terminated ==> final(self)@ == (SessionView {
                terminated: true,
                ..old(self)@
            }) && out@ == seq![
                SessionActionView::Emit(WStompEvent::Error(WStompError::WsSend(e))),
            ],
            out.decoded_input@ is None,
    {
        if self.terminated {
            return StepOutcome::none();
        }
        self.terminated = true;
        StepOutcome::one(SessionAction::Emit(WStompEvent::Error(WStompError::WsSend(e))))
    }

    /// The transport failed while a heartbeat Ping was being sent: the tick
    /// is lost and the failure is reported like any other send failure, but
    /// it does not by itself end the session.
    pub fn on_ping_send_failed(&mut self, e: awc::error::WsProtocolError) -> (out: StepOutcome)
        ensures
            old(self)@.terminated ==> final(self)@ == old(self)@ && out@ == Seq::<
                SessionActionView,
            >::empty(),
            !old(self)@.terminated ==> final(self)@ == old(self)@ && out@ == seq![
                SessionActionView::Emit(WStompEvent::Error(WStompError::WsSend(e))),
            ],
            out.decoded_input@ is None,
    {
        if self.terminated {
            return StepOutcome::none();
        }
        StepOutcome::one(SessionAction::Emit(WStompEvent::Error(WStompError::WsSend(e))))
    }

    /// The transport failed while a WebSocket frame was being read: report a
    /// receive error and end the session.
    pub fn on_read_failed(&mut self, e: awc::error::WsProtocolError) -> (out: StepOutcome)
        ensures
            old(self)@.terminated ==> final(self)@ == old(self)@ && out@ == Seq::<
                SessionActionView,
            >::empty(),
            !old(self)@.terminated ==> final(self)@ == (SessionView {
                terminated: true,
                ..old(self)@
            }) && out@ == seq![
                SessionActionView::Emit(WStompEvent::Error(WStompError::WsReceive(e))),
            ],
            out.decoded_input@ is None,
    {
        if self.terminated {
            return StepOutcome::none();
        }
        self.terminated = true;
        StepOutcome::one(SessionAction::Emit(WStompEvent::Error(WStompError::WsReceive(e))))
    }

    /// Take the finished message out of the read buffer, hand it to the
    /// decoder, and react to the outcome.
    fn finish_message(&mut self) -> (out: StepOutcome)
        requires
            !old(self)@.terminated,
        ensures
            (final(self)@, out@, out.decoded_input@) == finish_step(
                old(self)@,
                stomp_decode_of(old(self)@.read),
            ),
    {
        let ghost s0 = old(self)@;
        let mut bytes = self.read.take();
        proof {
            assert(self@ =~= (SessionView { read: Seq::<u8>::empty(), ..s0 }));
        }
        let ghost handed = bytes@;
        let dec = stomp_decode(&mut bytes);
        let ghost mid = self@;
        let mut out = self.apply_decode_result(dec);
        out.decoded_input = Ghost(Some(handed));
        proof {
            assert((self@, out@) == decode_step(mid, dec));
            assert((self@, out@, out.decoded_input@) == finish_step(s0, stomp_decode_of(s0.read)));
        }
        out
    }

    /// React to one received WebSocket frame, as [`ws_frame_step`] says: a
    /// Ping is answered, fragments accumulate, a finished message goes to
    /// the decoder — whose answer is the named decode outcome of exactly the
    /// accumulated payload — and a peer Close ends the session.
    pub fn on_ws_frame(&mut self, frame: WsIncoming) -> (out: StepOutcome)
        ensures
            (final(self)@, out@, out.decoded_input@) == ws_frame_step(
                old(self)@,
                frame@,
                frame_decode_outcome(old(self)@, frame@),
            ),
    {
        let ghost fv = frame@;
        let ghost dec = frame_decode_outcome(old(self)@, fv);
        if self.terminated {
            let out = StepOutcome::none();
            proof {
                assert((self@, out@, out.decoded_input@) == ws_frame_step(old(self)@, fv, dec));
            }
            return out;
        }
        match frame {
            WsIncoming::Ping(p) => {
                let out = StepOutcome::one(SessionAction::SendPong(p));
                proof {
                    assert((self@, out@, out.decoded_input@) == ws_frame_step(
                        old(self)@,
                        fv,
                        dec,
                    ));
                }
                out
            },
            WsIncoming::Pong(_) => {
                let out = StepOutcome::none();
                proof {
                    assert((self@, out@, out.decoded_input@) == ws_frame_step(
                        old(self)@,
                        fv,
                        dec,
                    ));
                }
                out
            },
            WsIncoming::Close(rsn) => {
                self.terminated = true;
                let out = StepOutcome::one(
                    SessionAction::Emit(WStompEvent::WebsocketClosed(rsn)),
                );
                proof {
                    assert(self@ =~= (SessionView { terminated: true, ..old(self)@ }));
                    assert((self@, out@, out.decoded_input@) == ws_frame_step(
                        old(self)@,
                        fv,
                        dec,
                    ));
                }
                out
            },
            WsIncoming::Text(b) => {
                let ghost bv = b@;
                let _finished = self.read.push(&Fragment::Standalone(b));
                proof {
                    assert(self@ =~= (SessionView { read: old(self)@.read + bv, ..old(self)@ }));
                }
                let ghost mid = self@;
                let out = self.finish_message();
                proof {
                    assert(dec == stomp_decode_of(mid.read));
                    assert((self@, out@, out.decoded_input@) == ws_frame_step(
                        old(self)@,
                        fv,
                        dec,
                    ));
                }
                out
            },
            WsIncoming::Binary(b) => {
                let ghost bv = b@;
                let _finished = self.read.push(&Fragment::Standalone(b));
                proof {
                    assert(self@ =~= (SessionView { read: old(self)@.read + bv, ..old(self)@ }));
                }
                let ghost mid = self@;
                let out = self.finish_message();
                proof {
                    assert(dec == stomp_decode_of(mid.read));
                    assert((self@, out@, out.decoded_input@) == ws_frame_step(
                        old(self)@,
                        fv,
                        dec,
                    ));
                }
                out
            },
            WsIncoming::ContinuationFirst(b) => {
                let _finished = self.read.push(&Fragment::First(b));
                let out = StepOutcome::none();
                proof {
                    assert(self@ =~= ws_frame_step(old(self)@, fv, dec).0);
                    assert((self@, out@, out.decoded_input@) == ws_frame_step(
                        old(self)@,
                        fv,
                        dec,
                    ));
                }
                out
            },
            WsIncoming::ContinuationMiddle(b) => {
                let _finished = self.read.push(&Fragment::Middle(b));
                let out = StepOutcome::none();
                proof {
                    assert(self@ =~= ws_frame_step(old(self)@, fv, dec).0);
                    assert((self@, out@, out.decoded_input@) == ws_frame_step(
                        old(self)@,
                        fv,
                        dec,
                    ));
                }
                out
            },
            WsIncoming::ContinuationLast(b) => {
                let ghost bv = b@;
                let _finished = self.read.push(&Fragment::Last(b));
                proof {
                    assert(self@ =~= (SessionView { read: old(self)@.read + bv, ..old(self)@ }));
                }
                let ghost mid = self@;
                let out = self.finish_message();
                proof {
                    assert(dec == stomp_decode_of(mid.read));
                    assert((self@, out@, out.decoded_input@) == ws_frame_step(
                        old(self)@,
                        fv,
                        dec,
                    ));
                }
                out
            },
        }
    }
}

/// Ping/Pong: a live session answers a Ping with exactly one Pong carrying
/// the identical payload; its state is unchanged and nothing is handed to
/// the decoder.
pub proof fn lemma_ping_yields_pong(
    s: SessionView,
    p: Seq<u8>,
    dec: Result<Option<async_stomp::Message<async_stomp::FromServer>>, anyhow::Error>,
)
    requires
        !s.terminated,
    ensures
        ws_frame_step(s, WsIncomingView::Ping(p), dec) == (
            s,
            seq![SessionActionView::SendPong(p)],
            None::<Seq<u8>>,
        ),
{
}

/// Reassembly correctness: after a first fragment `a` and a middle fragment
/// `b`, the final fragment `c` hands the decoder exactly `a ++ b ++ c`, and
/// neither earlier fragment handed it anything or caused any action.
pub proof fn lemma_fragment_reassembly(
    s: SessionView,
    a: Seq<u8>,
    b: Seq<u8>,
    c: Seq<u8>,
    d1: Result<Option<async_stomp::Message<async_stomp::FromServer>>, anyhow::Error>,
    d2: Result<Option<async_stomp::Message<async_stomp::FromServer>>, anyhow::Error>,
    d3: Result<Option<async_stomp::Message<async_stomp::FromServer>>, anyhow::Error>,
)
    requires
        !s.terminated,
    ensures
        ({
            let (s1, acts1, h1) = ws_frame_step(s, WsIncomingView::ContinuationFirst(a), d1);
            let (s2, acts2, h2) = ws_frame_step(s1, WsIncomingView::ContinuationMiddle(b), d2);
            let (s3, acts3, h3) = ws_frame_step(s2, WsIncomingView::ContinuationLast(c), d3);
            acts1 == Seq::<SessionActionView>::empty() && h1 is None && acts2 == Seq::<
                SessionActionView,
            >::empty() && h2 is None && h3 == Some(a + b + c)
        }),
{
}

/// Reassembly correctness: a standalone Text or Binary frame `x`, arriving
/// with nothing accumulated, hands the decoder exactly `x`.
pub proof fn lemma_standalone_reassembly(
    s: SessionView,
    x: Seq<u8>,
    dec: Result<Option<async_stomp::Message<async_stomp::FromServer>>, anyhow::Error>,
)
    requires
        !s.terminated,
        s.read == Seq::<u8>::empty(),
    ensures
        ws_frame_step(s, WsIncomingView::Text(x), dec).2 == Some(x),
        ws_frame_step(s, WsIncomingView::Binary(x), dec).2 == Some(x),
{
    assert(s.read + x =~= x);
}

/// Decode fatality: when the decoder answers "no complete frame" or an error
/// for a finished message, the session emits exactly one Error event and
/// terminates; by [`lemma_terminated_silent`], no event ever follows it.
pub proof fn lemma_decode_fatality(
    s: SessionView,
    dec: Result<Option<async_stomp::Message<async_stomp::FromServer>>, anyhow::Error>,
)
    requires
        !s.terminated,
        !(dec matches Ok(Some(_))),
    ensures
        ({
            let (s2, acts) = decode_step(s, dec);
            s2.terminated && acts.len() == 1 && (dec matches Ok(None) ==> acts == seq![
                SessionActionView::Emit(WStompEvent::Error(WStompError::IncompleteStompFrame)),
            ]) && (dec matches Err(e) ==> acts == seq![
                SessionActionView::Emit(WStompEvent::Error(WStompError::StompDecoding(e))),
            ])
        }),
{
}

/// Termination is absorbing: a terminated session takes no action, hands the
/// decoder nothing, and never changes, whatever arrives.
pub proof fn lemma_terminated_silent(
    s: SessionView,
    f: WsIncomingView,
    dec: Result<Option<async_stomp::Message<async_stomp::FromServer>>, anyhow::Error>,
    enc: Result<Seq<u8>, anyhow::Error>,
)
    requires
        s.terminated,
    ensures
        ws_frame_step(s, f, dec) == (s, Seq::<SessionActionView>::empty(), None::<Seq<u8>>),
        outbound_step(s, enc) == (s, Seq::<SessionActionView>::empty()),
        tick_step(s) == (s, Seq::<SessionActionView>::empty()),
        decode_step(s, dec) == (s, Seq::<SessionActionView>::empty()),
{
}

/// Close propagation: a peer Close with reason `rsn` yields exactly one
/// `WebsocketClosed(rsn)` event and terminates the session; by
/// [`lemma_terminated_silent`], no event ever follows it.
pub proof fn lemma_close_propagation(
    s: SessionView,
    rsn: Option<awc::ws::CloseReason>,
    dec: Result<Option<async_stomp::Message<async_stomp::FromServer>>, anyhow::Error>,
)
    requires
        !s.terminated,
    ensures
        ws_frame_step(s, WsIncomingView::Close(rsn), dec) == (
            SessionView { terminated: true, ..s },
            seq![SessionActionView::Emit(WStompEvent::WebsocketClosed(rsn))],
            None::<Seq<u8>>,
        ),
{
}

/// Error isolation: an encode failure on one outbound frame emits exactly
/// one Error event, leaves the session alive, drops the malformed frame's
/// bytes, and the next outbound frame is still sent — carrying exactly its
/// own encoding, with no residue of the failed one in front.
pub proof fn lemma_encode_error_isolation(s: SessionView, e: anyhow::Error, appended: Seq<u8>)
    requires
        !s.terminated,
    ensures
        ({
            let (s1, acts1) = outbound_step(s, Err(e));
            let (s2, acts2) = outbound_step(s1, Ok(appended));
            !s1.terminated && s1.pending == Seq::<u8>::empty() && acts1 == seq![
                SessionActionView::Emit(WStompEvent::Error(WStompError::StompEncoding(e))),
            ] && !s2.terminated && acts2 == seq![SessionActionView::SendBinary(appended)]
        }),
{
    let (s1, acts1) = outbound_step(s, Err(e));
    assert(s1.pending + appended =~= appended);
}

/// Run a sequence of outbound steps, collecting every action in order.
pub open spec fn run_outbound(
    s: SessionView,
    encs: Seq<Result<Seq<u8>, anyhow::Error>>,
) -> (SessionView, Seq<SessionActionView>)
    decreases encs.len(),
{
    if encs.len() == 0 {
        (s, Seq::empty())
    } else {
        let (s1, a1) = outbound_step(s, encs[0]);
        let (s2, rest) = run_outbound(s1, encs.skip(1));
        (s2, a1 + rest)
    }
}

/// Order preservation: a live session with an empty write buffer, given N
/// outbound frames whose encodings all succeed, sends exactly N Binary
/// frames, the i-th carrying the i-th frame's encoding.
pub proof fn lemma_order_preservation(s: SessionView, encs: Seq<Result<Seq<u8>, anyhow::Error>>)
    requires
        !s.terminated,
        s.pending == Seq::<u8>::empty(),
        forall|i: int| 0 <= i < encs.len() ==> encs[i] is Ok,
    ensures
        ({
            let (s2, acts) = run_outbound(s, encs);
            acts.len() == encs.len() && (forall|i: int|
                0 <= i < encs.len() ==> acts[i] == SessionActionView::SendBinary(
                    encs[i]->Ok_0,
                )) && !s2.terminated && s2.pending == Seq::<u8>::empty()
        }),
    decreases encs.len(),
{
    if encs.len() == 0 {
    } else {
        let (s1, a1) = outbound_step(s, encs[0]);
        assert(s.pending + encs[0]->Ok_0 =~= encs[0]->Ok_0);
        lemma_order_preservation(s1, encs.skip(1));
        let (s2, rest) = run_outbound(s1, encs.skip(1));
        assert forall|i: int| 0 <= i < encs.len() implies (a1 + rest)[i]
            == SessionActionView::SendBinary(encs[i]->Ok_0) by {
            if i > 0 {
                assert(encs.skip(1)[i - 1] == encs[i]);
            }
        }
    }
}

} // verus!
