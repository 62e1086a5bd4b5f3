use vstd::prelude::*;

use crate::handshake::error::HandshakeError;
use crate::handshake::method::SocksMethod;
use crate::handshake::reply::SocksReply;
use crate::handshake::reply_field::ReplyField;
use crate::handshake::{spec_select_method, spec_step, HandshakeState, HandshakeStateBuilder, SocksHandshake, StateView};

verus! {

/// How an attempt to open the connection to the target ended.
#[derive(Clone, Copy, PartialEq, Eq, Structural, Debug)]
pub enum DialOutcome {
    Connected,
    /// The target's host actively refused the connection.
    Refused,
    /// Any other failure.
    Failed,
}

/// The reply code that reports a dial outcome to the client.
pub open spec fn spec_dial_reply_code(outcome: DialOutcome) -> ReplyField {
    match outcome {
        DialOutcome::Connected => ReplyField::Succeeded,
        DialOutcome::Refused => ReplyField::ConnectionRefused,
        DialOutcome::Failed => ReplyField::SocksServerFailure,
    }
}

pub fn dial_reply_code(outcome: DialOutcome) -> (r: ReplyField)
    ensures
        r == spec_dial_reply_code(outcome),
{
    match outcome {
        DialOutcome::Connected => ReplyField::Succeeded,
        DialOutcome::Refused => ReplyField::ConnectionRefused,
        DialOutcome::Failed => ReplyField::SocksServerFailure,
    }
}

/// The reply sent once the target has been dialled: the request's own address
/// and port stand for the bound ones.
pub open spec fn spec_connection_reply(h: SocksHandshake, outcome: DialOutcome) -> SocksReply {
    SocksReply {
        version: h.version,
        rep: spec_dial_reply_code(outcome),
        atyp: h.atyp,
        bnd_addr: h.addr,
        bnd_port: h.port,
    }
}

/// Where one client connection stands.
#[derive(Clone, Copy, PartialEq, Eq, Structural, Debug)]
pub enum ConnState {
    Handshake,
    /// The request is parsed; the target is being dialled.
    Dialing(SocksHandshake),
    /// Bytes are relayed between client and target.
    ConnEstablished,
    Closed,
}

/// What the connection's owner does next.
#[derive(Clone, Copy, PartialEq, Eq, Structural, Debug)]
pub enum Next {
    /// Read more bytes from the client.
    ReadMore,
    /// Open a connection to the request's target and report how it went.
    Dial(SocksHandshake),
    /// Relay bytes in both directions until either side ends.
    Relay,
    /// Close the connection, for the reason given, if any.
    Close(Option<HandshakeError>),
}

/// The outcome of one event: bytes for the client, bytes for the target, and
/// what to do next.
pub struct Step {
    pub send: Vec<u8>,
    pub forward: Vec<u8>,
    pub next: Next,
}

/// The mathematical value of a [`Step`].
pub struct StepView {
    pub send: Seq<u8>,
    pub forward: Seq<u8>,
    pub next: Next,
}

impl View for Step {
    type V = StepView;

    open spec fn view(&self) -> StepView {
        StepView { send: self.send@, forward: self.forward@, next: self.next }
    }
}

/// The mathematical value of a [`ConnHandler`].
pub struct ConnView {
    pub hs: StateView,
    pub pending: Seq<u8>,
    pub conn: ConnState,
}

/// What the handshake makes of the bytes gathered so far: at most a greeting
/// and then a request are read off the front, and what is left is kept.
pub open spec fn spec_settle(hs: StateView, p: Seq<u8>) -> (ConnView, StepView) {
    match spec_step(hs, p) {
        Err(e) => settle_error(hs, p, Seq::empty(), e),
        Ok((s1, r1, n1)) => {
            let rest = p.subrange(n1 as int, p.len() as int);
            match s1 {
                StateView::Finished(h) => dialing(h, rest, r1),
                StateView::Wait(_, ms) => if spec_select_method(ms) != SocksMethod::NoAuth {
                    (
                        ConnView { hs: s1, pending: rest, conn: ConnState::Closed },
                        StepView { send: r1, forward: Seq::empty(), next: Next::Close(Some(HandshakeError::UnsupportedMethod)) },
                    )
                } else {
                    match spec_step(s1, rest) {
                        Err(e) => settle_error(s1, rest, r1, e),
                        Ok((s2, r2, n2)) => match s2 {
                            StateView::Finished(h) => dialing(h, rest.subrange(n2 as int, rest.len() as int), r1 + r2),
                            _ => settle_error(s2, rest, r1 + r2, HandshakeError::Incomplete),
                        },
                    }
                },
                StateView::Init => settle_error(s1, rest, r1, HandshakeError::Incomplete),
            }
        },
    }
}

/// Waiting for more bytes, or closing on a protocol error.
pub open spec fn settle_error(hs: StateView, p: Seq<u8>, sent: Seq<u8>, e: HandshakeError) -> (ConnView, StepView) {
    if e == HandshakeError::Incomplete {
        (
            ConnView { hs, pending: p, conn: ConnState::Handshake },
            StepView { send: sent, forward: Seq::empty(), next: Next::ReadMore },
        )
    } else {
        (
            ConnView { hs, pending: p, conn: ConnState::Closed },
            StepView { send: sent, forward: Seq::empty(), next: Next::Close(Some(e)) },
        )
    }
}

/// The request is complete: dial its target before replying.
pub open spec fn dialing(h: SocksHandshake, rest: Seq<u8>, sent: Seq<u8>) -> (ConnView, StepView) {
    (
        ConnView { hs: StateView::Finished(h), pending: rest, conn: ConnState::Dialing(h) },
        StepView { send: sent, forward: Seq::empty(), next: Next::Dial(h) },
    )
}

/// Bytes read from the client during the handshake. An empty read means the
/// client has gone: the connection closes, without error.
pub open spec fn spec_on_client_bytes(c: ConnView, chunk: Seq<u8>) -> (ConnView, StepView) {
    if chunk.len() == 0 {
        (
            ConnView { hs: c.hs, pending: c.pending, conn: ConnState::Closed },
            StepView { send: Seq::empty(), forward: Seq::empty(), next: Next::Close(None) },
        )
    } else {
        spec_settle(c.hs, c.pending + chunk)
    }
}

/// The end of a dial: the reply the client is owed, then relaying on success
/// (with the bytes the client sent ahead for the target) or closing.
pub open spec fn spec_on_dial(c: ConnView, outcome: DialOutcome) -> (ConnView, StepView) {
    let h = c.conn->Dialing_0;
    let reply = spec_connection_reply(h, outcome).spec_reply();
    if outcome == DialOutcome::Connected {
        (
            ConnView { hs: c.hs, pending: Seq::empty(), conn: ConnState::ConnEstablished },
            StepView { send: reply, forward: c.pending, next: Next::Relay },
        )
    } else {
        (
            ConnView { hs: c.hs, pending: Seq::empty(), conn: ConnState::Closed },
            StepView { send: reply, forward: Seq::empty(), next: Next::Close(None) },
        )
    }
}

/// The decisions of one client connection. Its owner does the reading,
/// writing and dialling, and reports each event here.
pub struct ConnHandler {
    hs_builder: HandshakeStateBuilder,
    pending: Vec<u8>,
    conn_state: ConnState,
}

impl View for ConnHandler {
    type V = ConnView;

    closed spec fn view(&self) -> ConnView {
        ConnView { hs: self.hs_builder.spec_state(), pending: self.pending@, conn: self.conn_state }
    }
}

/// The handshake and the connection agree: a request exists once, and only
/// once, the target is dialled or the connection has moved past that.
pub open spec fn conn_wf(c: ConnView) -> bool {
    match c.conn {
        ConnState::Handshake => !(c.hs is Finished),
        ConnState::Dialing(h) => c.hs == StateView::Finished(h),
        _ => true,
    }
}

impl ConnHandler {
    pub fn new() -> (r: Self)
        ensures
            r@ == (ConnView { hs: StateView::Init, pending: Seq::empty(), conn: ConnState::Handshake }),
            conn_wf(r@),
    {
        ConnHandler { hs_builder: HandshakeStateBuilder::new(), pending: Vec::new(), conn_state: ConnState::Handshake }
    }

    pub fn conn_state(&self) -> (r: ConnState)
        ensures
            r == self@.conn,
    {
        self.conn_state
    }

    /// Reports bytes read from the client while the handshake runs.
    pub fn on_client_bytes(&mut self, chunk: &[u8]) -> (r: Step)
        requires
            old(self)@.conn == ConnState::Handshake,
            conn_wf(old(self)@),
        ensures
            (final(self)@, r@) == spec_on_client_bytes(old(self)@, chunk@),
            conn_wf(final(self)@),
    {
        if chunk.len() == 0 {
            self.conn_state = ConnState::Closed;
            return Step { send: Vec::new(), forward: Vec::new(), next: Next::Close(None) };
        }
        let mut i: usize = 0;
        let ghost before = self.pending@;
        while i < chunk.len()
            invariant
                i <= chunk@.len(),
                self.pending@ == before + chunk@.subrange(0, i as int),
                self.conn_state == old(self).conn_state,
                self.hs_builder == old(self).hs_builder,
            decreases chunk@.len() - i,
        {
            self.pending.push(chunk[i]);
            i += 1;
            assert(self.pending@ =~= before + chunk@.subrange(0, i as int));
        }
        assert(chunk@.subrange(0, i as int) =~= chunk@);
        self.settle()
    }

    /// Reads off the front of the gathered bytes as much of the handshake as
    /// they hold.
    fn settle(&mut self) -> (r: Step)
        requires
            old(self)@.conn == ConnState::Handshake,
            conn_wf(old(self)@),
        ensures
            (final(self)@, r@) == spec_settle(old(self)@.hs, old(self)@.pending),
            conn_wf(final(self)@),
    {
        let first = self.hs_builder.advance_prefix(self.pending.as_slice());
        match first {
            Err(e) => self.settle_error(Vec::new(), e),
            Ok((reply1, n1)) => {
                self.pending = self.pending.split_off(n1);
                let st = self.hs_builder.state();
                match st {
                    HandshakeState::Finished(h) => self.dialing(h, reply1),
                    HandshakeState::Wait(_, ms) => {
                        let selected = self.hs_builder.select_method(&ms);
                        if selected != SocksMethod::NoAuth {
                            self.conn_state = ConnState::Closed;
                            Step { send: reply1, forward: Vec::new(), next: Next::Close(Some(HandshakeError::UnsupportedMethod)) }
                        } else {
                            let second = self.hs_builder.advance_prefix(self.pending.as_slice());
                            match second {
                                Err(e) => self.settle_error(reply1, e),
                                Ok((reply2, n2)) => {
                                    self.pending = self.pending.split_off(n2);
                                    let mut sent = reply1;
                                    let mut reply2 = reply2;
                                    sent.append(&mut reply2);
                                    let st2 = self.hs_builder.state();
                                    match st2 {
                                        HandshakeState::Finished(h) => self.dialing(h, sent),
                                        _ => self.settle_error(sent, HandshakeError::Incomplete),
                                    }
                                },
                            }
                        }
                    },
                    HandshakeState::Init => self.settle_error(reply1, HandshakeError::Incomplete),
                }
            },
        }
    }
}

impl ConnHandler {
    fn settle_error(&mut self, sent: Vec<u8>, e: HandshakeError) -> (r: Step)
        ensures
            (final(self)@, r@) == settle_error(old(self)@.hs, old(self)@.pending, sent@, e),
    {
        if e == HandshakeError::Incomplete {
            self.conn_state = ConnState::Handshake;
            Step { send: sent, forward: Vec::new(), next: Next::ReadMore }
        } else {
            self.conn_state = ConnState::Closed;
            Step { send: sent, forward: Vec::new(), next: Next::Close(Some(e)) }
        }
    }

    fn dialing(&mut self, h: SocksHandshake, sent: Vec<u8>) -> (r: Step)
        requires
            old(self)@.hs == StateView::Finished(h),
        ensures
            (final(self)@, r@) == dialing(h, old(self)@.pending, sent@),
    {
        self.conn_state = ConnState::Dialing(h);
        Step { send: sent, forward: Vec::new(), next: Next::Dial(h) }
    }

    /// Reports how the dial of the request's target ended.
    pub fn on_dial(&mut self, outcome: DialOutcome) -> (r: Step)
        requires
            old(self)@.conn is Dialing,
            conn_wf(old(self)@),
        ensures
            (final(self)@, r@) == spec_on_dial(old(self)@, outcome),
            conn_wf(final(self)@),
    {
        match self.conn_state {
            ConnState::Dialing(h) => {
                let reply = SocksReply::new(h.version, dial_reply_code(outcome), h.atyp, h.addr, h.port);
                let send = reply.to_reply();
                let pending = self.pending.split_off(0);
                assert(pending@ =~= old(self)@.pending);
                assert(self.pending@ =~= Seq::<u8>::empty());
                if outcome == DialOutcome::Connected {
                    self.conn_state = ConnState::ConnEstablished;
                    Step { send, forward: pending, next: Next::Relay }
                } else {
                    self.conn_state = ConnState::Closed;
                    Step { send, forward: Vec::new(), next: Next::Close(None) }
                }
            },
            _ => {
                self.conn_state = ConnState::Closed;
                Step { send: Vec::new(), forward: Vec::new(), next: Next::Close(None) }
            },
        }
    }
}

} // verus!
