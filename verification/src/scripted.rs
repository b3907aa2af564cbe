//! A deterministic in-memory transport: every outcome is scripted through
//! plain fields, and the wire-event log is tracked in ghost state. It proves
//! the full [`Transport`] contract, so the dispatch operations compose with
//! it, and the crate's tests drive them through it.

use vstd::prelude::*;
use crate::status::{SpecStatus, Status};
use crate::transport::{copy_bytes, Event, InboundScript, ScriptModel, Transport};

verus! {

/// How the scripted transport answers a unary exchange.
pub enum UnaryBehavior {
    /// Reply with the request bytes unchanged.
    Echo,
    /// Reply with fixed bytes, whatever was asked.
    Reply(Vec<u8>),
    /// Report a failure status for the sent request.
    Fail(Status),
}

/// A transport whose behaviour is fully scripted: readiness, the unary
/// reply, the inbound script of streaming calls, how many outbound messages
/// are accepted, and the response that closes a client-streaming call.
pub struct ScriptedTransport {
    /// Whether the readiness gate passes.
    pub ready: bool,
    /// The diagnostic reported when it does not.
    pub diagnostic: String,
    /// The unary exchange's behaviour.
    pub unary_behavior: UnaryBehavior,
    /// `Some` rejects every streaming call at its start with that status.
    pub start_fail: Option<Status>,
    /// The inbound side handed out by streaming calls.
    pub inbound: InboundScript,
    /// How many further outbound messages are accepted before `send_fail`.
    pub accept_sends: usize,
    /// The status reported once `accept_sends` runs out.
    pub send_fail: Status,
    /// What closing a client-streaming call returns.
    pub finish_reply: Result<Vec<u8>, Status>,
    /// The observable wire activity so far.
    pub log: Ghost<Seq<Event>>,
}

impl ScriptedTransport {
    /// A ready transport that echoes unary requests, accepts every outbound
    /// message, and answers streaming calls with `inbound` and
    /// `finish_reply`. Tests script failures by resetting the public fields.
    pub fn new(inbound: InboundScript, finish_reply: Result<Vec<u8>, Status>) -> (r:
        ScriptedTransport)
        ensures
            r.is_ready(),
            r.events() == Seq::<Event>::empty(),
            r.unary_behavior is Echo,
            r.start_fail is None,
            r.inbound@ == inbound@,
            r.accept_sends == usize::MAX,
            r.finish_reply == finish_reply,
    {
        ScriptedTransport {
            ready: true,
            diagnostic: String::new(),
            unary_behavior: UnaryBehavior::Echo,
            start_fail: None,
            inbound,
            accept_sends: usize::MAX,
            send_fail: Status::new(0, String::new()),
            finish_reply,
            log: Ghost(Seq::empty()),
        }
    }
}

impl Transport for ScriptedTransport {
    open spec fn is_ready(&self) -> bool {
        self.ready
    }

    open spec fn ready_diagnostic(&self) -> Seq<char> {
        self.diagnostic@
    }

    open spec fn events(&self) -> Seq<Event> {
        self.log@
    }

    open spec fn unary_outcome(&self, path: Seq<char>, req: Seq<u8>) -> Result<Seq<u8>, SpecStatus> {
        match self.unary_behavior {
            UnaryBehavior::Echo => Ok(req),
            UnaryBehavior::Reply(b) => Ok(b@),
            UnaryBehavior::Fail(s) => Err(s@),
        }
    }

    open spec fn server_outcome(&self, path: Seq<char>, req: Seq<u8>) -> Result<
        ScriptModel,
        SpecStatus,
    > {
        match self.start_fail {
            None => Ok(self.inbound@),
            Some(s) => Err(s@),
        }
    }

    open spec fn open_outcome(&self, path: Seq<char>) -> Result<(), SpecStatus> {
        match self.start_fail {
            None => Ok(()),
            Some(s) => Err(s@),
        }
    }

    open spec fn bidi_outcome(&self, path: Seq<char>) -> Result<ScriptModel, SpecStatus> {
        match self.start_fail {
            None => Ok(self.inbound@),
            Some(s) => Err(s@),
        }
    }

    open spec fn send_outcome(&self, msg: Seq<u8>) -> Result<(), SpecStatus> {
        if self.accept_sends > 0 {
            Ok(())
        } else {
            Err(self.send_fail@)
        }
    }

    open spec fn finish_outcome(&self) -> Result<Seq<u8>, SpecStatus> {
        match self.finish_reply {
            Ok(b) => Ok(b@),
            Err(s) => Err(s@),
        }
    }

    fn ready(&mut self) -> (r: Result<(), String>) {
        if self.ready {
            Ok(())
        } else {
            Err(self.diagnostic.clone())
        }
    }

    fn unary(&mut self, path: &str, req: &Vec<u8>) -> (r: Result<Vec<u8>, Status>) {
        match &self.unary_behavior {
            UnaryBehavior::Echo => {
                let reply = copy_bytes(req);
                proof {
                    self.log@ = self.log@ + seq![Event::Sent(req@), Event::Received(reply@)];
                }
                Ok(reply)
            },
            UnaryBehavior::Reply(b) => {
                let reply = copy_bytes(b);
                proof {
                    self.log@ = self.log@ + seq![Event::Sent(req@), Event::Received(reply@)];
                }
                Ok(reply)
            },
            UnaryBehavior::Fail(s) => {
                let st = s.duplicate();
                proof {
                    self.log@ = self.log@.push(Event::Sent(req@));
                }
                Err(st)
            },
        }
    }

    fn server_streaming(&mut self, path: &str, req: &Vec<u8>) -> (r: Result<InboundScript, Status>) {
        match &self.start_fail {
            Some(s) => Err(s.duplicate()),
            None => {
                let script = self.inbound.duplicate();
                proof {
                    self.log@ = self.log@.push(Event::Sent(req@));
                }
                Ok(script)
            },
        }
    }

    fn open_stream(&mut self, path: &str) -> (r: Result<(), Status>) {
        match &self.start_fail {
            Some(s) => Err(s.duplicate()),
            None => Ok(()),
        }
    }

    fn open_bidi(&mut self, path: &str) -> (r: Result<InboundScript, Status>) {
        match &self.start_fail {
            Some(s) => Err(s.duplicate()),
            None => Ok(self.inbound.duplicate()),
        }
    }

    fn send(&mut self, msg: &Vec<u8>) -> (r: Result<(), Status>) {
        if self.accept_sends > 0 {
            self.accept_sends = self.accept_sends - 1;
            proof {
                self.log@ = self.log@.push(Event::Sent(msg@));
            }
            Ok(())
        } else {
            Err(self.send_fail.duplicate())
        }
    }

    fn finish(&mut self) -> (r: Result<Vec<u8>, Status>) {
        match &self.finish_reply {
            Ok(b) => {
                let reply = copy_bytes(b);
                proof {
                    self.log@ = self.log@.push(Event::Received(reply@));
                }
                Ok(reply)
            },
            Err(s) => Err(s.duplicate()),
        }
    }

    fn close_send(&mut self) {
    }
}

} // verus!
