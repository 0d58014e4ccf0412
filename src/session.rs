//! The decisions of one connection: from the session's state and what
//! happened on the transport to the next state and what to do. The transport
//! itself, blocking or cooperative, performs the actions and reports events.
use crate::association::{
    accepted_as, negotiate, rejection_of, AcceptancePolicy, Association, AssociationRequest, CodecRegistry,
    NegotiationRejection,
};
use crate::dimse::{
    complete_store, dispatch, dispatched, response_is, store_status, CommandMessage,
    CommandResponse, Dispatch, StoreOutcome, StoreTask, C_STORE_RSP,
};
use vstd::prelude::*;

verus! {

/// What happened on a connection.
#[derive(Debug, Clone)]
pub enum SessionEvent {
    /// The peer asked for an association.
    AssociationRequested(AssociationRequest),
    /// A well-formed command arrived.
    CommandReceived(CommandMessage),
    /// Decoding and storing the pending data set finished.
    StoreCompleted(StoreOutcome),
    /// A command could not be parsed.
    MalformedCommand,
    /// The peer asked to release the association.
    ReleaseRequested,
    /// The peer aborted the association.
    PeerAborted,
    /// Reading or writing the transport failed.
    TransportFailed,
}

/// What the connection must do next.
#[derive(Debug, Clone)]
pub enum SessionAction {
    /// Send the acceptance of the session's association.
    SendAccept,
    /// Send the association rejection, then close.
    SendReject(NegotiationRejection),
    /// Send the response, then wait for the next command.
    SendResponse(CommandResponse),
    /// Decode and store the data set of the session's pending task, then
    /// report the outcome.
    DecodeAndStore,
    /// Answer the release, then close.
    SendReleaseReply,
    /// Abort the association, then close.
    SendAbort,
    /// Close the transport.
    Close,
}

/// Where a session stands.
#[derive(Debug, Copy, Clone, PartialEq, Eq, Structural)]
pub enum Phase {
    AwaitingAssociation,
    Established,
    Storing,
    Closed,
}

/// The state of one connection's session.
#[derive(Debug, Clone)]
pub struct Session {
    pub phase: Phase,
    pub association: Option<Association>,
    pub pending: Option<StoreTask>,
}

impl Session {
    /// Whether the state is consistent: an established session has its
    /// association, and one that is storing also has its pending task.
    pub open spec fn wf(&self) -> bool {
        &&& (self.phase == Phase::Established || self.phase == Phase::Storing) ==> self.association is Some
        &&& self.phase == Phase::Storing <==> self.pending is Some
    }

    /// A session on a freshly accepted connection: it shares nothing with
    /// any earlier session.
    pub fn new() -> (r: Session)
        ensures
            r.wf(),
            r.phase == Phase::AwaitingAssociation,
            r.association is None,
            r.pending is None,
    {
        Session { phase: Phase::AwaitingAssociation, association: None, pending: None }
    }

    /// Takes one event and decides the next state and action.
    ///
    /// An association request is negotiated; commands are dispatched one at a
    /// time; a malformed command, or an event that the phase does not expect,
    /// aborts this session; a release or a transport failure ends it.
    pub fn step(&mut self, policy: &AcceptancePolicy, reg: &CodecRegistry, event: SessionEvent) -> (r: SessionAction)
        requires
            old(self).wf(),
        ensures
            final(self).wf(),
            old(self).phase == Phase::Closed ==> r is Close && final(self).phase == Phase::Closed,
            old(self).phase != Phase::Closed ==> match event {
                SessionEvent::AssociationRequested(req) => if old(self).phase == Phase::AwaitingAssociation {
                    match rejection_of(*policy, *reg, req) {
                        Some(why) => r == SessionAction::SendReject(why) && final(self).phase == Phase::Closed,
                        None => r is SendAccept && final(self).phase == Phase::Established
                            && final(self).association is Some
                            && accepted_as(*policy, *reg, req, final(self).association->Some_0),
                    }
                } else {
                    r is SendAbort && final(self).phase == Phase::Closed
                },
                SessionEvent::CommandReceived(cmd) => if old(self).phase == Phase::Established {
                    final(self).association == old(self).association && match r {
                        SessionAction::SendResponse(resp) => final(self).phase == Phase::Established
                            && dispatched(old(self).association->Some_0, cmd, Dispatch::Reply(resp)),
                        SessionAction::DecodeAndStore => final(self).phase == Phase::Storing
                            && dispatched(old(self).association->Some_0, cmd, Dispatch::Store(final(self).pending->Some_0)),
                        _ => false,
                    }
                } else {
                    r is SendAbort && final(self).phase == Phase::Closed
                },
                SessionEvent::StoreCompleted(_) => if old(self).phase == Phase::Storing {
                    r is SendResponse && final(self).phase == Phase::Established
                        && final(self).association == old(self).association
                        && ({
                            let t = old(self).pending->Some_0;
                            response_is(r->SendResponse_0, C_STORE_RSP, t.message_id, store_status(event->StoreCompleted_0),
                                Some(t.sop_class_uid@), Some(t.sop_instance_uid@))
                        })
                } else {
                    r is SendAbort && final(self).phase == Phase::Closed
                },
                SessionEvent::MalformedCommand => r is SendAbort && final(self).phase == Phase::Closed,
                SessionEvent::ReleaseRequested => if old(self).phase == Phase::Established {
                    r is SendReleaseReply && final(self).phase == Phase::Closed
                } else {
                    r is SendAbort && final(self).phase == Phase::Closed
                },
                SessionEvent::PeerAborted => r is Close && final(self).phase == Phase::Closed,
                SessionEvent::TransportFailed => r is Close && final(self).phase == Phase::Closed,
            },
    {
        if self.phase == Phase::Closed {
            return SessionAction::Close;
        }
        match event {
            SessionEvent::AssociationRequested(req) => {
                if self.phase == Phase::AwaitingAssociation {
                    match negotiate(policy, reg, &req) {
                        Ok(a) => {
                            self.association = Some(a);
                            self.phase = Phase::Established;
                            SessionAction::SendAccept
                        },
                        Err(why) => {
                            self.phase = Phase::Closed;
                            SessionAction::SendReject(why)
                        },
                    }
                } else {
                    self.abort()
                }
            },
            SessionEvent::CommandReceived(cmd) => {
                if self.phase == Phase::Established {
                    let d = match &self.association {
                        Some(a) => dispatch(a, &cmd),
                        None => { return self.abort(); },
                    };
                    match d {
                        Dispatch::Reply(resp) => SessionAction::SendResponse(resp),
                        Dispatch::Store(task) => {
                            self.pending = Some(task);
                            self.phase = Phase::Storing;
                            SessionAction::DecodeAndStore
                        },
                    }
                } else {
                    self.abort()
                }
            },
            SessionEvent::StoreCompleted(outcome) => {
                if self.phase == Phase::Storing {
                    let resp = match &self.pending {
                        Some(task) => complete_store(task, outcome),
                        None => { return self.abort(); },
                    };
                    self.pending = None;
                    self.phase = Phase::Established;
                    SessionAction::SendResponse(resp)
                } else {
                    self.abort()
                }
            },
            SessionEvent::MalformedCommand => self.abort(),
            SessionEvent::ReleaseRequested => {
                if self.phase == Phase::Established {
                    self.phase = Phase::Closed;
                    SessionAction::SendReleaseReply
                } else {
                    self.abort()
                }
            },
            SessionEvent::PeerAborted => {
                self.close();
                SessionAction::Close
            },
            SessionEvent::TransportFailed => {
                self.close();
                SessionAction::Close
            },
        }
    }

    /// Ends the session on a protocol error.
    fn abort(&mut self) -> (r: SessionAction)
        ensures
            r is SendAbort,
            final(self).phase == Phase::Closed,
            final(self).pending is None,
    {
        self.close();
        SessionAction::SendAbort
    }

    /// Ends the session.
    fn close(&mut self)
        ensures
            final(self).phase == Phase::Closed,
            final(self).pending is None,
    {
        self.phase = Phase::Closed;
        self.pending = None;
    }
}

} // verus!
