//! The order in which a shared file is opened, locked, used and released.
//!
//! The cache record and the breaker's record are files that several processes
//! use at once. Whoever touches one goes through a session: the session names
//! the next request to the file system, the caller performs it and reports
//! how it went. A session never ends while its lock is held.

use vstd::prelude::*;

verus! {

/// What a session is for.
#[derive(Clone, Copy, Debug, PartialEq, Eq, Structural)]
pub enum Purpose {
    /// Read the file under a shared lock, if it is there.
    Read,
    /// Replace the file's content under an exclusive lock.
    Write,
    /// Read the file and replace its content, under one exclusive lock.
    Update,
}

/// One request to the file system.
#[derive(Clone, Copy, Debug, PartialEq, Eq, Structural)]
pub enum Request {
    /// Find out whether the file is there.
    Probe,
    /// Open the file; for writing or updating, create it if it is missing.
    Open,
    LockShared,
    LockExclusive,
    /// Read the whole content.
    ReadAll,
    /// Replace the whole content.
    WriteAll,
    Unlock,
}

/// How a request went.
#[derive(Clone, Copy, Debug, PartialEq, Eq, Structural)]
pub enum Reply {
    /// It succeeded; for a probe: the file is there.
    Done,
    /// The answer to a probe: there is no file.
    Absent,
    /// It failed.
    Failed,
}

/// Where a session stands: the request it waits for, or the end.
#[derive(Clone, Copy, Debug, PartialEq, Eq, Structural)]
pub enum Stage {
    Probing,
    Opening,
    Locking,
    Reading,
    Writing,
    Unlocking,
    Finished,
}

/// A session on one file.
#[derive(Clone, Copy, Debug, PartialEq, Eq, Structural)]
pub struct LockSession {
    pub purpose: Purpose,
    pub stage: Stage,
    /// The first request that failed, if any did.
    pub failed: Option<Request>,
    /// Whether the probe found no file.
    pub absent: bool,
}

impl LockSession {
    /// A new session, before its first request.
    pub open spec fn started(purpose: Purpose) -> LockSession {
        LockSession {
            purpose,
            stage: if purpose is Read {
                Stage::Probing
            } else {
                Stage::Opening
            },
            failed: None,
            absent: false,
        }
    }

    /// The request that the session waits for; `None` at the end.
    pub open spec fn pending(self) -> Option<Request> {
        match self.stage {
            Stage::Probing => Some(Request::Probe),
            Stage::Opening => Some(Request::Open),
            Stage::Locking => if self.purpose is Read {
                Some(Request::LockShared)
            } else {
                Some(Request::LockExclusive)
            },
            Stage::Reading => Some(Request::ReadAll),
            Stage::Writing => Some(Request::WriteAll),
            Stage::Unlocking => Some(Request::Unlock),
            Stage::Finished => None,
        }
    }

    /// Whether the session holds the file's lock.
    pub open spec fn holds_lock(self) -> bool {
        self.stage is Reading || self.stage is Writing || self.stage is Unlocking
    }

    /// The first failure, with a later one kept only where none came before.
    pub open spec fn noting(self, request: Request) -> Option<Request> {
        if self.failed is Some {
            self.failed
        } else {
            Some(request)
        }
    }

    /// The session after the pending request went as `reply` says.
    pub open spec fn after(self, reply: Reply) -> LockSession {
        match self.stage {
            Stage::Probing => if reply is Done {
                LockSession { stage: Stage::Opening, ..self }
            } else {
                LockSession { stage: Stage::Finished, absent: true, ..self }
            },
            Stage::Opening => if reply is Done {
                LockSession { stage: Stage::Locking, ..self }
            } else {
                LockSession { stage: Stage::Finished, failed: self.noting(Request::Open), ..self }
            },
            Stage::Locking => if reply is Done {
                LockSession {
                    stage: if self.purpose is Write {
                        Stage::Writing
                    } else {
                        Stage::Reading
                    },
                    ..self
                }
            } else {
                LockSession {
                    stage: Stage::Finished,
                    failed: self.noting(self.pending()->0),
                    ..self
                }
            },
            Stage::Reading => if reply is Done {
                LockSession {
                    stage: if self.purpose is Update {
                        Stage::Writing
                    } else {
                        Stage::Unlocking
                    },
                    ..self
                }
            } else {
                LockSession {
                    stage: Stage::Unlocking,
                    failed: self.noting(Request::ReadAll),
                    ..self
                }
            },
            Stage::Writing => if reply is Done {
                LockSession { stage: Stage::Unlocking, ..self }
            } else {
                LockSession {
                    stage: Stage::Unlocking,
                    failed: self.noting(Request::WriteAll),
                    ..self
                }
            },
            Stage::Unlocking => if reply is Done {
                LockSession { stage: Stage::Finished, ..self }
            } else {
                LockSession {
                    stage: Stage::Finished,
                    failed: self.noting(Request::Unlock),
                    ..self
                }
            },
            Stage::Finished => self,
        }
    }

    /// The session after each of `replies`, in order.
    pub open spec fn after_all(self, replies: Seq<Reply>) -> LockSession
        decreases replies.len(),
    {
        if replies.len() == 0 {
            self
        } else {
            self.after_all(replies.drop_last()).after(replies.last())
        }
    }

    /// How many requests the session can still make, at most.
    pub open spec fn steps_left(self) -> nat {
        match self.stage {
            Stage::Probing => 6,
            Stage::Opening => 5,
            Stage::Locking => 4,
            Stage::Reading => 3,
            Stage::Writing => 2,
            Stage::Unlocking => 1,
            Stage::Finished => 0,
        }
    }

    /// Starts a session and names its first request.
    pub fn start(purpose: Purpose) -> (begun: (LockSession, Request))
        ensures
            begun.0 == LockSession::started(purpose),
            begun.0.pending() == Some(begun.1),
    {
        match purpose {
            Purpose::Read => (
                LockSession { purpose, stage: Stage::Probing, failed: None, absent: false },
                Request::Probe,
            ),
            _ => (
                LockSession { purpose, stage: Stage::Opening, failed: None, absent: false },
                Request::Open,
            ),
        }
    }

    /// The request that the session waits for; `None` at the end.
    pub fn next_request(&self) -> (request: Option<Request>)
        ensures
            request == self.pending(),
    {
        match self.stage {
            Stage::Probing => Some(Request::Probe),
            Stage::Opening => Some(Request::Open),
            Stage::Locking => match self.purpose {
                Purpose::Read => Some(Request::LockShared),
                _ => Some(Request::LockExclusive),
            },
            Stage::Reading => Some(Request::ReadAll),
            Stage::Writing => Some(Request::WriteAll),
            Stage::Unlocking => Some(Request::Unlock),
            Stage::Finished => None,
        }
    }

    /// Takes the reply to the pending request and names the next request;
    /// `None` when the session is at its end. A failure before the lock is
    /// held ends the session; a failure under the lock leads to the release
    /// of the lock first.
    pub fn advance(&mut self, reply: Reply) -> (request: Option<Request>)
        ensures
            *final(self) == old(self).after(reply),
            request == final(self).pending(),
    {
        let done = match reply {
            Reply::Done => true,
            _ => false,
        };
        match self.stage {
            Stage::Probing => {
                if done {
                    self.stage = Stage::Opening;
                } else {
                    self.stage = Stage::Finished;
                    self.absent = true;
                }
            },
            Stage::Opening => {
                if done {
                    self.stage = Stage::Locking;
                } else {
                    self.note(Request::Open);
                    self.stage = Stage::Finished;
                }
            },
            Stage::Locking => {
                if done {
                    self.stage = match self.purpose {
                        Purpose::Write => Stage::Writing,
                        _ => Stage::Reading,
                    };
                } else {
                    let asked = match self.purpose {
                        Purpose::Read => Request::LockShared,
                        _ => Request::LockExclusive,
                    };
                    self.note(asked);
                    self.stage = Stage::Finished;
                }
            },
            Stage::Reading => {
                if done {
                    self.stage = match self.purpose {
                        Purpose::Update => Stage::Writing,
                        _ => Stage::Unlocking,
                    };
                } else {
                    self.note(Request::ReadAll);
                    self.stage = Stage::Unlocking;
                }
            },
            Stage::Writing => {
                if !done {
                    self.note(Request::WriteAll);
                }
                self.stage = Stage::Unlocking;
            },
            Stage::Unlocking => {
                if !done {
                    self.note(Request::Unlock);
                }
                self.stage = Stage::Finished;
            },
            Stage::Finished => {},
        }
        self.next_request()
    }

    /// Keeps `request` as the failure, unless one is kept already.
    fn note(&mut self, request: Request)
        ensures
            *final(self) == (LockSession { failed: old(self).noting(request), ..*old(self) }),
    {
        if self.failed.is_none() {
            self.failed = Some(request);
        }
    }

    /// Whether the session is at its end.
    pub fn is_finished(&self) -> (finished: bool)
        ensures
            finished == (self.stage is Finished),
            finished == (self.pending() is None),
    {
        match self.stage {
            Stage::Finished => true,
            _ => false,
        }
    }
}

/// The lock is taken by nothing but a lock request that succeeded.
pub proof fn lemma_lock_taken_by_request(session: LockSession, reply: Reply)
    requires
        !session.holds_lock(),
        session.after(reply).holds_lock(),
    ensures
        session.stage is Locking,
        reply is Done,
        session.pending() == Some(Request::LockShared) || session.pending() == Some(
            Request::LockExclusive,
        ),
{
}

/// Under the lock every step leads to another request, failed or not, until
/// the release of the lock has been asked for: only the reply to that request
/// ends the session, and it ends it whatever the reply.
pub proof fn lemma_lock_released_before_end(session: LockSession, reply: Reply)
    requires
        session.holds_lock(),
    ensures
        session.stage is Unlocking ==> session.after(reply).stage is Finished,
        !(session.stage is Unlocking) ==> session.after(reply).holds_lock(),
        !(session.stage is Unlocking) && !(reply is Done) ==> session.after(reply).pending()
            == Some(Request::Unlock),
{
}

/// On every path to its end a session releases the lock it took: where the
/// lock is held after some of the replies and the session is over after all
/// of them, the release of the lock was asked for in between.
pub proof fn lemma_lock_released_on_every_path(
    purpose: Purpose,
    replies: Seq<Reply>,
    held_at: int,
)
    requires
        0 <= held_at <= replies.len(),
        LockSession::started(purpose).after_all(replies.take(held_at)).holds_lock(),
        LockSession::started(purpose).after_all(replies).stage is Finished,
    ensures
        exists|asked_at: int|
            held_at <= asked_at < replies.len() && LockSession::started(purpose).after_all(
                #[trigger] replies.take(asked_at),
            ).pending() == Some(Request::Unlock),
    decreases replies.len() - held_at,
{
    let held = LockSession::started(purpose).after_all(replies.take(held_at));
    assert(replies.take(replies.len() as int) =~= replies);
    assert(held_at < replies.len());
    if held.stage is Unlocking {
        assert(LockSession::started(purpose).after_all(replies.take(held_at)).pending() == Some(
            Request::Unlock,
        ));
    } else {
        let longer = replies.take(held_at + 1);
        assert(longer.drop_last() =~= replies.take(held_at));
        assert(longer.last() == replies[held_at]);
        lemma_lock_released_before_end(held, replies[held_at]);
        lemma_lock_released_on_every_path(purpose, replies, held_at + 1);
    }
}

/// Content is written under an exclusive lock only: a session that asks for a
/// write holds the lock and is not one for reading.
pub proof fn lemma_write_under_exclusive_lock(purpose: Purpose, replies: Seq<Reply>)
    ensures
        LockSession::started(purpose).after_all(replies).purpose == purpose,
        LockSession::started(purpose).after_all(replies).pending() == Some(Request::WriteAll)
            ==> !(purpose is Read) && LockSession::started(purpose).after_all(
            replies,
        ).holds_lock(),
    decreases replies.len(),
{
    if replies.len() > 0 {
        lemma_write_under_exclusive_lock(purpose, replies.drop_last());
    }
}

/// An update reads and writes under one lock: once its read has succeeded
/// the write is asked for next, with the lock still held.
pub proof fn lemma_update_under_one_lock(session: LockSession)
    requires
        session.purpose is Update,
        session.pending() == Some(Request::ReadAll),
    ensures
        session.holds_lock(),
        session.after(Reply::Done).pending() == Some(Request::WriteAll),
        session.after(Reply::Done).holds_lock(),
{
}

/// Every reply brings a session nearer to its end.
pub proof fn lemma_step_nears_end(session: LockSession, reply: Reply)
    requires
        !(session.stage is Finished),
    ensures
        session.after(reply).steps_left() < session.steps_left(),
{
}

/// Six replies end any session.
pub proof fn lemma_ends_within_six(purpose: Purpose, replies: Seq<Reply>)
    ensures
        LockSession::started(purpose).after_all(replies).steps_left() + replies.len() <= 6
            || LockSession::started(purpose).after_all(replies).stage is Finished,
        replies.len() >= 6 ==> LockSession::started(purpose).after_all(replies).stage
            is Finished,
    decreases replies.len(),
{
    if replies.len() > 0 {
        let before = LockSession::started(purpose).after_all(replies.drop_last());
        lemma_ends_within_six(purpose, replies.drop_last());
        if !(before.stage is Finished) {
            lemma_step_nears_end(before, replies.last());
        }
    }
}

} // verus!
