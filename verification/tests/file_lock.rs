use authencore::file_lock::{LockSession, Purpose, Reply, Request, Stage};

fn requests(purpose: Purpose, replies: &[Reply]) -> Vec<Request> {
    let (mut session, first) = LockSession::start(purpose);
    let mut asked = vec![first];
    for reply in replies {
        match session.advance(*reply) {
            Some(request) => asked.push(request),
            None => break,
        }
    }
    asked
}

#[test]
fn read_probes_opens_locks_reads_and_unlocks() {
    let all_done = [Reply::Done; 5];
    assert_eq!(
        requests(Purpose::Read, &all_done),
        vec![Request::Probe, Request::Open, Request::LockShared, Request::ReadAll, Request::Unlock]
    );
}

#[test]
fn write_opens_locks_writes_and_unlocks() {
    let all_done = [Reply::Done; 4];
    assert_eq!(
        requests(Purpose::Write, &all_done),
        vec![Request::Open, Request::LockExclusive, Request::WriteAll, Request::Unlock]
    );
}

#[test]
fn update_reads_and_writes_under_one_lock() {
    let all_done = [Reply::Done; 5];
    assert_eq!(
        requests(Purpose::Update, &all_done),
        vec![
            Request::Open,
            Request::LockExclusive,
            Request::ReadAll,
            Request::WriteAll,
            Request::Unlock
        ]
    );
}

#[test]
fn absent_file_ends_a_read_at_once() {
    let (mut session, first) = LockSession::start(Purpose::Read);
    assert_eq!(first, Request::Probe);
    assert_eq!(session.advance(Reply::Absent), None);
    assert!(session.is_finished());
    assert!(session.absent);
    assert_eq!(session.failed, None);
}

#[test]
fn failure_before_the_lock_ends_the_session() {
    let (mut session, _) = LockSession::start(Purpose::Write);
    assert_eq!(session.advance(Reply::Failed), None);
    assert_eq!(session.failed, Some(Request::Open));
    let (mut session, _) = LockSession::start(Purpose::Write);
    assert_eq!(session.advance(Reply::Done), Some(Request::LockExclusive));
    assert_eq!(session.advance(Reply::Failed), None);
    assert_eq!(session.failed, Some(Request::LockExclusive));
    let (mut session, _) = LockSession::start(Purpose::Read);
    session.advance(Reply::Done);
    session.advance(Reply::Done);
    assert_eq!(session.advance(Reply::Failed), None);
    assert_eq!(session.failed, Some(Request::LockShared));
}

#[test]
fn failure_under_the_lock_leads_to_unlock() {
    assert_eq!(
        requests(Purpose::Read, &[Reply::Done, Reply::Done, Reply::Done, Reply::Failed, Reply::Done]),
        vec![Request::Probe, Request::Open, Request::LockShared, Request::ReadAll, Request::Unlock]
    );
    assert_eq!(
        requests(Purpose::Write, &[Reply::Done, Reply::Done, Reply::Failed, Reply::Done]),
        vec![Request::Open, Request::LockExclusive, Request::WriteAll, Request::Unlock]
    );
    assert_eq!(
        requests(Purpose::Update, &[Reply::Done, Reply::Done, Reply::Failed, Reply::Done]),
        vec![Request::Open, Request::LockExclusive, Request::ReadAll, Request::Unlock]
    );
}

#[test]
fn failed_read_of_an_update_writes_nothing() {
    let (mut session, _) = LockSession::start(Purpose::Update);
    session.advance(Reply::Done);
    session.advance(Reply::Done);
    assert_eq!(session.advance(Reply::Failed), Some(Request::Unlock));
    assert_eq!(session.advance(Reply::Done), None);
    assert_eq!(session.failed, Some(Request::ReadAll));
    assert_eq!(session.stage, Stage::Finished);
}

#[test]
fn finished_session_stays_finished() {
    let (mut session, _) = LockSession::start(Purpose::Write);
    for _ in 0..4 {
        session.advance(Reply::Done);
    }
    assert!(session.is_finished());
    let before = session;
    assert_eq!(session.advance(Reply::Failed), None);
    assert_eq!(session.advance(Reply::Done), None);
    assert_eq!(session, before);
    assert_eq!(session.next_request(), None);
}

#[test]
fn six_replies_end_every_session() {
    for purpose in [Purpose::Read, Purpose::Write, Purpose::Update] {
        for pattern in 0..729u32 {
            let (mut session, _) = LockSession::start(purpose);
            let mut rest = pattern;
            let mut held = false;
            for _ in 0..6 {
                let reply = match rest % 3 {
                    0 => Reply::Done,
                    1 => Reply::Absent,
                    _ => Reply::Failed,
                };
                rest /= 3;
                let before = session.next_request();
                let next = session.advance(reply);
                if matches!(before, Some(Request::LockShared) | Some(Request::LockExclusive))
                    && reply == Reply::Done
                {
                    held = true;
                }
                if before == Some(Request::Unlock) {
                    held = false;
                }
                if next.is_none() {
                    assert!(!held);
                }
                if next == Some(Request::WriteAll) {
                    assert!(held);
                    assert!(purpose != Purpose::Read);
                }
            }
            assert!(session.is_finished());
        }
    }
}
