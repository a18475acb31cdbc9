use mercato::session::{session_next, SessionAction, SessionEvent, SessionFailure, SessionPolicy, SessionState};
use mercato::store::{
    delete_status_statement, load_latest_statuses_statement, save_status_from_jetstream_statement,
    save_status_optimistic_statement, SqlParam, DELETE_STATUS_SQL, LOAD_LATEST_STATUSES_SQL,
    SAVE_STATUS_FROM_JETSTREAM_SQL, SAVE_STATUS_OPTIMISTIC_SQL,
};

const PUBLISHING: SessionPolicy = SessionPolicy { required: true, flush_on_restore_failure: true };
const COMMENTING: SessionPolicy = SessionPolicy { required: true, flush_on_restore_failure: false };
const VIEWING: SessionPolicy = SessionPolicy { required: false, flush_on_restore_failure: false };

fn run(policy: SessionPolicy, events: &[SessionEvent]) -> (SessionState, Vec<SessionAction>) {
    let mut state = SessionState::Idle;
    let mut actions = Vec::new();
    for e in events {
        let (s, a) = session_next(policy, state, *e);
        state = s;
        actions.push(a);
    }
    (state, actions)
}

#[test]
fn signed_in_user_proceeds() {
    for p in [PUBLISHING, COMMENTING, VIEWING] {
        let (s, a) = run(p, &[SessionEvent::Start, SessionEvent::SessionRead { signed_in: true }, SessionEvent::SessionRestored { ok: true }]);
        assert_eq!(s, SessionState::Done);
        assert_eq!(a, vec![SessionAction::ReadSession, SessionAction::RestoreSession, SessionAction::ProceedSignedIn]);
    }
}

#[test]
fn visitor_without_session() {
    let (_, a) = run(PUBLISHING, &[SessionEvent::Start, SessionEvent::SessionRead { signed_in: false }]);
    assert_eq!(a[1], SessionAction::Fail(SessionFailure::NoSessionAuth));
    let (_, a) = run(VIEWING, &[SessionEvent::Start, SessionEvent::SessionRead { signed_in: false }]);
    assert_eq!(a[1], SessionAction::ProceedSignedOut);
}

#[test]
fn restore_failure_flushes_only_when_told() {
    let ev = [SessionEvent::Start, SessionEvent::SessionRead { signed_in: true }, SessionEvent::SessionRestored { ok: false }, SessionEvent::SessionFlushed { ok: true }];
    let (_, a) = run(PUBLISHING, &ev);
    assert_eq!(a[2], SessionAction::FlushSession);
    assert_eq!(a[3], SessionAction::Fail(SessionFailure::Restore));
    let (_, a) = run(COMMENTING, &ev);
    assert_eq!(a[2], SessionAction::Fail(SessionFailure::Restore));
    assert_eq!(a[3], SessionAction::Ignore);
    let (_, a) = run(PUBLISHING, &[SessionEvent::Start, SessionEvent::SessionRead { signed_in: true }, SessionEvent::SessionRestored { ok: false }, SessionEvent::SessionFlushed { ok: false }]);
    assert_eq!(a[3], SessionAction::Fail(SessionFailure::Flush));
}

#[test]
fn session_read_error_fails() {
    let (_, a) = run(VIEWING, &[SessionEvent::Start, SessionEvent::SessionReadFailed]);
    assert_eq!(a[1], SessionAction::Fail(SessionFailure::SessionRead));
}

fn text(p: &SqlParam) -> Option<String> {
    match p {
        SqlParam::Text(t) => Some(t.clone()),
        _ => None,
    }
}

#[test]
fn status_statements() {
    let (u, a, s) = ("at://d/xyz.statusphere.status/1".to_string(), "did:plc:d".to_string(), "🙂".to_string());
    let st = save_status_optimistic_statement(&u, &a, &s, (1, 0), (2, 0));
    assert_eq!(st.sql, SAVE_STATUS_OPTIMISTIC_SQL);
    assert_eq!(st.params.len(), 5);
    assert_eq!(text(&st.params[2]), Some("🙂".to_string()));
    let st = save_status_from_jetstream_statement(&u, &a, &s, (1, 0), (2, 0));
    assert_eq!(st.sql, SAVE_STATUS_FROM_JETSTREAM_SQL);
    assert_eq!(st.params.len(), 7);
    assert_eq!(text(&st.params[5]), Some("🙂".to_string()));
    assert!(matches!(st.params[6], SqlParam::Time((2, 0))));
    let st = delete_status_statement("x");
    assert_eq!(st.sql, DELETE_STATUS_SQL);
    assert_eq!(text(&st.params[0]), Some("x".to_string()));
    let st = load_latest_statuses_statement(20);
    assert_eq!(st.sql, LOAD_LATEST_STATUSES_SQL);
    assert!(matches!(st.params[..], [SqlParam::Count(20)]));
}
