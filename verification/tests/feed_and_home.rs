use mercato::feed::{display_name_or_handle, newest_first_order};
use mercato::home::{home_next, or_empty, HomeAction, HomeEvent, HomeFailure, HomeState, ProfileResult};

#[test]
fn newest_first_sorts_descending() {
    let created = vec![(10, 0), (30, 0), (20, 5), (20, 1)];
    assert_eq!(newest_first_order(&created), vec![1, 2, 3, 0]);
}

#[test]
fn newest_first_ties_reverse_input_order() {
    let created = vec![(5, 0), (7, 0), (5, 0), (7, 0)];
    assert_eq!(newest_first_order(&created), vec![3, 1, 2, 0]);
}

#[test]
fn newest_first_matches_stable_sort_then_reverse() {
    let created: Vec<(i64, u32)> = vec![(3, 1), (-2, 0), (3, 1), (3, 0), (0, 9), (-2, 0), (8, 8)];
    let mut idx: Vec<usize> = (0..created.len()).collect();
    idx.sort_by_key(|i| created[*i]);
    idx.reverse();
    assert_eq!(newest_first_order(&created), idx);
}

#[test]
fn newest_first_empty() {
    assert_eq!(newest_first_order(&vec![]), Vec::<usize>::new());
}

#[test]
fn display_name_prefers_profile_name() {
    assert_eq!(display_name_or_handle(Some("Ann".to_string()), "ann.bsky.social".to_string()), "Ann");
    assert_eq!(display_name_or_handle(None, "ann.bsky.social".to_string()), "ann.bsky.social");
}

fn run(events: &[HomeEvent]) -> (HomeState, Vec<HomeAction>) {
    let mut state = HomeState::Idle;
    let mut actions = Vec::new();
    for e in events {
        let (s, a) = home_next(state, *e);
        state = s;
        actions.push(a);
    }
    (state, actions)
}

fn start(statuses_ok: bool) -> Vec<HomeEvent> {
    vec![HomeEvent::Start, HomeEvent::RecentStatusesLoaded { ok: statuses_ok }]
}

#[test]
fn home_signed_out_renders() {
    let mut ev = start(true);
    ev.push(HomeEvent::SessionRead { signed_in: false });
    ev.push(HomeEvent::RecentListingsLoaded { ok: true });
    let (s, a) = run(&ev);
    assert_eq!(s, HomeState::Done);
    assert_eq!(
        a,
        vec![
            HomeAction::LoadRecentStatuses,
            HomeAction::ReadSession,
            HomeAction::LoadRecentListings,
            HomeAction::RenderSignedOut,
        ]
    );
}

#[test]
fn home_failed_feed_loads_still_render() {
    let mut ev = start(false);
    ev.push(HomeEvent::SessionRead { signed_in: false });
    ev.push(HomeEvent::RecentListingsLoaded { ok: false });
    let (s, a) = run(&ev);
    assert_eq!(s, HomeState::Done);
    assert_eq!(a[3], HomeAction::RenderSignedOut);
    let shown: Vec<u8> = or_empty::<u8, &str>(Err("database unavailable"));
    assert!(shown.is_empty());
    assert_eq!(or_empty::<u8, &str>(Ok(vec![1, 2])), vec![1, 2]);
}

#[test]
fn home_signed_in_renders_profile() {
    let mut ev = start(true);
    ev.extend([
        HomeEvent::SessionRead { signed_in: true },
        HomeEvent::SessionRestored { ok: true },
        HomeEvent::StatusLoaded { ok: true },
        HomeEvent::ProfileLoaded { result: ProfileResult::Loaded },
        HomeEvent::RecentListingsLoaded { ok: false },
    ]);
    let (s, a) = run(&ev);
    assert_eq!(s, HomeState::Done);
    assert_eq!(
        a,
        vec![
            HomeAction::LoadRecentStatuses,
            HomeAction::ReadSession,
            HomeAction::RestoreSession,
            HomeAction::LoadCurrentStatus,
            HomeAction::LoadProfile,
            HomeAction::LoadRecentListings,
            HomeAction::RenderSignedIn,
        ]
    );
}

#[test]
fn home_restore_failure_flushes_then_fails() {
    let mut ev = start(true);
    ev.extend([
        HomeEvent::SessionRead { signed_in: true },
        HomeEvent::SessionRestored { ok: false },
        HomeEvent::SessionFlushed { ok: true },
    ]);
    let (_, a) = run(&ev);
    assert_eq!(a[3], HomeAction::FlushSession);
    assert_eq!(a[4], HomeAction::Fail(HomeFailure::Restore));
    let mut ev = start(true);
    ev.extend([
        HomeEvent::SessionRead { signed_in: true },
        HomeEvent::SessionRestored { ok: false },
        HomeEvent::SessionFlushed { ok: false },
    ]);
    let (_, a) = run(&ev);
    assert_eq!(a[4], HomeAction::Fail(HomeFailure::Flush));
}

#[test]
fn home_invalid_auth_flushes_and_renders_signed_out() {
    let mut ev = start(true);
    ev.extend([
        HomeEvent::SessionRead { signed_in: true },
        HomeEvent::SessionRestored { ok: true },
        HomeEvent::StatusLoaded { ok: true },
        HomeEvent::ProfileLoaded { result: ProfileResult::AuthenticationInvalid },
        HomeEvent::SessionFlushed { ok: true },
        HomeEvent::RecentListingsLoaded { ok: true },
    ]);
    let (s, a) = run(&ev);
    assert_eq!(s, HomeState::Done);
    assert_eq!(a[5], HomeAction::FlushSession);
    assert_eq!(a[6], HomeAction::LoadRecentListings);
    assert_eq!(a[7], HomeAction::RenderSignedOut);
}

#[test]
fn home_other_errors_fail() {
    let mut ev = start(true);
    ev.push(HomeEvent::SessionReadFailed);
    let (_, a) = run(&ev);
    assert_eq!(a[2], HomeAction::Fail(HomeFailure::SessionRead));
    let mut ev = start(true);
    ev.extend([
        HomeEvent::SessionRead { signed_in: true },
        HomeEvent::SessionRestored { ok: true },
        HomeEvent::StatusLoaded { ok: false },
    ]);
    let (_, a) = run(&ev);
    assert_eq!(a[4], HomeAction::Fail(HomeFailure::Status));
    let mut ev = start(true);
    ev.extend([
        HomeEvent::SessionRead { signed_in: true },
        HomeEvent::SessionRestored { ok: true },
        HomeEvent::StatusLoaded { ok: true },
        HomeEvent::ProfileLoaded { result: ProfileResult::Failed },
    ]);
    let (_, a) = run(&ev);
    assert_eq!(a[5], HomeAction::Fail(HomeFailure::Profile));
}

#[test]
fn home_ignores_out_of_order_events_and_stays_done() {
    assert_eq!(home_next(HomeState::Idle, HomeEvent::StatusLoaded { ok: true }), (HomeState::Idle, HomeAction::Ignore));
    assert_eq!(home_next(HomeState::Done, HomeEvent::Start), (HomeState::Done, HomeAction::Ignore));
}
