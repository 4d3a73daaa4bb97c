use checkin_okxyz::challenge::{
    compose_challenge_cookie, find_clearance, fresh_challenge_cookie, solver_begin, solver_step,
    CookiePair, SolverAction, SolverEvent, SolverState, CF_CLEARANCE_NAME, COOKIE_EXPIRE_DAYS,
    IP_PLACEHOLDER, LINUX_BROWSER_PATH, POLL_INTERVAL_SECS, TIMEOUT_SECS,
};
use checkin_okxyz::CheckinError;

fn jar_cookie(name: &str, value: &str) -> CookiePair {
    CookiePair { name: name.to_string(), value: value.to_string() }
}

fn failed(error: CheckinError) -> (SolverState, SolverAction) {
    (SolverState::Done { result: Err(error) }, SolverAction::Finish)
}

/// Drives the solver up to its first look at the stopwatch.
fn solver_at_the_stopwatch() -> SolverState {
    let (state, action) = solver_begin();
    assert!(matches!(action, SolverAction::Launch(_)));
    let (state, action) = solver_step(state, SolverEvent::Completed);
    assert_eq!(action, SolverAction::OpenTab);
    let (state, action) = solver_step(state, SolverEvent::Completed);
    assert_eq!(action, SolverAction::Navigate("https://okti.xyz".to_string()));
    let (state, action) = solver_step(state, SolverEvent::Completed);
    assert_eq!(action, SolverAction::WaitUntilNavigated);
    let (state, action) = solver_step(state, SolverEvent::Completed);
    assert_eq!(action, SolverAction::StartTimer);
    let (state, action) = solver_step(state, SolverEvent::Completed);
    assert_eq!(action, SolverAction::ReadElapsed);
    assert_eq!(state, SolverState::Timing);
    state
}

#[test]
fn constants_are_the_sites() {
    assert_eq!(CF_CLEARANCE_NAME, "cf_clearance");
    assert_eq!(IP_PLACEHOLDER, "12704efe9702be1480f07823cef5222b");
    assert_eq!(COOKIE_EXPIRE_DAYS, 30);
    assert_eq!(TIMEOUT_SECS, 60);
    assert_eq!(POLL_INTERVAL_SECS, 2);
}

#[test]
fn clearance_cookie_is_found_by_name() {
    let jar = vec![jar_cookie("a", "1"), jar_cookie("cf_clearance", "tok"), jar_cookie("b", "2")];
    assert_eq!(find_clearance(&jar), Some(1));
}

#[test]
fn first_of_two_clearance_cookies_is_found() {
    let jar = vec![jar_cookie("cf_clearance", "one"), jar_cookie("cf_clearance", "two")];
    assert_eq!(find_clearance(&jar), Some(0));
}

#[test]
fn clearance_cookie_is_not_found_under_another_name() {
    assert_eq!(find_clearance(&Vec::new()), None);
    let jar = vec![jar_cookie("CF_CLEARANCE", "x"), jar_cookie("cf_clearance ", "y"), jar_cookie("", "z")];
    assert_eq!(find_clearance(&jar), None);
}

#[test]
fn challenge_cookie_has_three_parts() {
    assert_eq!(
        compose_challenge_cookie(&jar_cookie("cf_clearance", "abc"), 1_702_592_000),
        "cf_clearance=abc; ip=12704efe9702be1480f07823cef5222b; expire_in=1702592000"
    );
    assert_eq!(
        compose_challenge_cookie(&jar_cookie("n", ""), -5),
        "n=; ip=12704efe9702be1480f07823cef5222b; expire_in=-5"
    );
}

#[test]
fn fresh_challenge_cookie_expires_thirty_days_on() {
    assert_eq!(
        fresh_challenge_cookie(&jar_cookie("cf_clearance", "abc"), 1_700_000_000),
        "cf_clearance=abc; ip=12704efe9702be1480f07823cef5222b; expire_in=1702592000"
    );
    assert_eq!(
        fresh_challenge_cookie(&jar_cookie("cf_clearance", "t.o-k_en"), 0),
        "cf_clearance=t.o-k_en; ip=12704efe9702be1480f07823cef5222b; expire_in=2592000"
    );
}

#[test]
fn browser_is_started_headless_without_sandbox_or_gpu() {
    let (state, action) = solver_begin();
    assert_eq!(state, SolverState::Launching);
    match action {
        SolverAction::Launch(plan) => {
            assert!(plan.headless);
            assert!(!plan.sandbox);
            assert!(!plan.enable_gpu);
            assert_eq!(plan.linux_path, LINUX_BROWSER_PATH);
            assert_eq!(plan.linux_path, "/usr/bin/chromium");
        }
        other => panic!("unexpected action {:?}", other),
    }
}

#[test]
fn solver_finds_the_cookie_at_the_first_look() {
    let state = solver_at_the_stopwatch();
    let (state, action) = solver_step(state, SolverEvent::Elapsed(0));
    assert_eq!((&state, &action), (&SolverState::Reading, &SolverAction::ReadCookies));
    let jar = vec![jar_cookie("sid", "1"), jar_cookie("cf_clearance", "tok")];
    let (state, action) = solver_step(state, SolverEvent::Cookies(jar));
    assert_eq!(state, SolverState::Stamping { clearance: jar_cookie("cf_clearance", "tok") });
    assert_eq!(action, SolverAction::ReadClock);
    let (state, action) = solver_step(state, SolverEvent::Clock(1_700_000_000));
    assert_eq!(action, SolverAction::Finish);
    assert_eq!(
        state,
        SolverState::Done {
            result: Ok(
                "cf_clearance=tok; ip=12704efe9702be1480f07823cef5222b; expire_in=1702592000"
                    .to_string()
            )
        }
    );
}

#[test]
fn solver_sleeps_two_seconds_between_looks() {
    let state = solver_at_the_stopwatch();
    let (state, _) = solver_step(state, SolverEvent::Elapsed(0));
    let (state, action) = solver_step(state, SolverEvent::Cookies(vec![jar_cookie("sid", "1")]));
    assert_eq!((&state, &action), (&SolverState::Pausing, &SolverAction::Sleep(2)));
    let (state, action) = solver_step(state, SolverEvent::Completed);
    assert_eq!((&state, &action), (&SolverState::Timing, &SolverAction::ReadElapsed));
    let (state, action) = solver_step(state, SolverEvent::Elapsed(2));
    assert_eq!((&state, &action), (&SolverState::Reading, &SolverAction::ReadCookies));
    let (state, action) = solver_step(state, SolverEvent::Cookies(vec![jar_cookie("cf_clearance", "late")]));
    assert_eq!(state, SolverState::Stamping { clearance: jar_cookie("cf_clearance", "late") });
    assert_eq!(action, SolverAction::ReadClock);
}

#[test]
fn solver_gives_up_after_sixty_seconds() {
    let mut state = solver_at_the_stopwatch();
    let mut elapsed: u64 = 0;
    let mut looks: u32 = 0;
    loop {
        let (next, action) = solver_step(state, SolverEvent::Elapsed(elapsed));
        if action == SolverAction::Finish {
            state = next;
            break;
        }
        assert_eq!(action, SolverAction::ReadCookies);
        looks += 1;
        let (next, action) = solver_step(next, SolverEvent::Cookies(vec![jar_cookie("sid", "1")]));
        assert_eq!(action, SolverAction::Sleep(POLL_INTERVAL_SECS));
        elapsed += POLL_INTERVAL_SECS;
        let (next, action) = solver_step(next, SolverEvent::Completed);
        assert_eq!(action, SolverAction::ReadElapsed);
        state = next;
    }
    assert_eq!(elapsed, 60);
    assert_eq!(looks, 30);
    assert_eq!(state, SolverState::Done { result: Err(CheckinError::ChallengeNotFound) });
}

#[test]
fn deadline_is_sixty_seconds_sharp() {
    assert_eq!(
        solver_step(SolverState::Timing, SolverEvent::Elapsed(59)),
        (SolverState::Reading, SolverAction::ReadCookies)
    );
    assert_eq!(
        solver_step(SolverState::Timing, SolverEvent::Elapsed(60)),
        failed(CheckinError::ChallengeNotFound)
    );
    assert_eq!(
        solver_step(SolverState::Timing, SolverEvent::Elapsed(u64::MAX)),
        failed(CheckinError::ChallengeNotFound)
    );
}

#[test]
fn browser_failure_ends_the_solver() {
    assert_eq!(solver_step(SolverState::Launching, SolverEvent::Failed), failed(CheckinError::BrowserError));
    assert_eq!(solver_step(SolverState::OpeningTab, SolverEvent::Failed), failed(CheckinError::BrowserError));
    assert_eq!(solver_step(SolverState::Navigating, SolverEvent::Failed), failed(CheckinError::BrowserError));
    assert_eq!(solver_step(SolverState::Settling, SolverEvent::Failed), failed(CheckinError::BrowserError));
    assert_eq!(solver_step(SolverState::StartingTimer, SolverEvent::Failed), failed(CheckinError::BrowserError));
    assert_eq!(solver_step(SolverState::Timing, SolverEvent::Failed), failed(CheckinError::BrowserError));
    assert_eq!(solver_step(SolverState::Reading, SolverEvent::Failed), failed(CheckinError::BrowserError));
    assert_eq!(solver_step(SolverState::Pausing, SolverEvent::Failed), failed(CheckinError::BrowserError));
    assert_eq!(
        solver_step(SolverState::Stamping { clearance: jar_cookie("cf_clearance", "t") }, SolverEvent::Failed),
        failed(CheckinError::BrowserError)
    );
}

#[test]
fn answer_to_another_question_counts_as_failure() {
    assert_eq!(solver_step(SolverState::Launching, SolverEvent::Elapsed(1)), failed(CheckinError::BrowserError));
    assert_eq!(solver_step(SolverState::Reading, SolverEvent::Completed), failed(CheckinError::BrowserError));
    assert_eq!(solver_step(SolverState::Timing, SolverEvent::Clock(0)), failed(CheckinError::BrowserError));
    assert_eq!(
        solver_step(SolverState::Stamping { clearance: jar_cookie("cf_clearance", "t") }, SolverEvent::Elapsed(1)),
        failed(CheckinError::BrowserError)
    );
}

#[test]
fn finished_solver_stays_finished() {
    let done = SolverState::Done { result: Ok("c=1".to_string()) };
    let (state, action) = solver_step(done, SolverEvent::Completed);
    assert_eq!(state, SolverState::Done { result: Ok("c=1".to_string()) });
    assert_eq!(action, SolverAction::Finish);
    let (state, action) = solver_step(state, SolverEvent::Cookies(vec![jar_cookie("cf_clearance", "x")]));
    assert_eq!(state, SolverState::Done { result: Ok("c=1".to_string()) });
    assert_eq!(action, SolverAction::Finish);
    assert_eq!(
        solver_step(SolverState::Done { result: Err(CheckinError::ChallengeNotFound) }, SolverEvent::Failed),
        failed(CheckinError::ChallengeNotFound)
    );
}
