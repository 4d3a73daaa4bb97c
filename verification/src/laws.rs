//! What holds of every run: how often it refreshes, how often it checks in,
//! and when it touches the cookie file.
//!
//! A run is recorded as the steps it took, each with the event that came in,
//! the state it led to and the action it asked for. [`is_run`] says that a
//! record is one that [`run_step`](crate::orchestrator::run_step) can
//! produce from the start.

use crate::account::{checkin_result, Credentials};
use crate::error::CheckinError;
use crate::orchestrator::{file_text, run_moves, usable_cookie, RunAction, RunEvent, RunState};
use vstd::prelude::*;

verus! {

/// One step of a run as it happened.
pub struct RunStep {
    /// What the driver reported.
    pub event: RunEvent,
    /// The state the step led to.
    pub post: RunState,
    /// The action the step asked for.
    pub action: RunAction,
}

/// The kinds of work a run asks for.
#[derive(Clone, Copy, Debug, PartialEq, Eq, Structural)]
pub enum Work {
    ReadCookieFile,
    Checkin,
    Refresh,
    Login,
    WriteCookieFile,
    Exit,
}

/// The kind of work that an action asks for.
pub open spec fn work_of(action: RunAction) -> Work {
    match action {
        RunAction::ReadCookieFile => Work::ReadCookieFile,
        RunAction::SendCheckin(_) => Work::Checkin,
        RunAction::SolveChallenge => Work::Refresh,
        RunAction::SendLogin(_) => Work::Login,
        RunAction::WriteCookieFile(_) => Work::WriteCookieFile,
        RunAction::Exit => Work::Exit,
    }
}

/// The state in which step `i` begins: `Loading` for the first, and for
/// every other the state that the step before led to.
pub open spec fn state_before(steps: Seq<RunStep>, i: int) -> RunState {
    if i <= 0 {
        RunState::Loading
    } else {
        steps[i - 1].post
    }
}

/// The steps are a run of `account` from the start: each follows from the
/// state before it by [`run_moves`].
pub open spec fn is_run(account: Credentials, steps: Seq<RunStep>) -> bool {
    forall|i: int|
        0 <= i < steps.len() ==> run_moves(
            account,
            state_before(steps, i),
            (#[trigger] steps[i]).event,
            steps[i].post,
            steps[i].action,
        )
}

/// How many of the steps ask for work of kind `work`.
pub open spec fn count(steps: Seq<RunStep>, work: Work) -> nat
    decreases steps.len(),
{
    if steps.len() == 0 {
        0
    } else {
        count(steps.drop_last(), work) + if work_of(steps.last().action) == work {
            1nat
        } else {
            0nat
        }
    }
}

/// 1 where the run's first step sent a check-in, 0 where it did not.
pub open spec fn first_attempts(steps: Seq<RunStep>) -> nat {
    if steps.len() > 0 && work_of(steps[0].action) == Work::Checkin {
        1
    } else {
        0
    }
}

/// A check-in reply that ends a run in success.
pub open spec fn is_good_reply(event: RunEvent) -> bool {
    event matches RunEvent::CheckinReply { status, reply } && checkin_result(status, reply) is Ok
}

/// What the state at the end of a run says of the work done on the way.
spec fn tally(steps: Seq<RunStep>) -> bool {
    let refreshes = count(steps, Work::Refresh);
    let checkins = count(steps, Work::Checkin);
    let writes = count(steps, Work::WriteCookieFile);
    let first = first_attempts(steps);
    match state_before(steps, steps.len() as int) {
        RunState::Loading => steps.len() == 0 && refreshes == 0 && checkins == 0 && writes == 0,
        RunState::FirstCheckin => first == 1 && refreshes == 0 && checkins == 1 && writes == 0,
        RunState::Solving => refreshes == 1 && checkins == first && writes == 0,
        RunState::LoggingIn { .. } => refreshes == 1 && checkins == first && writes == 0,
        RunState::Saving { .. } => refreshes == 1 && checkins == first && writes == 1,
        RunState::Retrying => refreshes == 1 && checkins == first + 1 && writes == 1,
        RunState::Finished { .. } => {
            &&& refreshes <= 1
            &&& writes <= refreshes
            &&& first <= checkins <= first + writes
        },
    }
}

/// Every step takes an unfinished run further, and none leads from the
/// refresh back to the first attempt. A finished run stays as it is.
pub proof fn lemma_step_advances(
    account: Credentials,
    pre: RunState,
    event: RunEvent,
    post: RunState,
    action: RunAction,
)
    requires
        run_moves(account, pre, event, post, action),
    ensures
        pre is Finished ==> post == pre && action is Exit,
        !(pre is Finished) ==> pre.rank() < post.rank(),
        post.phase() is Attempting ==> pre.phase() is Attempting,
{
}

/// A run cut short is a run.
pub proof fn lemma_prefix_is_run(account: Credentials, steps: Seq<RunStep>, n: int)
    requires
        is_run(account, steps),
        0 <= n <= steps.len(),
    ensures
        is_run(account, steps.take(n)),
        state_before(steps.take(n), n) == state_before(steps, n),
{
    let prefix = steps.take(n);
    assert forall|i: int| 0 <= i < prefix.len() implies run_moves(
        account,
        state_before(prefix, i),
        (#[trigger] prefix[i]).event,
        prefix[i].post,
        prefix[i].action,
    ) by {
        assert(prefix[i] == steps[i]);
        assert(state_before(prefix, i) == state_before(steps, i));
    }
}

proof fn lemma_tally(account: Credentials, steps: Seq<RunStep>)
    requires
        is_run(account, steps),
    ensures
        tally(steps),
    decreases steps.len(),
{
    if steps.len() > 0 {
        let n = steps.len() - 1;
        let before = steps.drop_last();
        assert(before =~= steps.take(n));
        lemma_prefix_is_run(account, steps, n);
        lemma_tally(account, before);
        let last = steps[n];
        assert(run_moves(account, state_before(steps, n), last.event, last.post, last.action));
        assert(state_before(before, n) == state_before(steps, n));
        assert(state_before(steps, steps.len() as int) == last.post);
        if n > 0 {
            assert(before[0] == steps[0]);
        }
    }
}

/// Counting over a run is counting over its beginning and adding the rest.
pub proof fn lemma_count_grows(steps: Seq<RunStep>, n: int, work: Work)
    requires
        0 <= n <= steps.len(),
    ensures
        count(steps.take(n), work) <= count(steps, work),
    decreases steps.len() - n,
{
    if n == steps.len() {
        assert(steps.take(n) =~= steps);
    } else {
        lemma_count_grows(steps.drop_last(), n, work);
        assert(steps.drop_last().take(n) =~= steps.take(n));
    }
}

/// Once a run has finished it stays finished, with the same outcome, and
/// asks for nothing more.
pub proof fn lemma_finished_stays(account: Credentials, steps: Seq<RunStep>, k: int, i: int)
    requires
        is_run(account, steps),
        0 <= k <= i < steps.len(),
        state_before(steps, k) is Finished,
    ensures
        steps[i].post == state_before(steps, k),
        steps[i].action is Exit,
    decreases i - k,
{
    if i > k {
        lemma_finished_stays(account, steps, k, i - 1);
    }
    assert(run_moves(
        account,
        state_before(steps, i),
        steps[i].event,
        steps[i].post,
        steps[i].action,
    ));
}

/// Steps that ask for nothing but the exit add nothing to a count of other
/// work.
pub proof fn lemma_count_after_exit(steps: Seq<RunStep>, k: int, work: Work)
    requires
        0 <= k <= steps.len(),
        work != Work::Exit,
        forall|i: int| k <= i < steps.len() ==> (#[trigger] steps[i]).action is Exit,
    ensures
        count(steps, work) == count(steps.take(k), work),
    decreases steps.len() - k,
{
    if k == steps.len() {
        assert(steps.take(k) =~= steps);
    } else {
        let before = steps.drop_last();
        assert forall|i: int| k <= i < before.len() implies (#[trigger] before[i]).action is Exit by {
            assert(before[i] == steps[i]);
        }
        lemma_count_after_exit(before, k, work);
        assert(before.take(k) =~= steps.take(k));
        assert(steps.last() == steps[steps.len() - 1]);
    }
}

/// In every run the challenge is solved at most once and the check-in sent
/// at most twice: once at the start, and once more only after a fresh
/// session cookie has been written. The cookie file is written at most
/// once, and only in a run that went for a refresh.
pub proof fn lemma_one_refresh_one_retry(account: Credentials, steps: Seq<RunStep>)
    requires
        is_run(account, steps),
    ensures
        count(steps, Work::Refresh) <= 1,
        count(steps, Work::WriteCookieFile) <= count(steps, Work::Refresh),
        count(steps, Work::Checkin) <= first_attempts(steps) + count(steps, Work::WriteCookieFile),
        count(steps, Work::Checkin) <= 2,
{
    lemma_tally(account, steps);
}

/// From the step that turns a run to the refresh onwards, the check-in is
/// sent at most once more, and the challenge is not solved again.
pub proof fn lemma_one_checkin_after_refresh(account: Credentials, steps: Seq<RunStep>, i: int)
    requires
        is_run(account, steps),
        0 <= i < steps.len(),
        steps[i].action is SolveChallenge,
    ensures
        count(steps, Work::Refresh) == 1,
        count(steps.take(i + 1), Work::Refresh) == 1,
        count(steps, Work::Checkin) <= count(steps.take(i + 1), Work::Checkin) + 1,
{
    let upto = steps.take(i + 1);
    lemma_prefix_is_run(account, steps, i + 1);
    lemma_tally(account, upto);
    lemma_tally(account, steps);
    lemma_count_grows(steps, i + 1, Work::Refresh);
    assert(run_moves(
        account,
        state_before(steps, i),
        steps[i].event,
        steps[i].post,
        steps[i].action,
    ));
    assert(state_before(upto, i + 1) == steps[i].post);
    assert(steps[i].post is Solving);
    assert(upto[0] == steps[0]);
}

/// Where the cookie on file is usable and the check-in under it gets a good
/// reply, the run ends in success after these two steps and never goes for a
/// refresh.
pub proof fn lemma_good_cookie_needs_no_refresh(account: Credentials, steps: Seq<RunStep>)
    requires
        is_run(account, steps),
        steps.len() >= 2,
        steps[0].event matches RunEvent::CookieFile(contents) && usable_cookie(
            file_text(contents),
        ),
        is_good_reply(steps[1].event),
    ensures
        steps[0].action is SendCheckin,
        forall|i: int|
            1 <= i < steps.len() ==> (#[trigger] steps[i]).post == (RunState::Finished {
                outcome: Ok(()),
            }) && steps[i].action is Exit,
        count(steps, Work::Refresh) == 0,
        count(steps, Work::WriteCookieFile) == 0,
        count(steps, Work::Checkin) == 1,
{
    assert(run_moves(
        account,
        state_before(steps, 0),
        steps[0].event,
        steps[0].post,
        steps[0].action,
    ));
    assert(run_moves(
        account,
        state_before(steps, 1),
        steps[1].event,
        steps[1].post,
        steps[1].action,
    ));
    assert forall|i: int| 1 <= i < steps.len() implies (#[trigger] steps[i]).post == (
    RunState::Finished { outcome: Ok(()) }) && steps[i].action is Exit by {
        if i > 1 {
            lemma_finished_stays(account, steps, 2, i);
        }
    }
    lemma_prefix_is_run(account, steps, 1);
    lemma_tally(account, steps.take(1));
    assert(steps.take(1)[0] == steps[0]);
    lemma_count_after_exit(steps, 1, Work::Refresh);
    lemma_count_after_exit(steps, 1, Work::WriteCookieFile);
    lemma_count_after_exit(steps, 1, Work::Checkin);
}

/// Where the cookie file is missing or blank, the first thing the run does
/// with that news is to go for a refresh: no check-in is sent before it.
pub proof fn lemma_no_cookie_refreshes_first(account: Credentials, steps: Seq<RunStep>)
    requires
        is_run(account, steps),
        steps.len() >= 1,
        steps[0].event matches RunEvent::CookieFile(contents) && !usable_cookie(
            file_text(contents),
        ),
    ensures
        steps[0].action is SolveChallenge,
        count(steps.take(1), Work::Checkin) == 0,
        count(steps, Work::Refresh) == 1,
        count(steps, Work::Checkin) <= 1,
{
    assert(run_moves(
        account,
        state_before(steps, 0),
        steps[0].event,
        steps[0].post,
        steps[0].action,
    ));
    lemma_one_checkin_after_refresh(account, steps, 0);
    lemma_prefix_is_run(account, steps, 1);
    lemma_tally(account, steps.take(1));
    assert(steps.take(1)[0] == steps[0]);
}

/// Where the first check-in does not get a good reply, whatever the reason,
/// the run goes for a refresh at once, does so exactly once, and sends the
/// check-in at most once more.
pub proof fn lemma_failed_checkin_refreshes_once(account: Credentials, steps: Seq<RunStep>)
    requires
        is_run(account, steps),
        steps.len() >= 2,
        steps[0].action is SendCheckin,
        !is_good_reply(steps[1].event),
    ensures
        steps[1].action is SolveChallenge,
        count(steps, Work::Refresh) == 1,
        count(steps, Work::Checkin) <= 2,
{
    assert(run_moves(
        account,
        state_before(steps, 0),
        steps[0].event,
        steps[0].post,
        steps[0].action,
    ));
    assert(run_moves(
        account,
        state_before(steps, 1),
        steps[1].event,
        steps[1].post,
        steps[1].action,
    ));
    lemma_one_checkin_after_refresh(account, steps, 1);
    lemma_one_refresh_one_retry(account, steps);
}

/// Where the challenge solver fails, the run ends in the solver's error and
/// the cookie file is never written.
pub proof fn lemma_failed_refresh_keeps_file(
    account: Credentials,
    steps: Seq<RunStep>,
    i: int,
    error: CheckinError,
)
    requires
        is_run(account, steps),
        0 <= i < steps.len(),
        state_before(steps, i) is Solving,
        steps[i].event == RunEvent::Challenge(Err(error)),
    ensures
        forall|j: int|
            i <= j < steps.len() ==> (#[trigger] steps[j]).post == (RunState::Finished {
                outcome: Err(error),
            }) && steps[j].action is Exit,
        count(steps, Work::WriteCookieFile) == 0,
{
    assert(run_moves(
        account,
        state_before(steps, i),
        steps[i].event,
        steps[i].post,
        steps[i].action,
    ));
    assert forall|j: int| i <= j < steps.len() implies (#[trigger] steps[j]).post == (
    RunState::Finished { outcome: Err(error) }) && steps[j].action is Exit by {
        if j > i {
            lemma_finished_stays(account, steps, i + 1, j);
        }
    }
    lemma_prefix_is_run(account, steps, i);
    lemma_tally(account, steps.take(i));
    lemma_count_after_exit(steps, i, Work::WriteCookieFile);
}

} // verus!
