//! What holds of every lookup, whatever the API answers and whoever else uses
//! the session meanwhile.
use crate::api_client::{
    backoff_ms, first_step, login_outcome, lookup_outcome, retry, ApiError, Attempt, AuthError,
    HttpReply, LockSession, LookupError, LookupStep, PostLogin, PostLookup, ReadSession,
    ReleaseSession, SnapshotSession, StoreSession, Turn, MAX_RETRIES,
};
use crate::laws::client::{law_listed_ids_are_found, law_statuses_are_told_apart};
use crate::text::decimal;
use vstd::prelude::*;

verus! {

/// What a lookup meets on its way: the session key that step `n` finds, and
/// the answers to the forms that step `n` posts.
pub struct World {
    pub session: spec_fn(nat) -> Option<Seq<char>>,
    pub lookup: spec_fn(nat) -> HttpReply<Seq<char>, Seq<Seq<char>>>,
    pub login: spec_fn(nat) -> HttpReply<Seq<char>, Seq<char>>,
}

/// The step that follows `step` when it is the `n`-th one in `world`.
pub open spec fn next_step(step: LookupStep<Seq<char>>, world: World, n: nat) -> LookupStep<
    Seq<char>,
> {
    match step {
        LookupStep::SnapshotSession(s) => s.after((world.session)(n)),
        LookupStep::ReadSession(s) => s.after((world.session)(n)),
        LookupStep::PostLookup(s) => s.after((world.lookup)(n)),
        LookupStep::LockSession(s) => s.after((world.session)(n)),
        LookupStep::ReleaseSession(s) => retry(s.run),
        LookupStep::PostLogin(s) => s.after((world.login)(n)),
        LookupStep::StoreSession(s) => retry(s.run),
        LookupStep::Backoff(s) => s.after(),
        LookupStep::Done(answer) => step,
    }
}

/// Where the lookup of `telegram_id` stands after `n` steps in `world`.
pub open spec fn step_at(telegram_id: i64, world: World, n: nat) -> LookupStep<Seq<char>>
    decreases n,
{
    if n == 0 {
        first_step(telegram_id)
    } else {
        next_step(
            step_at(telegram_id, world, (n - 1) as nat),
            world,
            (n - 1) as nat,
        )
    }
}

/// How many of the first `n` steps post a lookup form.
pub open spec fn lookups(telegram_id: i64, world: World, n: nat) -> nat
    decreases n,
{
    if n == 0 {
        0
    } else {
        let before = lookups(telegram_id, world, (n - 1) as nat);
        if step_at(telegram_id, world, (n - 1) as nat) is PostLookup {
            before + 1
        } else {
            before
        }
    }
}

/// How many of the first `n` steps post a login form.
pub open spec fn logins(telegram_id: i64, world: World, n: nat) -> nat
    decreases n,
{
    if n == 0 {
        0
    } else {
        let before = logins(telegram_id, world, (n - 1) as nat);
        if step_at(telegram_id, world, (n - 1) as nat) is PostLogin {
            before + 1
        } else {
            before
        }
    }
}

/// The delays that the first `n` steps wait, in order.
pub open spec fn delays(telegram_id: i64, world: World, n: nat) -> Seq<nat>
    decreases n,
{
    if n == 0 {
        Seq::empty()
    } else {
        let before = delays(telegram_id, world, (n - 1) as nat);
        match step_at(telegram_id, world, (n - 1) as nat) {
            LookupStep::Backoff(s) => before.push(s.delay_ms as nat),
            _ => before,
        }
    }
}

/// The first `k` delays of the backoff.
pub open spec fn backoff(k: nat) -> Seq<nat> {
    Seq::new(k, |i: int| backoff_ms(i as nat))
}

/// The attempt that a step belongs to.
pub open spec fn attempt_of(step: LookupStep<Seq<char>>) -> Option<Attempt> {
    match step {
        LookupStep::SnapshotSession(s) => Some(s.run),
        LookupStep::ReadSession(s) => Some(s.run),
        LookupStep::PostLookup(s) => Some(s.run),
        LookupStep::LockSession(s) => Some(s.run),
        LookupStep::ReleaseSession(s) => Some(s.run),
        LookupStep::PostLogin(s) => Some(s.run),
        LookupStep::StoreSession(s) => Some(s.run),
        LookupStep::Backoff(s) => Some(s.next),
        LookupStep::Done(answer) => None,
    }
}

/// How many steps an attempt can still take, from `step` on.
spec fn steps_of_attempt(step: LookupStep<Seq<char>>) -> nat {
    match step {
        LookupStep::Backoff(s) => 10,
        LookupStep::SnapshotSession(s) => 9,
        LookupStep::ReadSession(s) => if s.turn is Retry {
            3
        } else {
            8
        },
        LookupStep::PostLookup(s) => if s.turn is Retry {
            2
        } else {
            7
        },
        LookupStep::LockSession(s) => 6,
        LookupStep::PostLogin(s) => 5,
        LookupStep::ReleaseSession(s) => 4,
        LookupStep::StoreSession(s) => 4,
        LookupStep::Done(answer) => 0,
    }
}

/// How many lookup forms an attempt can still post, from `step` on.
spec fn lookups_of_attempt(step: LookupStep<Seq<char>>) -> nat {
    match step {
        LookupStep::Backoff(s) => 2,
        LookupStep::SnapshotSession(s) => 2,
        LookupStep::ReadSession(s) => if s.turn is Retry {
            1
        } else {
            2
        },
        LookupStep::PostLookup(s) => if s.turn is Retry {
            1
        } else {
            2
        },
        LookupStep::Done(answer) => 0,
        _ => 1,
    }
}

/// How many login forms an attempt can still post, from `step` on.
spec fn logins_of_attempt(step: LookupStep<Seq<char>>) -> nat {
    match step {
        LookupStep::Backoff(s) => 1,
        LookupStep::SnapshotSession(s) => 1,
        LookupStep::ReadSession(s) => if s.turn is Retry {
            0
        } else {
            1
        },
        LookupStep::PostLookup(s) => if s.turn is Retry {
            0
        } else {
            1
        },
        LookupStep::LockSession(s) => 1,
        LookupStep::PostLogin(s) => 1,
        _ => 0,
    }
}

/// What holds after every number of steps.
proof fn lemma_invariant(telegram_id: i64, world: World, n: nat)
    ensures
        ({
            let step = step_at(telegram_id, world, n);
            let run = attempt_of(step);
            &&& step !is Done ==> {
                &&& run == Some(Attempt { telegram_id, attempt: run->0.attempt })
                &&& run->0.attempt <= MAX_RETRIES
                &&& n + 9 * (MAX_RETRIES - run->0.attempt) + steps_of_attempt(step) <= 45
                &&& lookups(telegram_id, world, n) + 2 * (MAX_RETRIES - run->0.attempt)
                    + lookups_of_attempt(step) <= 10
                &&& logins(telegram_id, world, n) + (MAX_RETRIES - run->0.attempt)
                    + logins_of_attempt(step) <= 5
            }
            &&& match step {
                LookupStep::Backoff(s) => {
                    &&& s.next.attempt > 0
                    &&& s.delay_ms == backoff_ms((s.next.attempt - 1) as nat)
                    &&& delays(telegram_id, world, n) == backoff((s.next.attempt - 1) as nat)
                },
                LookupStep::Done(answer) => exists|k: nat|
                    k <= MAX_RETRIES && delays(telegram_id, world, n) == #[trigger] backoff(k),
                _ => delays(telegram_id, world, n) == backoff(run->0.attempt as nat),
            }
            &&& step is Done ==> lookups(telegram_id, world, n) <= 10
            &&& step is Done ==> logins(telegram_id, world, n) <= 5
        }),
    decreases n,
{
    reveal_with_fuel(backoff_ms, 6);
    if n == 0 {
        assert(delays(telegram_id, world, n) =~= backoff(0));
    } else {
        let m = (n - 1) as nat;
        lemma_invariant(telegram_id, world, m);
        let before = step_at(telegram_id, world, m);
        match before {
            LookupStep::Backoff(s) => {
                assert(backoff((s.next.attempt - 1) as nat).push(s.delay_ms as nat) =~= backoff(
                    s.next.attempt as nat,
                ));
            },
            LookupStep::Done(answer) => {},
            _ => {
                let k = attempt_of(before)->0.attempt as nat;
                assert(delays(telegram_id, world, n) == backoff(k));
            },
        }
    }
}

/// Every lookup is over after at most 45 steps.
pub proof fn law_lookup_ends(telegram_id: i64, world: World)
    ensures
        step_at(telegram_id, world, 45) is Done,
{
    lemma_invariant(telegram_id, world, 45);
}

/// However many steps were taken, a lookup posted at most two lookup forms and
/// one login form in each of its five attempts.
pub proof fn law_lookup_posts_are_bounded(telegram_id: i64, world: World, n: nat)
    ensures
        lookups(telegram_id, world, n) <= 2 * (MAX_RETRIES + 1),
        logins(telegram_id, world, n) <= MAX_RETRIES + 1,
{
    lemma_invariant(telegram_id, world, n);
}

/// The delays of a lookup are the first ones of 1 s, 2 s, 4 s and 8 s, in this
/// order.
pub proof fn law_lookup_delays_double(telegram_id: i64, world: World, n: nat)
    ensures
        delays(telegram_id, world, n).is_prefix_of(seq![1000nat, 2000, 4000, 8000]),
{
    reveal_with_fuel(backoff_ms, 5);
    lemma_invariant(telegram_id, world, n);
    let all = seq![1000nat, 2000, 4000, 8000];
    let step = step_at(telegram_id, world, n);
    let k: nat = match step {
        LookupStep::Backoff(s) => (s.next.attempt - 1) as nat,
        LookupStep::Done(answer) => choose|k: nat|
            k <= MAX_RETRIES && delays(telegram_id, world, n) == #[trigger] backoff(k),
        _ => attempt_of(step)->0.attempt as nat,
    };
    assert(delays(telegram_id, world, n) == backoff(k) && k <= 4);
    assert(backoff(k) =~= all.subrange(0, k as int));
}

/// An answer is never made up: where a lookup ends with `found`, one of its
/// lookup forms was answered with success, and `found` says whether that answer
/// lists the ID.
pub proof fn law_lookup_answer_is_the_apis(telegram_id: i64, world: World, n: nat, found: bool)
    requires
        step_at(telegram_id, world, n) == LookupStep::<Seq<char>>::Done(Ok(found)),
    ensures
        exists|k: nat|
            k < n && #[trigger] step_at(telegram_id, world, k) is PostLookup && lookup_outcome(
                (world.lookup)(k),
                telegram_id,
            ) == Ok::<bool, LookupError<Seq<char>>>(found),
    decreases n,
{
    let m = (n - 1) as nat;
    lemma_invariant(telegram_id, world, m);
    if step_at(telegram_id, world, m) is Done {
        law_lookup_answer_is_the_apis(telegram_id, world, m, found);
    } else {
        assert(step_at(telegram_id, world, m) is PostLookup);
    }
}

/// A login is only posted where the key of the exclusively held session is
/// missing, or still the one that the failed try had seen.
pub proof fn law_no_redundant_login(telegram_id: i64, world: World, n: nat)
    requires
        step_at(telegram_id, world, n) is PostLogin,
    ensures
        n > 0,
        ({
            let before = step_at(telegram_id, world, (n - 1) as nat);
            let held = (world.session)((n - 1) as nat);
            &&& before is LockSession
            &&& held is None || held == before->LockSession_0.seen
        }),
{
}

/// Where the session was refreshed by someone else between the failed try and
/// the lock, the lookup posts no login: it gives the session free and retries.
pub proof fn law_refreshed_session_is_used(telegram_id: i64, world: World, n: nat)
    requires
        step_at(telegram_id, world, n) is LockSession,
        (world.session)(n) is Some,
        (world.session)(n) != step_at(telegram_id, world, n)->LockSession_0.seen,
    ensures
        ({
            let run = step_at(telegram_id, world, n)->LockSession_0.run;
            &&& step_at(telegram_id, world, n + 1) == LookupStep::<Seq<char>>::ReleaseSession(
                ReleaseSession { run },
            )
            &&& step_at(telegram_id, world, n + 2) == LookupStep::<Seq<char>>::ReadSession(
                ReadSession { run, turn: Turn::Retry },
            )
        }),
{
    assert(step_at(telegram_id, world, n + 1) == next_step(
        step_at(telegram_id, world, n),
        world,
        n,
    ));
    assert(step_at(telegram_id, world, n + 2) == next_step(
        step_at(telegram_id, world, n + 1),
        world,
        n + 1,
    ));
}

/// A lookup that fails with anything but an auth failure or a rate limit is
/// over, and reports that failure.
pub proof fn law_other_failures_end_the_lookup(
    telegram_id: i64,
    world: World,
    n: nat,
    error: ApiError<Seq<char>>,
)
    requires
        step_at(telegram_id, world, n) is PostLookup,
        lookup_outcome((world.lookup)(n), telegram_id) == Err::<bool, LookupError<Seq<char>>>(
            LookupError::Other(error),
        ),
    ensures
        step_at(telegram_id, world, n + 1) == LookupStep::<Seq<char>>::Done(Err(error)),
{
    lemma_invariant(telegram_id, world, n);
    assert(step_at(telegram_id, world, n + 1) == next_step(
        step_at(telegram_id, world, n),
        world,
        n,
    ));
}

/// An expired session is replaced unnoticed: where the first try of an attempt
/// meets an auth failure, the session is still the one it had seen, and the
/// login succeeds, the new key is stored and the same ID is looked up once more,
/// with the key that is held by then.
pub proof fn law_expired_session_is_refreshed(
    telegram_id: i64,
    world: World,
    n: nat,
    new_key: Seq<char>,
    used_key: Seq<char>,
)
    requires
        step_at(telegram_id, world, n) matches LookupStep::PostLookup(s) && s.turn
            == (Turn::First { seen: (world.session)(n + 1) }),
        lookup_outcome((world.lookup)(n), telegram_id) matches Err(LookupError::Auth(e)),
        login_outcome((world.login)(n + 2)) == Ok::<Seq<char>, AuthError<Seq<char>>>(new_key),
        (world.session)(n + 4) == Some(used_key),
    ensures
        ({
            let run = step_at(telegram_id, world, n)->PostLookup_0.run;
            &&& run.telegram_id == telegram_id
            &&& step_at(telegram_id, world, n + 3) == LookupStep::StoreSession(
                StoreSession { run, session_key: new_key },
            )
            &&& step_at(telegram_id, world, n + 5) == LookupStep::PostLookup(
                PostLookup { run, turn: Turn::Retry, session_key: used_key },
            )
        }),
{
    lemma_invariant(telegram_id, world, n);
    reveal_with_fuel(step_at, 6);
    assert(step_at(telegram_id, world, n + 1) is LockSession);
    assert(step_at(telegram_id, world, n + 2) is PostLogin);
    assert(step_at(telegram_id, world, n + 3) is StoreSession);
    assert(step_at(telegram_id, world, n + 4) is ReadSession);
}

/// Whether `world` always has a session key, and answers every lookup with
/// HTTP 429.
pub open spec fn always_rate_limited(world: World) -> bool {
    &&& forall|n: nat| (#[trigger] (world.session)(n)) is Some
    &&& forall|n: nat|
        (#[trigger] (world.lookup)(n)) matches HttpReply::Received { status, body, parsed }
            && status == 429
}

proof fn lemma_rate_limited_attempt(telegram_id: i64, world: World, k: nat)
    requires
        always_rate_limited(world),
        k <= MAX_RETRIES,
    ensures
        step_at(telegram_id, world, 4 * k) == LookupStep::<Seq<char>>::SnapshotSession(
            SnapshotSession { run: Attempt { telegram_id, attempt: k as u32 } },
        ),
        delays(telegram_id, world, 4 * k) == backoff(k),
        lookups(telegram_id, world, 4 * k) == k,
    decreases k,
{
    reveal_with_fuel(backoff_ms, 6);
    reveal_with_fuel(step_at, 5);
    reveal_with_fuel(delays, 5);
    reveal_with_fuel(lookups, 5);
    if k == 0 {
        assert(delays(telegram_id, world, 0) =~= backoff(0));
    } else {
        let j = (k - 1) as nat;
        lemma_rate_limited_attempt(telegram_id, world, j);
        let n = 4 * j;
        assert((world.session)(n) is Some);
        assert((world.session)(n + 1) is Some);
        assert((world.lookup)(n + 2) is Received);
        assert(step_at(telegram_id, world, n + 1) is ReadSession);
        assert(step_at(telegram_id, world, n + 2) is PostLookup);
        assert(step_at(telegram_id, world, n + 3) is Backoff);
        assert(step_at(telegram_id, world, n + 4) is SnapshotSession);
        assert(delays(telegram_id, world, n + 3) == backoff(j));
        assert(backoff(j).push(backoff_ms(j)) =~= backoff(k));
    }
}

/// Under a lasting rate limit a lookup makes five tries, waits 1 s, 2 s, 4 s
/// and 8 s between them, posts no login, and reports the rate limit with the ID
/// and the number of retries.
pub proof fn law_lasting_rate_limit(telegram_id: i64, world: World)
    requires
        always_rate_limited(world),
    ensures
        step_at(telegram_id, world, 19) == LookupStep::<Seq<char>>::Done(
            Err(ApiError::RateLimited { telegram_id, retries: MAX_RETRIES }),
        ),
        (ApiError::<Seq<char>>::RateLimited { telegram_id, retries: MAX_RETRIES }).text()
            == "Rate limited (HTTP 429) for ID "@ + decimal(telegram_id as int) + " after "@
            + decimal(4) + " retries"@,
        delays(telegram_id, world, 19) == seq![1000nat, 2000, 4000, 8000],
        lookups(telegram_id, world, 19) == MAX_RETRIES + 1,
        logins(telegram_id, world, 19) == 0,
{
    lemma_rate_limited_attempt(telegram_id, world, 4);
    assert((world.session)(16) is Some);
    assert((world.session)(17) is Some);
    assert((world.lookup)(18) is Received);
    assert(step_at(telegram_id, world, 17) is ReadSession);
    assert(step_at(telegram_id, world, 18) is PostLookup);
    reveal_with_fuel(step_at, 4);
    reveal_with_fuel(delays, 4);
    reveal_with_fuel(lookups, 4);
    reveal_with_fuel(backoff_ms, 5);
    assert(backoff(4) =~= seq![1000nat, 2000, 4000, 8000]);
    lemma_rate_limited_posts_no_login(telegram_id, world, 19);
}

proof fn lemma_rate_limited_posts_no_login(telegram_id: i64, world: World, n: nat)
    requires
        always_rate_limited(world),
    ensures
        logins(telegram_id, world, n) == 0,
        ({
            let step = step_at(telegram_id, world, n);
            step is SnapshotSession || step is ReadSession || step is PostLookup || step is Backoff
                || step is Done
        }),
    decreases n,
{
    if n > 0 {
        let m = (n - 1) as nat;
        lemma_rate_limited_posts_no_login(telegram_id, world, m);
        assert((world.session)(m) is Some);
        assert((world.lookup)(m) is Received);
    }
}

proof fn lemma_next_step(telegram_id: i64, world: World, n: nat)
    ensures
        step_at(telegram_id, world, n + 1) == next_step(
            step_at(telegram_id, world, n),
            world,
            n,
        ),
        step_at(telegram_id, world, n + 2) == next_step(
            step_at(telegram_id, world, n + 1),
            world,
            n + 1,
        ),
{
}

/// A lookup starts by seeing which session key is held, and remembers it for its
/// first try, which reads the key anew.
pub proof fn law_held_session_is_remembered(telegram_id: i64, world: World, n: nat)
    ensures
        step_at(telegram_id, world, 0) == LookupStep::<Seq<char>>::SnapshotSession(
            SnapshotSession { run: Attempt { telegram_id, attempt: 0 } },
        ),
        step_at(telegram_id, world, n) matches LookupStep::SnapshotSession(s) ==> step_at(
            telegram_id,
            world,
            n + 1,
        ) == LookupStep::ReadSession(
            ReadSession { run: s.run, turn: Turn::First { seen: (world.session)(n) } },
        ),
{
    lemma_next_step(telegram_id, world, n);
}

/// Every step of a lookup is about the ID that it was started with, and about one
/// of five attempts.
pub proof fn law_lookup_keeps_its_id(telegram_id: i64, world: World, n: nat)
    ensures
        match step_at(telegram_id, world, n) {
            LookupStep::SnapshotSession(s) => is_attempt(s.run, telegram_id),
            LookupStep::ReadSession(s) => is_attempt(s.run, telegram_id),
            LookupStep::PostLookup(s) => is_attempt(s.run, telegram_id),
            LookupStep::LockSession(s) => is_attempt(s.run, telegram_id),
            LookupStep::ReleaseSession(s) => is_attempt(s.run, telegram_id),
            LookupStep::PostLogin(s) => is_attempt(s.run, telegram_id),
            LookupStep::StoreSession(s) => is_attempt(s.run, telegram_id),
            LookupStep::Backoff(s) => is_attempt(s.next, telegram_id),
            LookupStep::Done(_) => true,
        },
{
    lemma_invariant(telegram_id, world, n);
}

/// Whether an attempt is one of the five at an ID.
pub open spec fn is_attempt(run: Attempt, telegram_id: i64) -> bool {
    run.telegram_id == telegram_id && run.attempt <= 4
}

/// A try posts the lookup with the very key that is held. Without one it fails:
/// the first try then refreshes the session, and the retry ends the lookup.
pub proof fn law_held_session_is_used(telegram_id: i64, world: World, n: nat)
    requires
        step_at(telegram_id, world, n) is ReadSession,
    ensures
        ({
            let s = step_at(telegram_id, world, n)->ReadSession_0;
            let next = step_at(telegram_id, world, n + 1);
            &&& (world.session)(n) matches Some(key) ==> next == LookupStep::PostLookup(
                PostLookup { run: s.run, turn: s.turn, session_key: key },
            )
            &&& (world.session)(n) is None ==> match s.turn {
                Turn::First { seen } => next == LookupStep::LockSession(
                    LockSession { run: s.run, seen },
                ),
                Turn::Retry => next == LookupStep::<Seq<char>>::Done(Err(ApiError::NoSession)),
            }
        }),
{
    lemma_next_step(telegram_id, world, n);
}

/// Whichever try and attempt it is, a successful answer that lists IDs ends the
/// lookup, which finds the ID if and only if its decimal notation is listed.
pub proof fn law_successful_answer_ends_the_lookup(
    telegram_id: i64,
    world: World,
    n: nat,
    status: u16,
    body: Seq<char>,
    ids: Seq<Seq<char>>,
)
    requires
        step_at(telegram_id, world, n) is PostLookup,
        (world.lookup)(n) == (HttpReply::<Seq<char>, Seq<Seq<char>>>::Received {
            status,
            body,
            parsed: Ok(ids),
        }),
        200 <= status <= 299,
    ensures
        step_at(telegram_id, world, n + 1) matches LookupStep::Done(Ok(found)) && (found
            <==> exists|i: int|
            0 <= i < ids.len() && #[trigger] ids[i] == decimal(telegram_id as int)),
{
    lemma_invariant(telegram_id, world, n);
    lemma_next_step(telegram_id, world, n);
    law_listed_ids_are_found(telegram_id, status, body, ids);
}

/// Whichever try it is, HTTP 429 makes the lookup wait and begin another attempt
/// for the same ID, 1 s, 2 s, 4 s and 8 s the first four times; the fifth time it
/// gives up and reports the ID and the four retries.
pub proof fn law_rate_limit_is_waited_out(
    telegram_id: i64,
    world: World,
    n: nat,
    body: Seq<char>,
    parsed: Result<Seq<Seq<char>>, Seq<char>>,
)
    requires
        step_at(telegram_id, world, n) is PostLookup,
        (world.lookup)(n) == (HttpReply::<Seq<char>, Seq<Seq<char>>>::Received {
            status: 429,
            body,
            parsed,
        }),
    ensures
        ({
            let attempt = step_at(telegram_id, world, n)->PostLookup_0.run.attempt;
            let next = step_at(telegram_id, world, n + 1);
            let again = step_at(telegram_id, world, n + 2);
            &&& attempt <= 4
            &&& attempt < 4 ==> {
                &&& next is Backoff
                &&& attempt == 0 ==> next->Backoff_0.delay_ms == 1000
                &&& attempt == 1 ==> next->Backoff_0.delay_ms == 2000
                &&& attempt == 2 ==> next->Backoff_0.delay_ms == 4000
                &&& attempt == 3 ==> next->Backoff_0.delay_ms == 8000
                &&& again == LookupStep::<Seq<char>>::SnapshotSession(
                    SnapshotSession { run: Attempt { telegram_id, attempt: (attempt + 1) as u32 } },
                )
            }
            &&& attempt == 4 ==> next == LookupStep::<Seq<char>>::Done(
                Err(ApiError::RateLimited { telegram_id, retries: 4 }),
            )
        }),
{
    reveal_with_fuel(backoff_ms, 5);
    lemma_invariant(telegram_id, world, n);
    lemma_next_step(telegram_id, world, n);
    law_statuses_are_told_apart(telegram_id, 429, body, parsed);
}

/// HTTP 401 or 403 makes a first try refresh the session, with the key that it
/// had seen; the retry ends with it.
pub proof fn law_auth_failure_refreshes_once(
    telegram_id: i64,
    world: World,
    n: nat,
    status: u16,
    body: Seq<char>,
    parsed: Result<Seq<Seq<char>>, Seq<char>>,
)
    requires
        step_at(telegram_id, world, n) is PostLookup,
        (world.lookup)(n) == (HttpReply::<Seq<char>, Seq<Seq<char>>>::Received {
            status,
            body,
            parsed,
        }),
        status == 401 || status == 403,
    ensures
        ({
            let s = step_at(telegram_id, world, n)->PostLookup_0;
            match s.turn {
                Turn::First { seen } => step_at(telegram_id, world, n + 1)
                    == LookupStep::LockSession(LockSession { run: s.run, seen }),
                Turn::Retry => step_at(telegram_id, world, n + 1) == LookupStep::Done(
                    Err(ApiError::Status { status, body }),
                ),
            }
        }),
{
    lemma_invariant(telegram_id, world, n);
    lemma_next_step(telegram_id, world, n);
    law_statuses_are_told_apart(telegram_id, status, body, parsed);
}

/// A locked session without a key, or with the one that the failed try had seen,
/// is refreshed: a login is posted. Its key is stored and the ID is tried once
/// more; its failure ends the lookup, which reports it.
pub proof fn law_stale_session_is_replaced(
    telegram_id: i64,
    world: World,
    n: nat,
    key: Seq<char>,
    error: AuthError<Seq<char>>,
)
    requires
        step_at(telegram_id, world, n) is LockSession,
        (world.session)(n) is None || (world.session)(n) == step_at(
            telegram_id,
            world,
            n,
        )->LockSession_0.seen,
    ensures
        ({
            let run = step_at(telegram_id, world, n)->LockSession_0.run;
            &&& step_at(telegram_id, world, n + 1) == LookupStep::<Seq<char>>::PostLogin(
                PostLogin { run },
            )
            &&& login_outcome((world.login)(n + 1)) == Ok::<Seq<char>, AuthError<Seq<char>>>(key)
                ==> {
                &&& step_at(telegram_id, world, n + 2) == LookupStep::StoreSession(
                    StoreSession { run, session_key: key },
                )
                &&& step_at(telegram_id, world, n + 3) == LookupStep::<Seq<char>>::ReadSession(
                    ReadSession { run, turn: Turn::Retry },
                )
            }
            &&& login_outcome((world.login)(n + 1)) == Err::<Seq<char>, AuthError<Seq<char>>>(error)
                ==> step_at(telegram_id, world, n + 2) == LookupStep::Done(
                Err(ApiError::Reauthentication(error)),
            )
        }),
{
    lemma_next_step(telegram_id, world, n);
    lemma_next_step(telegram_id, world, n + 1);
}

}
