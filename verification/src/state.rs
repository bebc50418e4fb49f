//! The switch state: the record of the last observed heartbeat, the shared
//! secret that authenticates heartbeats, and the armed/fired flag that makes
//! activation an at-most-once event.

use vstd::prelude::*;
use crate::token::constant_time_eq;

verus! {

/// Mathematical model of the switch state; the contracts of every state
/// transition are stated over it.
pub ghost struct SwitchModel {
    /// Unix time (seconds) of the last accepted heartbeat.
    pub last_heartbeat: u64,
    /// The shared secret that authenticates a heartbeat.
    pub secret: Seq<char>,
    /// True until activation has been claimed by `try_fire`.
    pub armed: bool,
}

/// What a heartbeat carrying `token` at time `now` does to the state, and
/// whether it is accepted: on a token match the last-heartbeat time moves
/// forward (never backward), on a mismatch nothing changes.
pub open spec fn heartbeat_step(m: SwitchModel, token: Seq<char>, now: u64) -> (SwitchModel, bool) {
    if token == m.secret {
        (
            SwitchModel {
                last_heartbeat: if now > m.last_heartbeat {
                    now
                } else {
                    m.last_heartbeat
                },
                ..m
            },
            true,
        )
    } else {
        (m, false)
    }
}

/// What claiming activation does to the state, and whether the caller won
/// the claim: only a transition from armed to disarmed returns true.
pub open spec fn fire_step(m: SwitchModel) -> (SwitchModel, bool) {
    (SwitchModel { armed: false, ..m }, m.armed)
}

/// Seconds elapsed from `last` to `now`, saturating at zero if the clock
/// reads earlier than the recorded heartbeat.
pub open spec fn elapsed_seconds(last: u64, now: u64) -> u64 {
    if now >= last {
        (now - last) as u64
    } else {
        0
    }
}

/// Whole days elapsed from `last` to `now` (truncating division).
pub open spec fn elapsed_days(last: u64, now: u64) -> u64 {
    (elapsed_seconds(last, now) / 86400) as u64
}

/// The activation condition: at least `threshold_days` whole days of
/// inactivity. A non-positive threshold is crossed immediately.
pub open spec fn threshold_crossed(last: u64, now: u64, threshold_days: i64) -> bool {
    elapsed_days(last, now) as int >= threshold_days as int
}

/// What one watchdog tick at time `now` does: if the threshold is crossed it
/// claims activation through `fire_step`, otherwise nothing changes.
pub open spec fn watchdog_step(m: SwitchModel, now: u64, threshold_days: i64) -> (
    SwitchModel,
    bool,
) {
    if threshold_crossed(m.last_heartbeat, now, threshold_days) {
        fire_step(m)
    } else {
        (m, false)
    }
}

/// The process-wide switch state. Time is always passed in by the caller, so
/// any clock source (the real one, or a synthetic one in tests) can drive it.
pub struct SwitchState {
    last_heartbeat: u64,
    secret_token: String,
    armed: bool,
}

impl SwitchState {
    /// The model of this state value.
    pub closed spec fn model(&self) -> SwitchModel {
        SwitchModel {
            last_heartbeat: self.last_heartbeat,
            secret: self.secret_token@,
            armed: self.armed,
        }
    }

    pub open spec fn last_heartbeat(&self) -> u64 {
        self.model().last_heartbeat
    }

    pub open spec fn secret(&self) -> Seq<char> {
        self.model().secret
    }

    pub open spec fn armed(&self) -> bool {
        self.model().armed
    }

    /// A fresh switch: armed, with `now` as the initial heartbeat time.
    pub fn new(secret_token: String, now: u64) -> (s: Self)
        ensures
            s.model() == (SwitchModel { last_heartbeat: now, secret: secret_token@, armed: true }),
    {
        SwitchState { last_heartbeat: now, secret_token, armed: true }
    }

    /// Records a heartbeat: on a token match (compared without an early
    /// exit), advances `last_heartbeat` to `now` (never backward) and
    /// reports success; otherwise leaves the state unchanged and reports
    /// failure. A bad token is an expected outcome, not an error.
    pub fn record_heartbeat(&mut self, token: &str, now: u64) -> (ok: bool)
        ensures
            (final(self).model(), ok) == heartbeat_step(old(self).model(), token@, now),
            ok == (token@ == old(self).secret()),
            final(self).last_heartbeat() >= old(self).last_heartbeat(),
            final(self).armed() == old(self).armed(),
            final(self).secret() == old(self).secret(),
    {
        if constant_time_eq(token, self.secret_token.as_str()) {
            if now > self.last_heartbeat {
                self.last_heartbeat = now;
            }
            true
        } else {
            false
        }
    }

    /// Seconds since the last accepted heartbeat, as seen at time `now`.
    pub fn time_since_last_heartbeat(&self, now: u64) -> (d: u64)
        ensures
            d == elapsed_seconds(self.last_heartbeat(), now),
    {
        if now >= self.last_heartbeat {
            now - self.last_heartbeat
        } else {
            0
        }
    }

    /// The exactly-once gate: disarms the switch and returns whether this
    /// call was the one that disarmed it. The caller that receives `true`
    /// must perform the activation; every later call receives `false`.
    pub fn try_fire(&mut self) -> (fired: bool)
        ensures
            (final(self).model(), fired) == fire_step(old(self).model()),
            fired == old(self).armed(),
            !final(self).armed(),
            final(self).last_heartbeat() == old(self).last_heartbeat(),
            final(self).secret() == old(self).secret(),
    {
        let was_armed = self.armed;
        self.armed = false;
        was_armed
    }

    /// Whether activation is still possible.
    pub fn is_armed(&self) -> (b: bool)
        ensures
            b == self.armed(),
    {
        self.armed
    }

    /// The recorded time of the last accepted heartbeat.
    pub fn last_heartbeat_time(&self) -> (t: u64)
        ensures
            t == self.last_heartbeat(),
    {
        self.last_heartbeat
    }

    /// One watchdog tick at time `now`: returns true exactly when the
    /// inactivity threshold is crossed and this tick wins the exactly-once
    /// activation claim. The caller then performs the activation sends.
    pub fn watchdog_tick(&mut self, now: u64, threshold_days: i64) -> (fire: bool)
        ensures
            (final(self).model(), fire) == watchdog_step(old(self).model(), now, threshold_days),
            fire == (old(self).armed() && threshold_crossed(
                old(self).last_heartbeat(),
                now,
                threshold_days,
            )),
            final(self).last_heartbeat() == old(self).last_heartbeat(),
            final(self).secret() == old(self).secret(),
    {
        let elapsed = self.time_since_last_heartbeat(now);
        let days = elapsed / 86400;
        let crossed = if threshold_days <= 0 {
            true
        } else {
            days >= (threshold_days as u64)
        };
        if crossed {
            self.try_fire()
        } else {
            false
        }
    }
}

/// The reply the heartbeat endpoint returns: a short human-readable
/// success or failure indicator, never an error.
pub fn heartbeat_response(ok: bool) -> (r: &'static str)
    ensures
        ok ==> r@ == "Heartbeat success."@,
        !ok ==> r@ == "Heartbeat failure."@,
{
    if ok {
        "Heartbeat success."
    } else {
        "Heartbeat failure."
    }
}

/// Handles one heartbeat request observed at time `now`: records it when
/// the token matches, and returns the reply text. An invalid token is an
/// expected, externally reachable outcome: the state is untouched and the
/// failure indicator is returned.
pub fn heartbeat(state: &mut SwitchState, token: &str, now: u64) -> (r: &'static str)
    ensures
        ({
            let (m2, ok) = heartbeat_step(old(state).model(), token@, now);
            &&& final(state).model() == m2
            &&& ok ==> r@ == "Heartbeat success."@
            &&& !ok ==> r@ == "Heartbeat failure."@
        }),
{
    let ok = state.record_heartbeat(token, now);
    heartbeat_response(ok)
}

/// Law: a heartbeat with the correct token is accepted and never moves the
/// heartbeat time backward; any other token is rejected and changes nothing.
/// In either case the armed flag and the secret are untouched.
pub proof fn lemma_heartbeat_effect(m: SwitchModel, token: Seq<char>, now: u64)
    ensures
        ({
            let (m2, ok) = heartbeat_step(m, token, now);
            &&& ok == (token == m.secret)
            &&& m2.last_heartbeat >= m.last_heartbeat
            &&& (ok ==> m2.last_heartbeat >= now)
            &&& (!ok ==> m2 == m)
            &&& m2.armed == m.armed
            &&& m2.secret == m.secret
        }),
{
}

/// Law: two heartbeats in a row with the correct token both succeed, and
/// leave the armed flag and the secret exactly as they were.
pub proof fn lemma_heartbeat_idempotent(m: SwitchModel, now1: u64, now2: u64)
    ensures
        ({
            let (m1, ok1) = heartbeat_step(m, m.secret, now1);
            let (m2, ok2) = heartbeat_step(m1, m1.secret, now2);
            &&& ok1
            &&& ok2
            &&& m2.armed == m.armed
            &&& m2.secret == m.secret
        }),
{
}

/// Law: between heartbeats, the elapsed time can only grow as the clock
/// advances.
pub proof fn lemma_elapsed_monotonic(last: u64, now1: u64, now2: u64)
    requires
        now1 <= now2,
    ensures
        elapsed_seconds(last, now1) <= elapsed_seconds(last, now2),
{
}

/// Law: immediately after a successful heartbeat at time `now`, the elapsed
/// time reads zero, so it is no larger than it read before the heartbeat.
pub proof fn lemma_heartbeat_resets_elapsed(m: SwitchModel, now: u64)
    ensures
        ({
            let (m2, ok) = heartbeat_step(m, m.secret, now);
            &&& ok
            &&& elapsed_seconds(m2.last_heartbeat, now) == 0
            &&& elapsed_seconds(m2.last_heartbeat, now) <= elapsed_seconds(m.last_heartbeat, now)
        }),
{
}

/// Law: activation is claimed at most once. Any `try_fire` leaves the switch
/// disarmed, and a `try_fire` after another always reports false.
pub proof fn lemma_fire_at_most_once(m: SwitchModel)
    ensures
        !fire_step(m).0.armed,
        fire_step(fire_step(m).0).1 == false,
{
}

/// Law: once the switch is disarmed it stays disarmed: no heartbeat and no
/// watchdog tick re-arms it, and no later watchdog tick fires.
pub proof fn lemma_disarmed_is_final(
    m: SwitchModel,
    token: Seq<char>,
    now: u64,
    threshold_days: i64,
)
    requires
        !m.armed,
    ensures
        !heartbeat_step(m, token, now).0.armed,
        !watchdog_step(m, now, threshold_days).0.armed,
        watchdog_step(m, now, threshold_days).1 == false,
{
}

} // verus!
