//! The decay reconciler: pure decisions that keep an on-chain happiness
//! score aligned with off-chain interaction recency.
//!
//! A driver loop feeds each tick's observations — the stored activity
//! record and what the chain reports — into [`DecayReconciler::reconcile_agent`]
//! and performs the returned actions; every decision here is a pure
//! function of `(now, last_interaction_timestamp, score)` and the
//! configured thresholds.

use vstd::prelude::*;
use crate::errors::AgentError;

verus! {

/// Seconds in one hour, the unit the decay rate is stated in.
pub const SECONDS_PER_HOUR: u64 = 3600;

/// The reconciler's configuration: how stale an agent must be before its
/// score decays, how fast it decays, and how often the loop ticks.
#[derive(Clone, Copy, Debug, PartialEq, Eq, Structural)]
pub struct DecayConfig {
    pub decay_threshold_seconds: u64,
    pub decay_rate_per_hour: u32,
    pub loop_interval_seconds: u64,
}

/// What one reconciliation step decided for one agent: whether the token
/// must still be registered on chain, and the lowered score to write, if
/// any.
#[derive(Clone, Copy, Debug, PartialEq, Eq)]
pub struct ReconcileDecision {
    pub register: bool,
    pub update: Option<u8>,
}

/// Seconds since the last interaction; a missing timestamp counts as 0,
/// so a never-interacted agent is immediately stale. A timestamp ahead of
/// `now` yields 0.
pub open spec fn spec_elapsed(now: u64, last_ts: Option<u64>) -> int {
    let last = match last_ts {
        Some(t) => t as int,
        None => 0,
    };
    if now >= last {
        now - last
    } else {
        0
    }
}

/// How much a score decays: `rate` per full stale hour once the elapsed
/// time passes the threshold, nothing before.
pub open spec fn spec_decay_amount(elapsed: int, threshold: u64, rate: u32) -> int {
    if elapsed > threshold {
        rate * (elapsed / (SECONDS_PER_HOUR as int))
    } else {
        0
    }
}

/// The score after one decay step, floored at 0.
pub open spec fn spec_new_score(
    now: u64,
    last_ts: Option<u64>,
    threshold: u64,
    rate: u32,
    score: u8,
) -> int {
    let d = spec_decay_amount(spec_elapsed(now, last_ts), threshold, rate);
    if score >= d {
        score - d
    } else {
        0
    }
}

/// A decayed score never rises: the result stays between 0 and the prior
/// score.
pub proof fn lemma_decay_monotonic(
    now: u64,
    last_ts: Option<u64>,
    threshold: u64,
    rate: u32,
    score: u8,
)
    ensures
        0 <= spec_new_score(now, last_ts, threshold, rate, score) <= score,
{
    let e = spec_elapsed(now, last_ts);
    assert(spec_decay_amount(e, threshold, rate) >= 0) by (nonlinear_arith);
}

/// The periodic reconciliation policy and its configuration.
#[derive(Clone, Copy, Debug, PartialEq, Eq, Structural)]
pub struct DecayReconciler {
    pub config: DecayConfig,
}

impl DecayReconciler {
    pub fn new(config: DecayConfig) -> (r: DecayReconciler)
        ensures
            r.config == config,
    {
        DecayReconciler { config }
    }

    /// The score after one decay step for an agent last active at
    /// `last_ts`, observed at `now` with the given current score.
    pub fn decay(&self, now: u64, last_ts: Option<u64>, score: u8) -> (ns: u8)
        ensures
            ns == spec_new_score(
                now,
                last_ts,
                self.config.decay_threshold_seconds,
                self.config.decay_rate_per_hour,
                score,
            ),
    {
        let last: u64 = match last_ts {
            Some(t) => t,
            None => 0,
        };
        let elapsed: u64 = if now >= last {
            now - last
        } else {
            0
        };
        if elapsed > self.config.decay_threshold_seconds {
            let hours: u64 = elapsed / SECONDS_PER_HOUR;
            let rate = self.config.decay_rate_per_hour;
            proof {
                assert((rate as int) * (hours as int) <= (u32::MAX as int) * (u64::MAX as int))
                    by (nonlinear_arith)
                    requires
                        rate as int <= u32::MAX as int,
                        0 <= hours as int <= u64::MAX as int,
                ;
            }
            let d: u128 = (rate as u128) * (hours as u128);
            if d >= score as u128 {
                0
            } else {
                score - (d as u8)
            }
        } else {
            score
        }
    }

    /// One reconciliation step for one agent, fed this tick's observations:
    /// whether the chain reports the token registered, the wall clock, the
    /// stored last-interaction timestamp, and the current on-chain score.
    ///
    /// Registration is requested exactly for tokens the chain reports
    /// unregistered — never for one already reporting registered. A score
    /// write is requested exactly when the decayed score is strictly lower,
    /// and carries exactly the decayed score.
    pub fn reconcile_agent(
        &self,
        is_registered: bool,
        now: u64,
        last_ts: Option<u64>,
        score: u8,
    ) -> (d: ReconcileDecision)
        requires
            score <= 100,
        ensures
            d.register == !is_registered,
            ({
                let ns = spec_new_score(
                    now,
                    last_ts,
                    self.config.decay_threshold_seconds,
                    self.config.decay_rate_per_hour,
                    score,
                );
                &&& (d.update matches Some(v) ==> v == ns && ns < score && v <= 100)
                &&& (d.update is None <==> ns == score)
            }),
    {
        let ns = self.decay(now, last_ts, score);
        proof {
            lemma_decay_monotonic(
                now,
                last_ts,
                self.config.decay_threshold_seconds,
                self.config.decay_rate_per_hour,
                score,
            );
        }
        let update = if ns < score {
            Some(ns)
        } else {
            None
        };
        ReconcileDecision { register: !is_registered, update }
    }
}

/// Two decay computations over the same inputs and configuration return
/// the same score: the decision is a pure, deterministic function of
/// `(now, last_ts, score)`.
pub proof fn lemma_decay_deterministic(
    rec: DecayReconciler,
    now: u64,
    last_ts: Option<u64>,
    score: u8,
    r1: u8,
    r2: u8,
)
    requires
        call_ensures(DecayReconciler::decay, (&rec, now, last_ts, score), r1),
        call_ensures(DecayReconciler::decay, (&rec, now, last_ts, score), r2),
    ensures
        r1 == r2,
{
}

/// A hexadecimal digit, either case.
pub open spec fn is_hex_digit(c: char) -> bool {
    ||| '0' <= c && c <= '9'
    ||| 'a' <= c && c <= 'f'
    ||| 'A' <= c && c <= 'F'
}

/// The numeric value of one hexadecimal digit.
pub open spec fn hex_digit_value(c: char) -> int {
    if '0' <= c && c <= '9' {
        c as int - '0' as int
    } else if 'a' <= c && c <= 'f' {
        10 + c as int - 'a' as int
    } else {
        10 + c as int - 'A' as int
    }
}

/// The number a sequence of hexadecimal digits denotes, most significant
/// digit first.
pub open spec fn hex_value(s: Seq<char>) -> int
    decreases s.len(),
{
    if s.len() == 0 {
        0
    } else {
        hex_value(s.drop_last()) * 16 + hex_digit_value(s.last())
    }
}

/// Every character is a hexadecimal digit.
pub open spec fn all_hex_digits(s: Seq<char>) -> bool {
    forall|i: int| 0 <= i < s.len() ==> is_hex_digit(s[i])
}

/// A parsable token identifier: non-empty, hexadecimal, and in range of
/// the numeric identifier type.
pub open spec fn valid_token_id(s: Seq<char>) -> bool {
    &&& s.len() > 0
    &&& all_hex_digits(s)
    &&& hex_value(s) <= u128::MAX
}

/// Longer digit prefixes denote no smaller a number.
proof fn lemma_hex_prefix_monotonic(s: Seq<char>, m: int, n: int)
    requires
        all_hex_digits(s),
        0 <= m <= n <= s.len(),
    ensures
        0 <= hex_value(s.take(m)) <= hex_value(s.take(n)),
    decreases n - m,
{
    if m == n {
        lemma_hex_value_nonneg(s.take(m));
    } else {
        lemma_hex_prefix_monotonic(s, m, n - 1);
        assert(s.take(n).drop_last() =~= s.take(n - 1));
        assert(is_hex_digit(s[n - 1]));
        assert(hex_value(s.take(n)) == hex_value(s.take(n - 1)) * 16 + hex_digit_value(
            s.take(n).last(),
        ));
    }
}

/// A string of hexadecimal digits denotes a nonnegative number.
proof fn lemma_hex_value_nonneg(s: Seq<char>)
    requires
        all_hex_digits(s),
    ensures
        hex_value(s) >= 0,
    decreases s.len(),
{
    if s.len() > 0 {
        assert(all_hex_digits(s.drop_last())) by {
            assert(forall|i: int| 0 <= i < s.len() - 1 ==> s.drop_last()[i] == s[i]);
        }
        lemma_hex_value_nonneg(s.drop_last());
        assert(is_hex_digit(s.last()));
    }
}

/// Parses an agent id into its numeric on-chain token identifier:
/// hexadecimal, most significant digit first. `ParseError` exactly when
/// the id is empty, holds a non-hexadecimal character, or denotes a number
/// out of range.
pub fn parse_token_id(s: &str) -> (r: Result<u128, AgentError>)
    ensures
        valid_token_id(s@) ==> (r matches Ok(v) && v == hex_value(s@)),
        !valid_token_id(s@) ==> (r matches Err(e) && e == AgentError::ParseError),
{
    let n = s.unicode_len();
    if n == 0 {
        return Err(AgentError::ParseError);
    }
    let mut acc: u128 = 0;
    let mut i: usize = 0;
    while i < n
        invariant
            0 < n == s@.len(),
            0 <= i <= n,
            forall|j: int| 0 <= j < i ==> is_hex_digit(s@[j]),
            acc == hex_value(s@.take(i as int)),
        decreases n - i,
    {
        let c = s.get_char(i);
        let u = c as u32;
        let d: u32 = if u >= 48 && u <= 57 {
            u - 48
        } else if u >= 97 && u <= 102 {
            u - 87
        } else if u >= 65 && u <= 70 {
            u - 55
        } else {
            proof {
                assert(!is_hex_digit(s@[i as int]));
            }
            return Err(AgentError::ParseError);
        };
        proof {
            assert(is_hex_digit(s@[i as int]));
            assert(d == hex_digit_value(s@[i as int]));
        }
        if acc > (u128::MAX - d as u128) / 16 {
            proof {
                assert(s@.take(i as int + 1).drop_last() =~= s@.take(i as int));
                assert(hex_value(s@.take(i as int + 1)) > u128::MAX);
                if all_hex_digits(s@) {
                    lemma_hex_prefix_monotonic(s@, i as int + 1, s@.len() as int);
                    assert(s@.take(s@.len() as int) =~= s@);
                }
            }
            return Err(AgentError::ParseError);
        }
        proof {
            assert(s@.take(i as int + 1).drop_last() =~= s@.take(i as int));
        }
        acc = acc * 16 + d as u128;
        i = i + 1;
    }
    proof {
        assert(s@.take(n as int) =~= s@);
    }
    Ok(acc)
}

/// The token identifier an agent id resolves to: its parsed value, or the
/// configured fallback identifier when the id does not parse.
pub fn token_id_or_default(s: &str, fallback: u128) -> (r: u128)
    ensures
        valid_token_id(s@) ==> r == hex_value(s@),
        !valid_token_id(s@) ==> r == fallback,
{
    match parse_token_id(s) {
        Ok(v) => v,
        Err(_) => fallback,
    }
}

} // verus!
