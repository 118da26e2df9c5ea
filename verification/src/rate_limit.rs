//! Bounding how often one address may attempt a sensitive operation, and
//! deciding which address a request is counted under.

use vstd::prelude::*;
use crate::models::Timestamp;
use crate::text::{
    chars_of, given, split_on, split_text, starts_with, str_eq, string_of, texts_of, trim, trimmed,
    views_of, };

verus! {

/// Attempts to log in that one address may make within the window.
pub const MAX_LOGIN_ATTEMPTS: i64 = 10;

/// Dossiers that one address may open within the window.
pub const MAX_SUBMISSION_ATTEMPTS: i64 = 20;

/// Length of the window that attempts are counted in: one hour.
pub const WINDOW_MICROS: i64 = 3_600_000_000;

// ---------------------------------------------------------------------------
// The address of the client
// ---------------------------------------------------------------------------

/// The peer's address begins with one of the trusted prefixes.
pub open spec fn is_trusted_proxy(peer: Seq<char>, proxies: Seq<Seq<char>>) -> bool {
    exists|i: int| 0 <= i < proxies.len() && (#[trigger] proxies[i]).is_prefix_of(peer)
}

/// The first address of a forwarded-for list, trimmed.
pub open spec fn first_forwarded(forwarded_for: Seq<char>) -> Seq<char> {
    trimmed(split_text(forwarded_for, ',')[0])
}

/// The address a request is counted under. What the request says of itself
/// in its headers counts only where the peer is a trusted proxy: then the
/// first forwarded address, else the real-address header, else the peer.
/// From any other peer it is the peer's own address. Without a peer it is
/// `unknown`.
pub open spec fn client_ip(
    peer: Option<Seq<char>>,
    forwarded_for: Option<Seq<char>>,
    real_ip: Option<Seq<char>>,
    proxies: Seq<Seq<char>>,
) -> Seq<char> {
    match peer {
        None => "unknown"@,
        Some(p) => if !is_trusted_proxy(p, proxies) {
            p
        } else {
            match forwarded_for {
                Some(list) => first_forwarded(list),
                None => match real_ip {
                    Some(ip) => ip,
                    None => p,
                },
            }
        },
    }
}

/// Whether the peer's address begins with one of the trusted prefixes.
pub fn peer_is_trusted(peer: &str, trusted_proxies: &Vec<String>) -> (r: bool)
    ensures
        r == is_trusted_proxy(peer@, texts_of(trusted_proxies@)),
{
    let address = chars_of(peer);
    let mut i: usize = 0;
    while i < trusted_proxies.len()
        invariant
            i <= trusted_proxies.len(),
            address@ == peer@,
            forall|k: int|
                0 <= k < i ==> !(#[trigger] texts_of(trusted_proxies@)[k]).is_prefix_of(peer@),
        decreases trusted_proxies.len() - i,
    {
        let prefix = chars_of(trusted_proxies[i].as_str());
        proof {
            assert(texts_of(trusted_proxies@)[i as int] == prefix@);
        }
        if starts_with(address.as_slice(), prefix.as_slice()) {
            return true;
        }
        i = i + 1;
    }
    false
}

/// The address a request is counted under.
pub fn get_client_ip(
    peer: Option<&str>,
    forwarded_for: Option<&str>,
    real_ip: Option<&str>,
    trusted_proxies: &Vec<String>,
) -> (ip: String)
    ensures
        ip@ == client_ip(
            given(peer),
            given(forwarded_for),
            given(real_ip),
            texts_of(trusted_proxies@),
        ),
{
    match peer {
        None => "unknown".to_owned(),
        Some(p) => {
            if !peer_is_trusted(p, trusted_proxies) {
                return p.to_owned();
            }
            match forwarded_for {
                Some(list) => {
                    let text = chars_of(list);
                    let pieces = split_on(text.as_slice(), ',');
                    proof {
                        assert(views_of(pieces@)[0] == pieces@[0]@);
                    }
                    let first = trim(pieces[0].as_slice());
                    string_of(first.as_slice())
                },
                None => match real_ip {
                    Some(ip) => ip.to_owned(),
                    None => p.to_owned(),
                },
            }
        },
    }
}

// ---------------------------------------------------------------------------
// The limit
// ---------------------------------------------------------------------------

/// An operation is allowed while fewer than `max` attempts were counted.
pub fn check_allowed(count: i64, max: i64) -> (allowed: bool)
    ensures
        allowed == (count < max),
{
    count < max
}

/// Whether an operation is allowed after counting the attempts: a count that
/// could not be had counts as none.
pub open spec fn allowed(count: Option<i64>, max: i64) -> bool {
    match count {
        Some(n) => n < max,
        None => 0 < max,
    }
}

/// Whether an operation is allowed for an address with the counted attempts
/// and the given limit.
pub fn check_rate_limit_with_max(count: Option<i64>, max_attempts: i64) -> (r: bool)
    ensures
        r == allowed(count, max_attempts),
{
    match count {
        Some(n) => check_allowed(n, max_attempts),
        None => check_allowed(0, max_attempts),
    }
}

/// Whether a login is allowed for an address with the counted attempts: ten
/// within the hour are the limit.
pub fn check_rate_limit(count: Option<i64>) -> (r: bool)
    ensures
        r == allowed(count, MAX_LOGIN_ATTEMPTS),
{
    check_rate_limit_with_max(count, MAX_LOGIN_ATTEMPTS)
}

/// One attempt: who tried what, and when.
#[derive(Debug)]
pub struct Attempt {
    pub ip: String,
    pub endpoint: String,
    pub at: Timestamp,
}

/// An attempt counts at `now` where it was made less than an hour before.
pub open spec fn in_window(at: Timestamp, now: Timestamp) -> bool {
    at > now - WINDOW_MICROS
}

/// How many of the attempts were made from the address at the endpoint
/// within the window.
pub open spec fn count_recent(
    log: Seq<Attempt>,
    ip: Seq<char>,
    endpoint: Seq<char>,
    now: Timestamp,
) -> nat
    decreases log.len(),
{
    if log.len() == 0 {
        0
    } else {
        let last = log.last();
        let one: nat = if last.ip@ == ip && last.endpoint@ == endpoint && in_window(last.at, now) {
            1
        } else {
            0
        };
        count_recent(log.drop_last(), ip, endpoint, now) + one
    }
}

/// An attempt that was just made counts against its address at its endpoint,
/// and against no other.
pub proof fn lemma_attempt_counts(
    log: Seq<Attempt>,
    attempt: Attempt,
    ip: Seq<char>,
    endpoint: Seq<char>,
    now: Timestamp,
)
    ensures
        count_recent(log.push(attempt), ip, endpoint, now) == count_recent(log, ip, endpoint, now)
            + if attempt.ip@ == ip && attempt.endpoint@ == endpoint && in_window(attempt.at, now) {
            1nat
        } else {
            0nat
        },
{
    assert(log.push(attempt).drop_last() =~= log);
}

/// The attempts that a sweep at `now` leaves: those not older than the
/// window, in their order.
pub open spec fn swept(log: Seq<Attempt>, now: Timestamp) -> Seq<Attempt>
    decreases log.len(),
{
    if log.len() == 0 {
        log
    } else if log.last().at < now - WINDOW_MICROS {
        swept(log.drop_last(), now)
    } else {
        swept(log.drop_last(), now).push(log.last())
    }
}

/// A sweep removes no attempt that still counts.
pub proof fn lemma_sweep_keeps_count(
    log: Seq<Attempt>,
    ip: Seq<char>,
    endpoint: Seq<char>,
    now: Timestamp,
)
    ensures
        count_recent(swept(log, now), ip, endpoint, now) == count_recent(log, ip, endpoint, now),
    decreases log.len(),
{
    if log.len() > 0 {
        lemma_sweep_keeps_count(log.drop_last(), ip, endpoint, now);
        if !(log.last().at < now - WINDOW_MICROS) {
            let rest = swept(log.drop_last(), now);
            assert(rest.push(log.last()).drop_last() =~= rest);
        }
    }
}

/// A log of attempts, the newest last.
pub struct RateLimiter {
    pub attempts: Vec<Attempt>,
}

impl RateLimiter {
    /// A log without attempts.
    pub fn new() -> (limiter: Self)
        ensures
            limiter.attempts@.len() == 0,
    {
        RateLimiter { attempts: Vec::new() }
    }

    /// Appends an attempt made at `now`.
    pub fn record_attempt(&mut self, ip: &str, endpoint: &str, now: Timestamp)
        ensures
            final(self).attempts@.len() == old(self).attempts@.len() + 1,
            final(self).attempts@.drop_last() == old(self).attempts@,
            final(self).attempts@.last().ip@ == ip@,
            final(self).attempts@.last().endpoint@ == endpoint@,
            final(self).attempts@.last().at == now,
    {
        let attempt = Attempt { ip: ip.to_owned(), endpoint: endpoint.to_owned(), at: now };
        self.attempts.push(attempt);
        proof {
            assert(self.attempts@.drop_last() =~= old(self).attempts@);
        }
    }

    /// How many attempts count against the address at the endpoint at `now`.
    pub fn recent_attempts(&self, ip: &str, endpoint: &str, now: Timestamp) -> (count: usize)
        ensures
            count == count_recent(self.attempts@, ip@, endpoint@, now),
    {
        let mut count: usize = 0;
        let mut i: usize = 0;
        while i < self.attempts.len()
            invariant
                i <= self.attempts.len(),
                count == count_recent(self.attempts@.take(i as int), ip@, endpoint@, now),
                count <= i,
            decreases self.attempts.len() - i,
        {
            let attempt = &self.attempts[i];
            let recent = if now < i64::MIN + WINDOW_MICROS {
                true
            } else {
                attempt.at > now - WINDOW_MICROS
            };
            proof {
                assert(self.attempts@.take(i + 1).drop_last() =~= self.attempts@.take(i as int));
                assert(self.attempts@.take(i + 1).last() == self.attempts@[i as int]);
            }
            if recent && str_eq(attempt.ip.as_str(), ip) && str_eq(
                attempt.endpoint.as_str(),
                endpoint,
            ) {
                count = count + 1;
            }
            i = i + 1;
        }
        proof {
            assert(self.attempts@.take(i as int) =~= self.attempts@);
        }
        count
    }

    /// Whether the address may attempt the operation at `now`: fewer than
    /// `max` of its attempts at the endpoint lie within the window.
    pub fn check_allowed(&self, ip: &str, endpoint: &str, max: i64, now: Timestamp) -> (allowed:
        bool)
        ensures
            allowed == (count_recent(self.attempts@, ip@, endpoint@, now) < max),
    {
        let count = self.recent_attempts(ip, endpoint, now);
        if max <= 0 {
            false
        } else {
            (count as u128) < (max as u128)
        }
    }

    /// Removes the attempts that are older than the window.
    pub fn sweep(&mut self, now: Timestamp)
        ensures
            final(self).attempts@ == swept(old(self).attempts@, now),
    {
        let mut kept: Vec<Attempt> = Vec::new();
        let mut rest: Vec<Attempt> = Vec::new();
        std::mem::swap(&mut self.attempts, &mut rest);
        let ghost all = rest@;
        let mut reversed: Vec<Attempt> = Vec::new();
        while rest.len() > 0
            invariant
                rest@.len() <= all.len(),
                rest@ == all.take(rest@.len() as int),
                swept(all, now) == swept(rest@, now) + reversed@.reverse(),
            decreases rest.len(),
        {
            let ghost before = rest@;
            let attempt = rest.pop().unwrap();
            proof {
                assert(rest@ =~= before.drop_last());
                assert(attempt == before.last());
            }
            let old_enough = if now < i64::MIN + WINDOW_MICROS {
                false
            } else {
                attempt.at < now - WINDOW_MICROS
            };
            if !old_enough {
                let ghost prior = reversed@;
                reversed.push(attempt);
                proof {
                    assert(reversed@.reverse() =~= seq![attempt] + prior.reverse());
                    assert(swept(before, now) + prior.reverse() =~= swept(rest@, now)
                        + reversed@.reverse());
                }
            }
        }
        proof {
            assert(swept(rest@, now) + reversed@.reverse() =~= reversed@.reverse());
        }
        while reversed.len() > 0
            invariant
                kept@ + reversed@.reverse() == swept(all, now),
            decreases reversed.len(),
        {
            let ghost before = reversed@;
            let ghost prior = kept@;
            let attempt = reversed.pop().unwrap();
            kept.push(attempt);
            proof {
                assert(reversed@ =~= before.drop_last());
                assert(before.reverse() =~= seq![before.last()] + reversed@.reverse());
                assert(kept@ + reversed@.reverse() =~= prior + before.reverse());
            }
        }
        proof {
            assert(kept@ + reversed@.reverse() =~= kept@);
        }
        self.attempts = kept;
    }
}

} // verus!
