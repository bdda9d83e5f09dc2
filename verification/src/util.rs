//! Request-layer helpers: credentials, the retry backoff schedule, the
//! performance-category index table, and small string utilities.

use vstd::prelude::*;
use vstd::std_specs::iter::IteratorSpec;

verus! {

broadcast use vstd::string::next_postcondition, vstd::string::axiom_spec_iter;

/// A credential attached to an outbound request: either a basic
/// email + key pair or a bearer token. Absence of a credential
/// (an `Option<Auth>` that is `None`) sends the request unauthenticated.
pub enum Auth {
    Basic(String, String),
    Bearer(String),
}

/// Character-wise string equality, decided over the views.
pub fn str_eq(a: &str, b: &str) -> (r: bool)
    ensures
        r == (a@ == b@),
{
    let n = a.unicode_len();
    if n != b.unicode_len() {
        return false;
    }
    let mut i: usize = 0;
    while i < n
        invariant
            i <= n,
            n == a@.len(),
            n == b@.len(),
            forall|j: int| 0 <= j < i ==> a@[j] == b@[j],
        decreases n - i,
    {
        if a.get_char(i) != b.get_char(i) {
            return false;
        }
        i = i + 1;
    }
    proof {
        assert(a@ =~= b@);
    }
    true
}

/// The characters of a string, one by one, for indexed scanning.
pub fn str_chars(s: &str) -> (v: Vec<char>)
    ensures
        v@ == s@,
{
    let mut v: Vec<char> = Vec::new();
    let mut it = s.chars();
    loop
        invariant_except_break
            v@ + it.remaining() == s@,
            it.decrease() is Some,
        ensures
            v@ == s@,
        decreases it.decrease()->0,
    {
        match it.next() {
            Some(c) => {
                proof {
                    assert(v@.push(c) + it.remaining() =~= v@ + seq![c] + it.remaining());
                }
                v.push(c);
            },
            None => {
                proof {
                    assert(v@ =~= v@ + it.remaining());
                }
                break ;
            },
        }
    }
    v
}

/// The characters from `from` (inclusive) to `to` (exclusive) equal the
/// view of `lit`.
pub fn range_eq_str(v: &Vec<char>, from: usize, to: usize, lit: &str) -> (r: bool)
    requires
        from <= to <= v@.len(),
    ensures
        r == (v@.subrange(from as int, to as int) == lit@),
{
    let n = lit.unicode_len();
    if to - from != n {
        return false;
    }
    let mut j: usize = 0;
    while j < n
        invariant
            j <= n,
            from + n <= to <= v@.len(),
            to - from == n,
            n == lit@.len(),
            forall|q: int| 0 <= q < j ==> v@[from + q] == lit@[q],
        decreases n - j,
    {
        if v[from + j] != lit.get_char(j) {
            return false;
        }
        j = j + 1;
    }
    proof {
        assert(v@.subrange(from as int, to as int) =~= lit@);
    }
    true
}

/// `needle` occurs as a contiguous run somewhere in `hay`.
pub open spec fn spec_contains(hay: Seq<char>, needle: Seq<char>) -> bool {
    exists|k: int|
        0 <= k && k + needle.len() <= hay.len() && #[trigger] hay.subrange(k, k + needle.len())
            == needle
}

/// Decides whether `needle` occurs within the characters of `v` from
/// `from` (inclusive) to `to` (exclusive).
pub fn range_contains(v: &Vec<char>, from: usize, to: usize, needle: &Vec<char>) -> (r: bool)
    requires
        from <= to <= v@.len(),
    ensures
        r == spec_contains(v@.subrange(from as int, to as int), needle@),
{
    let ghost hay = v@.subrange(from as int, to as int);
    let m = needle.len();
    let len = to - from;
    if m > len {
        return false;
    }
    let mut k: usize = 0;
    while k <= len - m
        invariant
            m == needle@.len(),
            from + len == to <= v@.len(),
            hay == v@.subrange(from as int, to as int),
            m <= len == hay.len(),
            k <= len,
            forall|q: int| 0 <= q < k ==> #[trigger] hay.subrange(q, q + m) != needle@,
        decreases len - k,
    {
        let mut j: usize = 0;
        let mut all_match = true;
        while j < m
            invariant
                j <= m,
                m == needle@.len(),
                from + len == to <= v@.len(),
                hay == v@.subrange(from as int, to as int),
                m <= len == hay.len(),
                k + m <= len,
                all_match == (forall|q: int| 0 <= q < j ==> hay[k + q] == needle@[q]),
            decreases m - j,
        {
            if v[from + k + j] != needle[j] {
                all_match = false;
            }
            j = j + 1;
        }
        proof {
            if all_match {
                assert(hay.subrange(k as int, k + m) =~= needle@);
            } else {
                let q = choose|q: int| 0 <= q < m && hay[k + q] != needle@[q];
                assert(hay.subrange(k as int, k + m)[q] == hay[k + q]);
            }
        }
        if all_match {
            return true;
        }
        k = k + 1;
    }
    proof {
        assert forall|q: int| 0 <= q && q + needle@.len() <= hay.len() implies #[trigger] hay.subrange(
            q,
            q + needle@.len(),
        ) != needle@ by {
            assert(q < k || q > len - m);
        }
    }
    false
}

/// The numeric index a performance category renders to in report links;
/// categories outside the table have no index.
pub open spec fn spec_perf_to_index(s: Seq<char>) -> Option<u8> {
    if s == "bullet"@ {
        Some(1u8)
    } else if s == "blitz"@ {
        Some(2u8)
    } else if s == "classical"@ {
        Some(3u8)
    } else if s == "rapid"@ {
        Some(6u8)
    } else {
        None
    }
}

/// Maps a performance-category key to the numeric index used in search
/// links; any unrecognized key yields `None`, never a default number.
pub fn perf_to_index(s: &str) -> (r: Option<u8>)
    ensures
        r == spec_perf_to_index(s@),
{
    if str_eq(s, "bullet") {
        Some(1)
    } else if str_eq(s, "blitz") {
        Some(2)
    } else if str_eq(s, "classical") {
        Some(3)
    } else if str_eq(s, "rapid") {
        Some(6)
    } else {
        None
    }
}

/// The first pause of the retry schedule, in seconds.
pub const INITIAL_SLEEP_SECS: u64 = 60;

/// Each consecutive failure multiplies the pause by this factor.
pub const BACKOFF_FACTOR: u64 = 10;

/// No pause ever exceeds this many seconds.
pub const MAX_SLEEP_SECS: u64 = 3600;

/// The pause before the retry after `n` consecutive failures:
/// 60s, then 600s, then capped at 3600s.
pub open spec fn spec_sleep_schedule(n: nat) -> int
    decreases n,
{
    if n == 0 {
        INITIAL_SLEEP_SECS as int
    } else {
        let prev = spec_sleep_schedule((n - 1) as nat);
        if prev * BACKOFF_FACTOR <= MAX_SLEEP_SECS {
            prev * BACKOFF_FACTOR
        } else {
            MAX_SLEEP_SECS as int
        }
    }
}

/// The pause grows tenfold per failure and never exceeds the cap:
/// 60s after the first failure, 600s after the second, 3600s from
/// the third on, forever.
pub proof fn lemma_sleep_schedule(n: nat)
    ensures
        spec_sleep_schedule(n) == if n == 0 {
            60int
        } else if n == 1 {
            600int
        } else {
            3600int
        },
        spec_sleep_schedule(n) <= MAX_SLEEP_SECS,
    decreases n,
{
    if n > 0 {
        lemma_sleep_schedule((n - 1) as nat);
    }
}

/// Backoff state of one call's retry loop. The pause starts at 60 seconds
/// and is multiplied by 10 after each consecutive failure, capped at one
/// hour; the state lives only within a single call's retries.
pub struct Backoff {
    /// Seconds to pause before the next retry.
    pub sleep_secs: u64,

    /// Consecutive failures seen so far (drives the schedule; ghost).
    pub failures: Ghost<nat>,
}

impl Backoff {
    /// The pause always stays on the schedule for the failures seen so far,
    /// hence between the initial pause and the cap.
    pub open spec fn wf(&self) -> bool {
        self.sleep_secs == spec_sleep_schedule(self.failures@)
    }

    /// The pause that follows `cur` on the schedule: tenfold, capped.
    pub open spec fn spec_next(cur: u64) -> u64 {
        if cur * BACKOFF_FACTOR <= MAX_SLEEP_SECS {
            (cur * BACKOFF_FACTOR) as u64
        } else {
            MAX_SLEEP_SECS
        }
    }

    /// A fresh schedule: the first pause is 60 seconds.
    pub fn new() -> (b: Backoff)
        ensures
            b.wf(),
            b.sleep_secs == INITIAL_SLEEP_SECS,
            b.failures@ == 0,
    {
        Backoff { sleep_secs: INITIAL_SLEEP_SECS, failures: Ghost(0nat) }
    }

    /// Called on a failure: returns how long to pause now and advances the
    /// schedule. The returned pause never exceeds the one-hour cap.
    pub fn next_sleep(&mut self) -> (d: u64)
        requires
            old(self).wf(),
        ensures
            final(self).wf(),
            d == old(self).sleep_secs,
            d <= MAX_SLEEP_SECS,
            final(self).sleep_secs == Self::spec_next(old(self).sleep_secs),
            final(self).failures@ == old(self).failures@ + 1,
    {
        proof {
            lemma_sleep_schedule(self.failures@);
        }
        let d = self.sleep_secs;
        let grown = d * BACKOFF_FACTOR;
        self.sleep_secs = if grown <= MAX_SLEEP_SECS {
            grown
        } else {
            MAX_SLEEP_SECS
        };
        proof {
            self.failures@ = self.failures@ + 1;
        }
        d
    }
}

} // verus!
