//! The upstream platform's data model and the scan's decision logic:
//! arenas, players, users, the prescreening filter and the tier classifier.
//!
//! Network fetching and payload decoding happen outside the library; the
//! functions here take the decoded values and make every decision of a scan.

use vstd::prelude::*;
use crate::score::SusScore;

verus! {

broadcast use vstd::prelude::Seq::lemma_filter_push;

/// The tournament catalog: created and finished arenas, one snapshot per poll.
pub struct Arenas {
    pub created: Vec<Arena>,
    pub finished: Vec<Arena>,
}

/// The performance category an arena is played under.
pub struct Perf {
    pub key: String,
}

/// An arena's schedule: how often it runs and its speed category.
pub struct Schedule {
    pub freq: String,
    pub speed: String,
}

/// One rating-capped tournament snapshot.
pub struct Arena {
    pub id: String,
    pub has_max_rating: bool,
    pub schedule: Schedule,
    pub perf: Perf,
    pub full_name: String,
}

/// One leaderboard record.
pub struct Player {
    pub rank: u16,
    pub score: u16,
    pub rating: u16,
    pub username: String,
    pub performance: Option<u16>,
}

/// An account snapshot from the user-info lookup. The creation instant is
/// held as milliseconds since the epoch.
pub struct User {
    pub id: String,
    pub tos_violation: bool,
    pub created_at_millis: i64,
}

/// An account younger than this many milliseconds (20 days) counts as new.
pub const NEW_ACCOUNT_WINDOW_MILLIS: i64 = 20 * 86_400_000;

/// An account younger than this many milliseconds (10 days) counts as very new.
pub const VERY_NEW_ACCOUNT_WINDOW_MILLIS: i64 = 10 * 86_400_000;

impl User {
    /// The account is less than 20 days old at the given instant.
    pub open spec fn spec_is_new(&self, now_millis: i64) -> bool {
        self.created_at_millis + NEW_ACCOUNT_WINDOW_MILLIS > now_millis
    }

    /// The account is less than 10 days old at the given instant.
    pub open spec fn spec_is_very_new(&self, now_millis: i64) -> bool {
        self.created_at_millis + VERY_NEW_ACCOUNT_WINDOW_MILLIS > now_millis
    }

    /// Decides whether the account was created within the last 20 days.
    pub fn is_new(&self, now_millis: i64) -> (r: bool)
        ensures
            r == self.spec_is_new(now_millis),
    {
        (self.created_at_millis as i128) + (NEW_ACCOUNT_WINDOW_MILLIS as i128) > (
        now_millis as i128)
    }

    /// Decides whether the account was created within the last 10 days.
    pub fn is_very_new(&self, now_millis: i64) -> (r: bool)
        ensures
            r == self.spec_is_very_new(now_millis),
    {
        (self.created_at_millis as i128) + (VERY_NEW_ACCOUNT_WINDOW_MILLIS as i128) > (
        now_millis as i128)
    }
}

/// A decimal digit.
pub open spec fn is_ascii_digit(c: char) -> bool {
    48 <= c as u32 <= 57
}

/// The numeric value of a decimal digit.
pub open spec fn digit_val(c: char) -> int {
    c as u32 - 48
}

fn is_digit_char(c: char) -> (r: bool)
    ensures
        r == is_ascii_digit(c),
{
    let x = c as u32;
    48 <= x && x <= 57
}

impl Clone for Perf {
    fn clone(&self) -> (res: Self)
        ensures
            res == *self,
    {
        Perf { key: self.key.clone() }
    }
}

impl Clone for Schedule {
    fn clone(&self) -> (res: Self)
        ensures
            res == *self,
    {
        Schedule { freq: self.freq.clone(), speed: self.speed.clone() }
    }
}

impl Clone for Arena {
    fn clone(&self) -> (res: Self)
        ensures
            res == *self,
    {
        Arena {
            id: self.id.clone(),
            has_max_rating: self.has_max_rating,
            schedule: self.schedule.clone(),
            perf: self.perf.clone(),
            full_name: self.full_name.clone(),
        }
    }
}

impl Default for Perf {
    fn default() -> (p: Perf)
        ensures
            p.key@ == Seq::<char>::empty(),
    {
        Perf { key: String::new() }
    }
}

impl Default for Schedule {
    fn default() -> (s: Schedule)
        ensures
            s.freq@ == Seq::<char>::empty(),
            s.speed@ == Seq::<char>::empty(),
    {
        Schedule { freq: String::new(), speed: String::new() }
    }
}

impl Default for Arena {
    fn default() -> (a: Arena)
        ensures
            a.id@ == Seq::<char>::empty(),
            a.has_max_rating == false,
            a.schedule.freq@ == Seq::<char>::empty(),
            a.schedule.speed@ == Seq::<char>::empty(),
            a.perf.key@ == Seq::<char>::empty(),
            a.full_name@ == Seq::<char>::empty(),
    {
        Arena {
            id: String::new(),
            has_max_rating: false,
            schedule: Schedule::default(),
            perf: Perf::default(),
            full_name: String::new(),
        }
    }
}

impl Default for Arenas {
    fn default() -> (a: Arenas)
        ensures
            a.created@ == Seq::<Arena>::empty(),
            a.finished@ == Seq::<Arena>::empty(),
    {
        Arenas { created: Vec::new(), finished: Vec::new() }
    }
}

impl Arena {
    /// The rating ceiling read from the display name: the four characters
    /// after the first one, as a decimal number. Absent when the arena has
    /// no cap, or when those four characters are not all digits.
    pub open spec fn spec_rating_limit(&self) -> Option<u16> {
        let name = self.full_name@;
        if self.has_max_rating && name.len() >= 5 && is_ascii_digit(name[1]) && is_ascii_digit(
            name[2],
        ) && is_ascii_digit(name[3]) && is_ascii_digit(name[4]) {
            Some(
                (digit_val(name[1]) * 1000 + digit_val(name[2]) * 100 + digit_val(name[3]) * 10
                    + digit_val(name[4])) as u16,
            )
        } else {
            None
        }
    }

    /// Parses the rating ceiling out of the display name; yields `None`
    /// rather than failing on names that carry no ceiling.
    pub fn rating_limit(&self) -> (r: Option<u16>)
        ensures
            r == self.spec_rating_limit(),
    {
        if !self.has_max_rating {
            return None;
        }
        let name: &str = self.full_name.as_str();
        if name.unicode_len() < 5 {
            return None;
        }
        let c1 = name.get_char(1);
        let c2 = name.get_char(2);
        let c3 = name.get_char(3);
        let c4 = name.get_char(4);
        if is_digit_char(c1) && is_digit_char(c2) && is_digit_char(c3) && is_digit_char(c4) {
            let v: u32 = (c1 as u32 - 48) * 1000 + (c2 as u32 - 48) * 100 + (c3 as u32 - 48) * 10 + (
            c4 as u32 - 48);
            Some(v as u16)
        } else {
            None
        }
    }
}

/// The arenas one scan visits: the finished ones that carry a rating cap.
/// Tournaments without a ceiling are not plausible sandbagging targets and
/// are skipped entirely.
pub open spec fn spec_scan_targets(finished: Seq<Arena>) -> Seq<Arena> {
    finished.filter(|a: Arena| a.has_max_rating)
}

/// Selects the finished arenas with a rating cap, in catalog order.
pub fn scan_targets(arenas: &Arenas) -> (r: Vec<Arena>)
    ensures
        r@ == spec_scan_targets(arenas.finished@),
{
    let mut r: Vec<Arena> = Vec::new();
    let n = arenas.finished.len();
    let mut i: usize = 0;
    while i < n
        invariant
            i <= n,
            n == arenas.finished@.len(),
            r@ == spec_scan_targets(arenas.finished@.take(i as int)),
        decreases n - i,
    {
        proof {
            assert(arenas.finished@.take(i + 1) == arenas.finished@.take(i as int).push(
                arenas.finished@[i as int],
            ));
        }
        let a = &arenas.finished[i];
        if a.has_max_rating {
            r.push(a.clone());
        }
        i = i + 1;
    }
    proof {
        assert(arenas.finished@.take(n as int) == arenas.finished@);
    }
    r
}

/// An arena without a rating cap never appears among the scan targets.
pub proof fn lemma_scan_targets_capped(finished: Seq<Arena>, i: int)
    requires
        0 <= i < spec_scan_targets(finished).len(),
    ensures
        spec_scan_targets(finished)[i].has_max_rating,
{
    finished.lemma_filter_pred(|a: Arena| a.has_max_rating, i);
}

/// No byte of the sequence is a newline.
pub open spec fn no_newline(s: Seq<u8>) -> bool {
    forall|i: int| 0 <= i < s.len() ==> s[i] != 10u8
}

/// Joins framed lines back into the byte stream they came from: each line
/// followed by its terminating newline byte.
pub open spec fn joined(lines: Seq<Seq<u8>>) -> Seq<u8>
    decreases lines.len(),
{
    if lines.len() == 0 {
        Seq::empty()
    } else {
        (lines[0] + seq![10u8]) + joined(lines.drop_first())
    }
}

proof fn lemma_joined_push(lines: Seq<Seq<u8>>, l: Seq<u8>)
    ensures
        joined(lines.push(l)) == joined(lines) + l + seq![10u8],
    decreases lines.len(),
{
    if lines.len() == 0 {
        assert(lines.push(l).drop_first() =~= Seq::<Seq<u8>>::empty());
        assert(joined(Seq::<Seq<u8>>::empty()) == Seq::<u8>::empty());
        assert(lines.push(l)[0] == l);
        assert(joined(lines.push(l)) =~= joined(lines) + l + seq![10u8]);
    } else {
        lemma_joined_push(lines.drop_first(), l);
        assert(lines.push(l).drop_first() =~= lines.drop_first().push(l));
        assert(joined(lines.push(l).drop_first()) == joined(lines.drop_first()) + l + seq![10u8]);
        assert(lines.push(l)[0] == lines[0]);
        assert(joined(lines.push(l)) =~= joined(lines) + l + seq![10u8]);
    }
}

/// The lines of the feed, each as its byte sequence.
pub open spec fn lines_view(lines: Seq<Vec<u8>>) -> Seq<Seq<u8>> {
    lines.map_values(|l: Vec<u8>| l@)
}

proof fn lemma_lines_view_push(s: Seq<Vec<u8>>, x: Vec<u8>)
    ensures
        lines_view(s.push(x)) == lines_view(s).push(x@),
{
    assert(lines_view(s.push(x)) =~= lines_view(s).push(x@));
}

/// Incremental framing of the newline-delimited results feed. Chunks of
/// bytes go in as they arrive; complete lines come out as they close, so
/// the feed is never buffered whole. The bytes between the last newline
/// and the end of the stream wait in `pending`.
pub struct LineBuffer {
    pub pending: Vec<u8>,
}

impl LineBuffer {
    /// The held tail never contains a newline.
    pub open spec fn wf(&self) -> bool {
        no_newline(self.pending@)
    }

    /// An empty buffer, ready for the first chunk.
    pub fn new() -> (b: LineBuffer)
        ensures
            b.wf(),
            b.pending@ == Seq::<u8>::empty(),
    {
        LineBuffer { pending: Vec::new() }
    }

    /// Feeds one chunk of the stream in and hands back the lines that
    /// completed: everything framed so far, joined back together with one
    /// newline after each line and the new tail at the end, is exactly the
    /// old tail followed by this chunk. No returned line contains a newline.
    pub fn push_chunk(&mut self, chunk: &[u8]) -> (lines: Vec<Vec<u8>>)
        requires
            old(self).wf(),
        ensures
            final(self).wf(),
            joined(lines_view(lines@)) + final(self).pending@ == old(self).pending@ + chunk@,
            forall|k: int| 0 <= k < lines@.len() ==> no_newline(#[trigger] lines@[k]@),
    {
        let mut lines: Vec<Vec<u8>> = Vec::new();
        proof {
            assert(lines_view(lines@) =~= Seq::<Seq<u8>>::empty());
            assert(joined(lines_view(lines@)) == Seq::<u8>::empty());
        }
        let mut cur: Vec<u8> = Vec::new();
        core::mem::swap(&mut cur, &mut self.pending);
        let n = chunk.len();
        let mut i: usize = 0;
        while i < n
            invariant
                i <= n,
                n == chunk@.len(),
                joined(lines_view(lines@)) + cur@ == old(self).pending@ + chunk@.take(i as int),
                no_newline(cur@),
                forall|k: int| 0 <= k < lines@.len() ==> no_newline(#[trigger] lines@[k]@),
            decreases n - i,
        {
            let b = chunk[i];
            proof {
                assert(chunk@.take(i + 1) =~= chunk@.take(i as int).push(chunk@[i as int]));
            }
            if b == 10 {
                proof {
                    lemma_joined_push(lines_view(lines@), cur@);
                    lemma_lines_view_push(lines@, cur);
                    assert(joined(lines_view(lines@)) + cur@ + seq![10u8] =~= old(self).pending@
                        + chunk@.take(i as int).push(10u8));
                }
                lines.push(cur);
                cur = Vec::new();
                proof {
                    assert(joined(lines_view(lines@)) + cur@ =~= joined(lines_view(lines@)));
                }
            } else {
                proof {
                    assert(joined(lines_view(lines@)) + cur@.push(b) =~= (joined(
                        lines_view(lines@),
                    ) + cur@).push(b));
                }
                cur.push(b);
            }
            i = i + 1;
        }
        self.pending = cur;
        proof {
            assert(chunk@.take(n as int) == chunk@);
        }
        lines
    }

    /// Takes the unterminated tail at stream end: what a final record that
    /// the stream did not close with a newline looks like.
    pub fn take_pending(&mut self) -> (last: Vec<u8>)
        requires
            old(self).wf(),
        ensures
            final(self).wf(),
            last@ == old(self).pending@,
            final(self).pending@ == Seq::<u8>::empty(),
            no_newline(last@),
    {
        let mut last: Vec<u8> = Vec::new();
        core::mem::swap(&mut last, &mut self.pending);
        last
    }
}

/// The verdict tier that fired for a player, in increasing strictness.
#[derive(Clone, Copy, PartialEq, Eq, Structural, Debug)]
pub enum Tier {
    /// Score alone: at or above the high threshold.
    A,
    /// Moderate: a new account, many suspicious games, or a clear rating gap.
    B,
    /// Strict: a very new account, more suspicious games, or a closer gap.
    C,
}

/// Suspicious-game count above which the moderate tier fires.
pub const MODERATE_GAME_COUNT: usize = 25;

/// Suspicious-game count above which the strict tier fires.
pub const STRICT_GAME_COUNT: usize = 30;

/// Moderate tier: how far under the ceiling a rating must sit.
pub const MODERATE_RATING_BELOW: u16 = 200;

/// Moderate tier: how far over the ceiling a performance must reach.
pub const MODERATE_PERF_ABOVE: u16 = 500;

/// Strict tier: how far under the ceiling a rating must sit.
pub const STRICT_RATING_BELOW: u16 = 300;

/// Strict tier: how far over the ceiling a performance must reach.
pub const STRICT_PERF_ABOVE: u16 = 400;

/// Whether a possibly missing user snapshot counts as a new account; a
/// failed lookup counts as not new.
pub open spec fn spec_user_is_new(user: Option<&User>, now_millis: i64) -> bool {
    match user {
        Some(u) => u.spec_is_new(now_millis),
        None => false,
    }
}

/// Whether a possibly missing user snapshot counts as a very new account.
pub open spec fn spec_user_is_very_new(user: Option<&User>, now_millis: i64) -> bool {
    match user {
        Some(u) => u.spec_is_very_new(now_millis),
        None => false,
    }
}

/// The tiered decision logic, holding the threshold table injected at
/// construction.
pub struct Classifier {
    pub scores: SusScore,
}

impl Classifier {
    /// Builds a classifier around a threshold table.
    pub fn new(scores: SusScore) -> (c: Classifier)
        ensures
            c.scores == scores,
    {
        Classifier { scores }
    }

    /// Prescreening: the player's score reaches the low threshold for the
    /// arena's speed category; an unrecognized category never passes.
    pub open spec fn spec_preselect(&self, arena: &Arena, player: &Player) -> bool {
        match self.scores.low.spec_perf(arena.schedule.speed@) {
            Some(t) => t <= player.score,
            None => false,
        }
    }

    /// Cheap score-threshold rejection before the expensive per-player work.
    pub fn preselect_player(&self, arena: &Arena, player: &Player) -> (r: bool)
        ensures
            r == self.spec_preselect(arena, player),
    {
        match self.scores.low.perf(arena.schedule.speed.as_str()) {
            Some(t) => t <= player.score,
            None => false,
        }
    }

    /// Tier A: the score alone reaches the high threshold.
    pub open spec fn spec_tier_a(&self, arena: &Arena, player: &Player) -> bool {
        match self.scores.high.spec_perf(arena.schedule.speed@) {
            Some(t) => t <= player.score,
            None => false,
        }
    }

    /// The rating sits more than `below` under the known ceiling (the
    /// subtraction clamped at zero), or the known performance reaches more
    /// than `above` over it; false whenever either side is unknown.
    pub open spec fn spec_rating_deviation(
        arena: &Arena,
        player: &Player,
        below: u16,
        above: u16,
    ) -> bool {
        match (arena.spec_rating_limit(), player.performance) {
            (Some(limit), Some(performance)) => player.rating + below < limit || performance
                > limit + above,
            _ => false,
        }
    }

    /// Tier B: a new account, more than 25 suspicious games, or a moderate
    /// rating deviation.
    pub open spec fn spec_tier_b(
        &self,
        arena: &Arena,
        player: &Player,
        sus_count: usize,
        user: Option<&User>,
        now_millis: i64,
    ) -> bool {
        ||| spec_user_is_new(user, now_millis)
        ||| sus_count > MODERATE_GAME_COUNT
        ||| Self::spec_rating_deviation(arena, player, MODERATE_RATING_BELOW, MODERATE_PERF_ABOVE)
    }

    /// Tier C: a very new account, more than 30 suspicious games, or a
    /// strict rating deviation.
    pub open spec fn spec_tier_c(
        &self,
        arena: &Arena,
        player: &Player,
        sus_count: usize,
        user: Option<&User>,
        now_millis: i64,
    ) -> bool {
        ||| spec_user_is_very_new(user, now_millis)
        ||| sus_count > STRICT_GAME_COUNT
        ||| Self::spec_rating_deviation(arena, player, STRICT_RATING_BELOW, STRICT_PERF_ABOVE)
    }

    /// The verdict for a prescreened player: the first matching tier, or
    /// no report at all.
    pub open spec fn spec_classify(
        &self,
        arena: &Arena,
        player: &Player,
        sus_count: usize,
        user: Option<&User>,
        now_millis: i64,
    ) -> Option<Tier> {
        if self.spec_tier_a(arena, player) {
            Some(Tier::A)
        } else if self.spec_tier_b(arena, player, sus_count, user, now_millis) {
            Some(Tier::B)
        } else if self.spec_tier_c(arena, player, sus_count, user, now_millis) {
            Some(Tier::C)
        } else {
            None
        }
    }

    fn rating_deviation(arena: &Arena, player: &Player, below: u16, above: u16) -> (r: bool)
        ensures
            r == Self::spec_rating_deviation(arena, player, below, above),
    {
        match (arena.rating_limit(), player.performance) {
            (Some(limit), Some(performance)) => (player.rating as u32) + (below as u32) < (
            limit as u32) || (performance as u32) > (limit as u32) + (above as u32),
            _ => false,
        }
    }

    fn user_is_new(user: Option<&User>, now_millis: i64) -> (r: bool)
        ensures
            r == spec_user_is_new(user, now_millis),
    {
        match user {
            Some(u) => u.is_new(now_millis),
            None => false,
        }
    }

    fn user_is_very_new(user: Option<&User>, now_millis: i64) -> (r: bool)
        ensures
            r == spec_user_is_very_new(user, now_millis),
    {
        match user {
            Some(u) => u.is_very_new(now_millis),
            None => false,
        }
    }

    /// Evaluates the three tiers in strictly increasing strictness; the
    /// first matching tier yields the one verdict and evaluation stops, so
    /// no player gets two reports in one cycle. A failed user lookup
    /// (`user == None`) leaves the age conditions false but every other
    /// condition evaluable.
    pub fn classify(
        &self,
        arena: &Arena,
        player: &Player,
        sus_count: usize,
        user: Option<&User>,
        now_millis: i64,
    ) -> (verdict: Option<Tier>)
        ensures
            verdict == self.spec_classify(arena, player, sus_count, user, now_millis),
    {
        if match self.scores.high.perf(arena.schedule.speed.as_str()) {
            Some(t) => t <= player.score,
            None => false,
        } {
            Some(Tier::A)
        } else if Self::user_is_new(user, now_millis) || sus_count > MODERATE_GAME_COUNT
            || Self::rating_deviation(arena, player, MODERATE_RATING_BELOW, MODERATE_PERF_ABOVE) {
            Some(Tier::B)
        } else if Self::user_is_very_new(user, now_millis) || sus_count > STRICT_GAME_COUNT
            || Self::rating_deviation(arena, player, STRICT_RATING_BELOW, STRICT_PERF_ABOVE) {
            Some(Tier::C)
        } else {
            None
        }
    }

    /// The whole per-player decision of one scan step: prescreening first,
    /// then the tier classifier for the players that pass it.
    pub open spec fn spec_player_verdict(
        &self,
        arena: &Arena,
        player: &Player,
        sus_count: usize,
        user: Option<&User>,
        now_millis: i64,
    ) -> Option<Tier> {
        if self.spec_preselect(arena, player) {
            self.spec_classify(arena, player, sus_count, user, now_millis)
        } else {
            None
        }
    }

    /// Decides a player's fate for one scan step: prescreen, then classify.
    pub fn player_verdict(
        &self,
        arena: &Arena,
        player: &Player,
        sus_count: usize,
        user: Option<&User>,
        now_millis: i64,
    ) -> (verdict: Option<Tier>)
        ensures
            verdict == self.spec_player_verdict(arena, player, sus_count, user, now_millis),
    {
        if self.preselect_player(arena, player) {
            self.classify(arena, player, sus_count, user, now_millis)
        } else {
            None
        }
    }

    /// A player at or above the high threshold draws exactly one report,
    /// of Tier A, even when the moderate or strict conditions hold as well.
    pub proof fn lemma_tier_a_wins(
        &self,
        arena: &Arena,
        player: &Player,
        sus_count: usize,
        user: Option<&User>,
        now_millis: i64,
    )
        requires
            self.spec_tier_a(arena, player),
        ensures
            self.spec_classify(arena, player, sus_count, user, now_millis) == Some(Tier::A),
    {
    }

    /// With ordered tiers, a player at or above the high threshold also
    /// passes prescreening: the whole per-player decision is exactly one
    /// Tier A report.
    pub proof fn lemma_high_score_reported(
        &self,
        arena: &Arena,
        player: &Player,
        sus_count: usize,
        user: Option<&User>,
        now_millis: i64,
    )
        requires
            self.scores.wf(),
            self.spec_tier_a(arena, player),
        ensures
            self.spec_player_verdict(arena, player, sus_count, user, now_millis) == Some(Tier::A),
    {
    }

    /// A player under the low threshold — hence under every tier's — is
    /// dropped by prescreening: no report, whatever else holds of them.
    pub proof fn lemma_below_thresholds_no_report(
        &self,
        arena: &Arena,
        player: &Player,
        sus_count: usize,
        user: Option<&User>,
        now_millis: i64,
    )
        requires
            match self.scores.low.spec_perf(arena.schedule.speed@) {
                Some(t) => player.score < t,
                None => true,
            },
        ensures
            self.spec_player_verdict(arena, player, sus_count, user, now_millis) == None::<Tier>,
    {
    }
}

} // verus!
