//! Transcript analysis: turning a player's raw game transcripts into
//! structured per-game outcomes.
//!
//! A transcript holds up to a hundred games, each a run of header lines
//! (`[Key "Value"]`) followed by move text. The scan walks the characters
//! once and keeps, per game: the id from the last path segment of the Site
//! header, the player's color from the White header, whether the player won
//! from the Result header, and the count of mainline half-moves. Comments in
//! braces and parenthesized side variations — however deeply nested — are
//! passed over without counting. A game missing any of id, color or outcome
//! is dropped, silently and without failing the scan.

use vstd::prelude::*;
use crate::util::{range_contains, range_eq_str, spec_contains, str_chars};

verus! {

broadcast use vstd::prelude::Seq::lemma_filter_push;

/// The mathematical content of one analyzed game.
pub struct GameView {
    pub id: Seq<char>,
    pub moves: nat,
    pub won: bool,
    pub is_white: bool,
}

/// One analyzed game: its id, its length in half-moves, and how the
/// examined user stood in it. Never partially populated.
#[derive(Debug, Hash)]
pub struct GameResult {
    pub id: String,
    pub moves: usize,
    pub won: bool,
    pub is_white: bool,
}

impl View for GameResult {
    type V = GameView;

    open spec fn view(&self) -> GameView {
        GameView { id: self.id@, moves: self.moves as nat, won: self.won, is_white: self.is_white }
    }
}

impl Clone for GameResult {
    fn clone(&self) -> (res: Self)
        ensures
            res == *self,
    {
        GameResult {
            id: self.id.clone(),
            moves: self.moves,
            won: self.won,
            is_white: self.is_white,
        }
    }
}

/// The per-game accumulator while its transcript is being walked: every
/// fact is optional until its header has been seen.
pub struct TempView {
    pub id: Option<Seq<char>>,
    pub counter: nat,
    pub won: Option<bool>,
    pub is_white: Option<bool>,
}

/// A fresh accumulator: nothing known, no half-moves counted.
pub open spec fn temp_init() -> TempView {
    TempView { id: None, counter: 0, won: None, is_white: None }
}

/// The accumulator converts to a game exactly when id, outcome and color
/// are all known; the conversion is total and never an error.
pub open spec fn spec_complete(t: TempView) -> Option<GameView> {
    match (t.id, t.won, t.is_white) {
        (Some(id), Some(won), Some(is_white)) => Some(
            GameView { id, moves: t.counter, won, is_white },
        ),
        _ => None,
    }
}

/// At game end the accumulator either becomes one more game or is dropped.
pub open spec fn close_game(games: Seq<GameView>, t: TempView) -> Seq<GameView> {
    match spec_complete(t) {
        Some(g) => games.push(g),
        None => games,
    }
}

/// What one header does to the accumulator. `key` and `value` are the
/// header's two parts, `seg` is the value's last `/`-separated segment,
/// `user` the examined username.
pub open spec fn apply_header(
    t: TempView,
    key: Seq<char>,
    value: Seq<char>,
    seg: Seq<char>,
    user: Seq<char>,
) -> TempView {
    if key == "Site"@ {
        TempView { id: Some(seg), ..t }
    } else if key == "White"@ {
        TempView { is_white: Some(spec_contains(value, user)), ..t }
    } else if key == "Result"@ {
        TempView {
            won: match t.is_white {
                Some(w) => Some(
                    if w {
                        value == "1-0"@
                    } else {
                        value == "0-1"@
                    },
                ),
                None => None,
            },
            ..t
        }
    } else {
        t
    }
}

/// Where the scan stands relative to game boundaries.
#[derive(Clone, Copy, PartialEq, Eq, Structural, Debug)]
pub enum Section {
    /// Before the first game or after a finished one.
    Between,
    /// Inside a game's header lines.
    Headers,
    /// Inside a game's move text.
    Moves,
}

/// Where the scan stands within the current line (model level; positions
/// are character indices into the transcript).
pub enum ScanMode {
    /// At the start of a line.
    LineStart,
    /// In a header line, reading the key.
    HKey { key_start: int },
    /// In a header line, after the key, before the opening quote.
    HPreValue { key_start: int, key_end: int },
    /// In a header line, reading the quoted value; `seg_start` tracks the
    /// position after the last `/` seen in the value.
    HValue { key_start: int, key_end: int, value_start: int, seg_start: int },
    /// In a header line, after the closing quote.
    HTail,
    /// Inside a move-text line.
    MoveLine,
}

/// The whole state of the scan after some prefix of the transcript.
pub struct ScanState {
    pub section: Section,
    pub mode: ScanMode,
    pub in_comment: bool,
    pub depth: nat,
    pub in_token: bool,
    pub temp: TempView,
    pub games: Seq<GameView>,
}

/// The state before any character.
pub open spec fn init_state() -> ScanState {
    ScanState {
        section: Section::Between,
        mode: ScanMode::LineStart,
        in_comment: false,
        depth: 0,
        in_token: false,
        temp: temp_init(),
        games: Seq::empty(),
    }
}

/// A white-space or punctuation character that ends a move-text token.
pub open spec fn is_move_delim(c: char) -> bool {
    c == ' ' || c == '\t' || c == '\r' || c == '.'
}

/// An ASCII letter: what a counted half-move token starts with. Move
/// numbers, results and numeric annotations start otherwise.
pub open spec fn is_ascii_letter(c: char) -> bool {
    (65 <= c as u32 <= 90) || (97 <= c as u32 <= 122)
}

/// One move-text character. Comments in braces swallow everything up to
/// their closing brace; parentheses track the variation depth; a half-move
/// is counted exactly when a token starts with a letter on the mainline
/// (depth zero) outside any comment.
pub open spec fn move_char(st: ScanState, c: char) -> ScanState {
    if st.in_comment {
        if c == '}' {
            ScanState { in_comment: false, in_token: false, ..st }
        } else if c == '\n' {
            ScanState { mode: ScanMode::LineStart, ..st }
        } else {
            st
        }
    } else if c == '\n' {
        ScanState { mode: ScanMode::LineStart, in_token: false, ..st }
    } else if c == '{' {
        ScanState { in_comment: true, in_token: false, ..st }
    } else if c == '(' {
        ScanState { depth: st.depth + 1, in_token: false, ..st }
    } else if c == ')' {
        ScanState {
            depth: if st.depth > 0 {
                (st.depth - 1) as nat
            } else {
                0nat
            },
            in_token: false,
            ..st
        }
    } else if is_move_delim(c) {
        ScanState { in_token: false, ..st }
    } else if !st.in_token {
        if is_ascii_letter(c) && st.depth == 0 {
            ScanState {
                in_token: true,
                temp: TempView { counter: st.temp.counter + 1, ..st.temp },
                ..st
            }
        } else {
            ScanState { in_token: true, ..st }
        }
    } else {
        st
    }
}

/// One character of the scan: the transition of the whole state machine on
/// `s[i]`. At a line start the first character decides the line's kind —
/// blank lines separate headers from moves and end a game after moves; a
/// `[` opens a header line; anything else is move text — except that while
/// a comment or variation is open, every line continues the move text.
pub open spec fn scan_step(st: ScanState, s: Seq<char>, user: Seq<char>, i: int) -> ScanState
    recommends
        0 <= i < s.len(),
{
    let c = s[i];
    match st.mode {
        ScanMode::LineStart => {
            if st.section == Section::Moves && (st.in_comment || st.depth > 0) {
                move_char(ScanState { mode: ScanMode::MoveLine, ..st }, c)
            } else if c == '\n' {
                match st.section {
                    Section::Between => st,
                    Section::Headers => ScanState { section: Section::Moves, ..st },
                    Section::Moves => ScanState {
                        section: Section::Between,
                        games: close_game(st.games, st.temp),
                        temp: temp_init(),
                        ..st
                    },
                }
            } else if c == '[' {
                match st.section {
                    Section::Between => ScanState {
                        section: Section::Headers,
                        mode: ScanMode::HKey { key_start: i + 1 },
                        temp: temp_init(),
                        ..st
                    },
                    Section::Headers => ScanState { mode: ScanMode::HKey { key_start: i + 1 }, ..st },
                    Section::Moves => ScanState {
                        section: Section::Headers,
                        mode: ScanMode::HKey { key_start: i + 1 },
                        games: close_game(st.games, st.temp),
                        temp: temp_init(),
                        ..st
                    },
                }
            } else {
                let entered = if st.section == Section::Between {
                    ScanState {
                        section: Section::Moves,
                        mode: ScanMode::MoveLine,
                        temp: temp_init(),
                        ..st
                    }
                } else {
                    ScanState { section: Section::Moves, mode: ScanMode::MoveLine, ..st }
                };
                move_char(entered, c)
            }
        },
        ScanMode::HKey { key_start } => {
            if c == ' ' {
                ScanState { mode: ScanMode::HPreValue { key_start, key_end: i }, ..st }
            } else if c == '\n' {
                ScanState { mode: ScanMode::LineStart, ..st }
            } else {
                st
            }
        },
        ScanMode::HPreValue { key_start, key_end } => {
            if c == '"' {
                ScanState {
                    mode: ScanMode::HValue {
                        key_start,
                        key_end,
                        value_start: i + 1,
                        seg_start: i + 1,
                    },
                    ..st
                }
            } else if c == '\n' {
                ScanState { mode: ScanMode::LineStart, ..st }
            } else {
                st
            }
        },
        ScanMode::HValue { key_start, key_end, value_start, seg_start } => {
            if c == '"' {
                ScanState {
                    mode: ScanMode::HTail,
                    temp: apply_header(
                        st.temp,
                        s.subrange(key_start, key_end),
                        s.subrange(value_start, i),
                        s.subrange(seg_start, i),
                        user,
                    ),
                    ..st
                }
            } else if c == '\n' {
                ScanState { mode: ScanMode::LineStart, ..st }
            } else if c == '/' {
                ScanState {
                    mode: ScanMode::HValue { key_start, key_end, value_start, seg_start: i + 1 },
                    ..st
                }
            } else {
                st
            }
        },
        ScanMode::HTail => {
            if c == '\n' {
                ScanState { mode: ScanMode::LineStart, ..st }
            } else {
                st
            }
        },
        ScanMode::MoveLine => move_char(st, c),
    }
}

/// The state after the first `i` characters of the transcript.
pub open spec fn scan_upto(s: Seq<char>, user: Seq<char>, i: int) -> ScanState
    decreases i,
{
    if i <= 0 {
        init_state()
    } else {
        scan_step(scan_upto(s, user, i - 1), s, user, i - 1)
    }
}

/// At the end of the transcript an unfinished game is closed.
pub open spec fn spec_finish(st: ScanState) -> Seq<GameView> {
    if st.section == Section::Between {
        st.games
    } else {
        close_game(st.games, st.temp)
    }
}

/// Every game a transcript yields for a user: the scan of the whole text.
pub open spec fn spec_games(s: Seq<char>, user: Seq<char>) -> Seq<GameView> {
    spec_finish(scan_upto(s, user, s.len() as int))
}

/// The views of a collection of games.
pub open spec fn games_view(s: Seq<GameResult>) -> Seq<GameView> {
    s.map_values(|g: GameResult| g@)
}

/// The characters after the last `/` of the sequence, or the whole
/// sequence when it has none.
pub open spec fn last_segment(v: Seq<char>) -> Seq<char>
    decreases v.len(),
{
    if v.len() == 0 {
        v
    } else if v.last() == '/' {
        Seq::empty()
    } else {
        last_segment(v.drop_last()).push(v.last())
    }
}

/// While a header value is being read, the tracked segment tail is exactly
/// the last `/`-separated segment of the value so far.
proof fn lemma_seg_tracks_last_segment(s: Seq<char>, user: Seq<char>, i: int)
    requires
        0 <= i <= s.len(),
    ensures
        (match scan_upto(s, user, i).mode {
            ScanMode::HValue { key_start, key_end, value_start, seg_start } => {
                &&& 0 <= value_start <= seg_start <= i
                &&& s.subrange(seg_start, i) == last_segment(s.subrange(value_start, i))
            },
            _ => true,
        }),
    decreases i,
{
    if i > 0 {
        lemma_seg_tracks_last_segment(s, user, i - 1);
        let st = scan_upto(s, user, i - 1);
        let c = s[i - 1];
        match st.mode {
            ScanMode::HPreValue { key_start, key_end } => {
                if c == '"' {
                    assert(s.subrange(i, i) =~= Seq::<char>::empty());
                    assert(s.subrange(i, i) == last_segment(s.subrange(i, i)));
                }
            },
            ScanMode::HValue { key_start, key_end, value_start, seg_start } => {
                if c == '"' || c == '\n' {
                } else {
                    let value_pre = s.subrange(value_start, i - 1);
                    let value_now = s.subrange(value_start, i);
                    assert(value_now.len() > 0 && value_now.last() == c);
                    assert(value_now.drop_last() =~= value_pre);
                    if c == '/' {
                        assert(s.subrange(i, i) =~= Seq::<char>::empty());
                        assert(last_segment(value_now) == Seq::<char>::empty());
                    } else {
                        assert(last_segment(value_now) == last_segment(value_pre).push(c));
                        assert(s.subrange(seg_start, i) =~= s.subrange(seg_start, i - 1).push(c));
                    }
                }
            },
            _ => {},
        }
    }
}

/// The law behind the game id: the instant a `Site` header's quoted value
/// closes, the id recorded in the accumulator is the last `/`-separated
/// segment of that value.
pub proof fn lemma_site_id_is_last_segment(s: Seq<char>, user: Seq<char>, i: int)
    requires
        0 <= i < s.len(),
        s[i] == '"',
    ensures
        (match scan_upto(s, user, i).mode {
            ScanMode::HValue { key_start, key_end, value_start, seg_start } => s.subrange(
                key_start,
                key_end,
            ) == "Site"@ ==> scan_upto(s, user, i + 1).temp.id == Some(
                last_segment(s.subrange(value_start, i)),
            ),
            _ => true,
        }),
{
    lemma_seg_tracks_last_segment(s, user, i);
    assert(scan_upto(s, user, i + 1) == scan_step(scan_upto(s, user, i), s, user, i));
}

/// Bounds that hold of the scan state after `i` characters: the variation
/// depth and the half-move count never exceed the characters consumed, and
/// every position a mode holds lies within the consumed prefix, in order.
pub open spec fn scan_wf(st: ScanState, i: int) -> bool {
    &&& st.depth <= i
    &&& st.temp.counter <= i
    &&& match st.mode {
        ScanMode::HKey { key_start } => 0 <= key_start <= i,
        ScanMode::HPreValue { key_start, key_end } => 0 <= key_start <= key_end <= i,
        ScanMode::HValue { key_start, key_end, value_start, seg_start } => 0 <= key_start
            <= key_end && key_end <= value_start <= seg_start <= i,
        _ => true,
    }
}

/// The per-game accumulator while a transcript is walked (exec side).
struct TempGame {
    id: Option<String>,
    counter: usize,
    won: Option<bool>,
    is_white: Option<bool>,
}

impl View for TempGame {
    type V = TempView;

    closed spec fn view(&self) -> TempView {
        TempView {
            id: match self.id {
                Some(s) => Some(s@),
                None => None,
            },
            counter: self.counter as nat,
            won: self.won,
            is_white: self.is_white,
        }
    }
}

impl TempGame {
    fn new() -> (t: TempGame)
        ensures
            t@ == temp_init(),
    {
        TempGame { id: None, counter: 0, won: None, is_white: None }
    }
}

/// Where the scan stands within the current line (exec side; positions are
/// character indices into the transcript).
#[derive(Clone, Copy)]
enum Mode {
    LineStart,
    HKey { key_start: usize },
    HPreValue { key_start: usize, key_end: usize },
    HValue { key_start: usize, key_end: usize, value_start: usize, seg_start: usize },
    HTail,
    MoveLine,
}

impl View for Mode {
    type V = ScanMode;

    closed spec fn view(&self) -> ScanMode {
        match self {
            Mode::LineStart => ScanMode::LineStart,
            Mode::HKey { key_start } => ScanMode::HKey { key_start: *key_start as int },
            Mode::HPreValue { key_start, key_end } => ScanMode::HPreValue {
                key_start: *key_start as int,
                key_end: *key_end as int,
            },
            Mode::HValue { key_start, key_end, value_start, seg_start } => ScanMode::HValue {
                key_start: *key_start as int,
                key_end: *key_end as int,
                value_start: *value_start as int,
                seg_start: *seg_start as int,
            },
            Mode::HTail => ScanMode::HTail,
            Mode::MoveLine => ScanMode::MoveLine,
        }
    }
}

/// The running scan over one transcript.
struct Scanner {
    section: Section,
    mode: Mode,
    in_comment: bool,
    depth: usize,
    in_token: bool,
    temp: TempGame,
    games: Vec<GameResult>,
}

impl View for Scanner {
    type V = ScanState;

    closed spec fn view(&self) -> ScanState {
        ScanState {
            section: self.section,
            mode: self.mode@,
            in_comment: self.in_comment,
            depth: self.depth as nat,
            in_token: self.in_token,
            temp: self.temp@,
            games: games_view(self.games@),
        }
    }
}

impl Scanner {
    fn new() -> (sc: Scanner)
        ensures
            sc@ == init_state(),
    {
        let sc = Scanner {
            section: Section::Between,
            mode: Mode::LineStart,
            in_comment: false,
            depth: 0,
            in_token: false,
            temp: TempGame::new(),
            games: Vec::new(),
        };
        proof {
            assert(sc@.games =~= init_state().games);
        }
        sc
    }

    /// Ends the current game: a complete accumulator becomes one more game,
    /// an incomplete one is dropped; either way the accumulator is reset.
    fn close(&mut self)
        ensures
            final(self)@ == (ScanState {
                games: close_game(old(self)@.games, old(self)@.temp),
                temp: temp_init(),
                ..old(self)@
            }),
            final(self).mode == old(self).mode,
            final(self).depth == old(self).depth,
            final(self).temp.counter == 0,
    {
        broadcast use vstd::prelude::Seq::lemma_push_map_commute;

        let done: Option<GameResult> = match (&self.temp.id, self.temp.won, self.temp.is_white) {
            (Some(id), Some(won), Some(is_white)) => Some(
                GameResult { id: id.clone(), moves: self.temp.counter, won, is_white },
            ),
            _ => None,
        };
        match done {
            Some(g) => self.games.push(g),
            None => (),
        }
        self.temp = TempGame::new();
    }

    /// One move-text character (exec mirror of [`move_char`]).
    fn step_move_char(&mut self, c: char, i: usize)
        requires
            scan_wf(old(self)@, i as int),
            i < usize::MAX,
        ensures
            final(self)@ == move_char(old(self)@, c),
            final(self).section == old(self).section,
            scan_wf(final(self)@, i + 1),
    {
        if self.in_comment {
            if c == '}' {
                self.in_comment = false;
                self.in_token = false;
            } else if c == '\n' {
                self.mode = Mode::LineStart;
            }
        } else if c == '\n' {
            self.mode = Mode::LineStart;
            self.in_token = false;
        } else if c == '{' {
            self.in_comment = true;
            self.in_token = false;
        } else if c == '(' {
            self.depth = self.depth + 1;
            self.in_token = false;
        } else if c == ')' {
            if self.depth > 0 {
                self.depth = self.depth - 1;
            }
            self.in_token = false;
        } else if c == ' ' || c == '\t' || c == '\r' || c == '.' {
            self.in_token = false;
        } else if !self.in_token {
            self.in_token = true;
            let x = c as u32;
            if ((65 <= x && x <= 90) || (97 <= x && x <= 122)) && self.depth == 0 {
                self.temp.counter = self.temp.counter + 1;
            }
        }
    }

    /// One character of the scan (exec mirror of [`scan_step`]).
    fn step(&mut self, v: &Vec<char>, full: &str, user: &Vec<char>, i: usize)
        requires
            i < v@.len(),
            i < usize::MAX,
            full@ == v@,
            scan_wf(old(self)@, i as int),
            old(self)@ == scan_upto(v@, user@, i as int),
        ensures
            final(self)@ == scan_step(old(self)@, v@, user@, i as int),
            scan_wf(final(self)@, i + 1),
    {
        let c = v[i];
        match self.mode {
            Mode::LineStart => {
                if matches!(self.section, Section::Moves) && (self.in_comment || self.depth > 0) {
                    self.mode = Mode::MoveLine;
                    self.step_move_char(c, i);
                } else if c == '\n' {
                    match self.section {
                        Section::Between => (),
                        Section::Headers => {
                            self.section = Section::Moves;
                        },
                        Section::Moves => {
                            self.close();
                            self.section = Section::Between;
                        },
                    }
                } else if c == '[' {
                    match self.section {
                        Section::Between => {
                            self.temp = TempGame::new();
                        },
                        Section::Headers => (),
                        Section::Moves => {
                            self.close();
                        },
                    }
                    self.section = Section::Headers;
                    self.mode = Mode::HKey { key_start: i + 1 };
                } else {
                    if matches!(self.section, Section::Between) {
                        self.temp = TempGame::new();
                    }
                    self.section = Section::Moves;
                    self.mode = Mode::MoveLine;
                    self.step_move_char(c, i);
                }
            },
            Mode::HKey { key_start } => {
                if c == ' ' {
                    self.mode = Mode::HPreValue { key_start, key_end: i };
                } else if c == '\n' {
                    self.mode = Mode::LineStart;
                }
            },
            Mode::HPreValue { key_start, key_end } => {
                if c == '"' {
                    self.mode = Mode::HValue {
                        key_start,
                        key_end,
                        value_start: i + 1,
                        seg_start: i + 1,
                    };
                } else if c == '\n' {
                    self.mode = Mode::LineStart;
                }
            },
            Mode::HValue { key_start, key_end, value_start, seg_start } => {
                if c == '"' {
                    if range_eq_str(v, key_start, key_end, "Site") {
                        self.temp.id = Some(full.substring_char(seg_start, i).to_owned());
                    } else if range_eq_str(v, key_start, key_end, "White") {
                        self.temp.is_white = Some(range_contains(v, value_start, i, user));
                    } else if range_eq_str(v, key_start, key_end, "Result") {
                        self.temp.won = match self.temp.is_white {
                            Some(w) => Some(
                                if w {
                                    range_eq_str(v, value_start, i, "1-0")
                                } else {
                                    range_eq_str(v, value_start, i, "0-1")
                                },
                            ),
                            None => None,
                        };
                    }
                    self.mode = Mode::HTail;
                } else if c == '\n' {
                    self.mode = Mode::LineStart;
                } else if c == '/' {
                    self.mode = Mode::HValue { key_start, key_end, value_start, seg_start: i + 1 };
                }
            },
            Mode::HTail => {
                if c == '\n' {
                    self.mode = Mode::LineStart;
                }
            },
            Mode::MoveLine => {
                self.step_move_char(c, i);
            },
        }
    }
}

/// The outcome of analyzing one user's transcripts: the user and the games
/// extracted for them.
#[derive(Debug)]
pub struct MoveCounter {
    pub user_id: String,
    pub games: Vec<GameResult>,
}

/// `moves` never decreases along the sequence.
pub open spec fn sorted_by_moves(s: Seq<GameResult>) -> bool {
    forall|a: int, b: int|
        #![trigger s[a], s[b]]
        0 <= a < b < s.len() ==> s[a].moves <= s[b].moves
}

/// The suspicious games among a collection: exactly the lost ones, in
/// their original order.
pub open spec fn sus_filter(games: Seq<GameResult>) -> Seq<GameResult> {
    games.filter(|g: GameResult| !g.won)
}

impl MoveCounter {
    /// An analysis that found no games yet.
    pub fn new(user_id: String) -> (mc: MoveCounter)
        ensures
            mc.user_id == user_id,
            mc.games@ == Seq::<GameResult>::empty(),
    {
        MoveCounter { user_id, games: Vec::new() }
    }

    /// The suspicious games: exactly the lost ones, in ascending order of
    /// half-move count, so the shortest losses surface first.
    pub fn get_sorted_sus_games(&self) -> (r: Vec<GameResult>)
        ensures
            r@.to_multiset() == sus_filter(self.games@).to_multiset(),
            r@.len() == sus_filter(self.games@).len(),
            sorted_by_moves(r@),
            forall|k: int| 0 <= k < r@.len() ==> !(#[trigger] r@[k]).won,
    {
        let ghost filtered = sus_filter(self.games@);
        let mut pool: Vec<GameResult> = Vec::new();
        let n = self.games.len();
        let mut i: usize = 0;
        while i < n
            invariant
                i <= n,
                n == self.games@.len(),
                pool@ == sus_filter(self.games@.take(i as int)),
                forall|k: int| 0 <= k < pool@.len() ==> !(#[trigger] pool@[k]).won,
            decreases n - i,
        {
            proof {
                let pre = self.games@.take(i as int);
                assert(self.games@.take(i + 1) =~= pre.push(self.games@[i as int]));
                assert(sus_filter(self.games@.take(i + 1)) == sus_filter(
                    pre.push(self.games@[i as int]),
                ));
            }
            if !self.games[i].won {
                pool.push(self.games[i].clone());
            }
            i = i + 1;
        }
        proof {
            assert(self.games@.take(n as int) == self.games@);
        }
        let mut out: Vec<GameResult> = Vec::new();
        proof {
            out@.to_multiset_ensures();
            pool@.to_multiset_ensures();
            assert forall|x: GameResult| out@.to_multiset().count(x) == 0 by {
                assert(!out@.contains(x));
            }
            assert(out@.to_multiset().add(pool@.to_multiset()) =~= pool@.to_multiset());
        }
        while pool.len() > 0
            invariant
                out@.to_multiset().add(pool@.to_multiset()) == filtered.to_multiset(),
                out@.len() + pool@.len() == filtered.len(),
                sorted_by_moves(out@),
                forall|a: int, b: int|
                    #![trigger out@[a], pool@[b]]
                    0 <= a < out@.len() && 0 <= b < pool@.len() ==> out@[a].moves
                        <= pool@[b].moves,
                forall|k: int| 0 <= k < out@.len() ==> !(#[trigger] out@[k]).won,
                forall|k: int| 0 <= k < pool@.len() ==> !(#[trigger] pool@[k]).won,
            decreases pool.len(),
        {
            let mut m: usize = 0;
            let mut k: usize = 1;
            while k < pool.len()
                invariant
                    0 < pool@.len(),
                    m < k <= pool@.len(),
                    forall|q: int|
                        0 <= q < k ==> pool@[m as int].moves <= (#[trigger] pool@[q]).moves,
                decreases pool.len() - k,
            {
                if pool[k].moves < pool[m].moves {
                    m = k;
                }
                k = k + 1;
            }
            let ghost old_pool = pool@;
            let ghost old_out = out@;
            let g = pool.remove(m);
            proof {
                old_pool.remove_ensures(m as int);
                old_pool.to_multiset_ensures();
                old_out.to_multiset_ensures();
                assert(old_pool.contains(g)) by {
                    assert(old_pool[m as int] == g);
                }
                assert(old_pool.to_multiset().count(g) >= 1);
                let lhs = old_out.to_multiset().insert(g).add(old_pool.to_multiset().remove(g));
                let rhs = old_out.to_multiset().add(old_pool.to_multiset());
                assert forall|x: GameResult| lhs.count(x) == rhs.count(x) by {
                    if x != g {
                        assert(vstd::multiset::Multiset::singleton(g).count(x) == 0);
                    }
                }
                assert(lhs =~= rhs);
            }
            out.push(g);
        }
        proof {
            pool@.to_multiset_ensures();
            assert forall|x: GameResult| pool@.to_multiset().count(x) == 0 by {
                assert(!pool@.contains(x));
            }
            assert(out@.to_multiset() =~= out@.to_multiset().add(pool@.to_multiset()));
        }
        out
    }
}

/// Analyzes one raw transcript text for a user: walks the characters once
/// and yields every game whose id, outcome and color could be determined.
pub fn get_games(games: String, user_id: &str) -> (mc: MoveCounter)
    ensures
        mc.user_id@ == user_id@,
        games_view(mc.games@) == spec_games(games@, user_id@),
{
    let v = str_chars(games.as_str());
    let user = str_chars(user_id);
    let mut sc = Scanner::new();
    let n = v.len();
    let mut i: usize = 0;
    while i < n
        invariant
            i <= n,
            n == v@.len(),
            v@ == games@,
            user@ == user_id@,
            sc@ == scan_upto(games@, user_id@, i as int),
            scan_wf(sc@, i as int),
        decreases n - i,
    {
        sc.step(&v, games.as_str(), &user, i);
        i = i + 1;
    }
    if !matches!(sc.section, Section::Between) {
        sc.close();
    }
    MoveCounter { user_id: user_id.to_owned(), games: sc.games }
}

} // verus!
