//! The rules of a match: two players each pick a secret word of the same
//! length, then take turns guessing letters; whoever first sees the other's
//! word fully uncovered wins the round.
use crate::letters::LetterSet;
use crate::rng::random_in_range;
use crate::text::{
    all_lower_letters, ascii_lower, byte_len, is_ascii_letter, is_letter, is_lower_letter,
    lemma_ascii_lower, lemma_lower_letters_byte_len, to_ascii_lower,
};
use vstd::prelude::*;

verus! {

/// The shortest secret word a round can ask for.
pub const MIN_WORD_LEN: u8 = 3;

/// The longest secret word a round can ask for.
pub const MAX_WORD_LEN: u8 = 8;

/// Whose move it is.
#[derive(Clone, Copy, Debug, PartialEq, Eq, Structural)]
pub enum Turn {
    PlayerOne,
    PlayerTwo,
}

/// The player who moves after `t`.
pub open spec fn other_turn(t: Turn) -> Turn {
    match t {
        Turn::PlayerOne => Turn::PlayerTwo,
        Turn::PlayerTwo => Turn::PlayerOne,
    }
}

/// The chars of an optional string.
pub open spec fn opt_view(o: Option<String>) -> Option<Seq<char>> {
    match o {
        Some(s) => Some(s@),
        None => None,
    }
}

/// Every letter of `word` (ASCII letters, compared in lower case) is in
/// `guessed`; other chars need no guess.
pub open spec fn fully_guessed(guessed: Set<char>, word: Seq<char>) -> bool {
    forall|i: int|
        0 <= i < word.len() && is_ascii_letter(#[trigger] word[i]) ==> guessed.contains(
            ascii_lower(word[i]),
        )
}

/// The word-selection phase of a round: the players type their secret words
/// in turn.
pub struct WordSelectionData {
    pub turn: Turn,
    pub word_length: u8,
    pub input: String,
    pub player_one_word: Option<String>,
    pub player_two_word: Option<String>,
}

impl WordSelectionData {
    /// A selection phase that has just begun with `turn` to type first.
    pub open spec fn is_fresh(&self, turn: Turn) -> bool {
        &&& self.turn == turn
        &&& MIN_WORD_LEN <= self.word_length <= MAX_WORD_LEN
        &&& self.input@ == Seq::<char>::empty()
        &&& self.player_one_word is None
        &&& self.player_two_word is None
    }

    /// What the game keeps true of a selection phase: the input and the
    /// stored words are lower-case letters, the input is never longer than
    /// a word, and a stored word has exactly the word length.
    pub open spec fn wf(&self) -> bool {
        &&& all_lower_letters(self.input@)
        &&& self.input@.len() <= self.word_length
        &&& (self.player_one_word matches Some(w) ==> all_lower_letters(w@) && w@.len()
            == self.word_length)
        &&& (self.player_two_word matches Some(w) ==> all_lower_letters(w@) && w@.len()
            == self.word_length)
    }

    /// The input is as long as a word, so Enter stores it.
    pub open spec fn input_complete(&self) -> bool {
        byte_len(self.input@) == self.word_length
    }

    /// Player one's word once Enter has been handled.
    pub open spec fn entered_one(&self) -> Option<Seq<char>> {
        if self.input_complete() && self.turn == Turn::PlayerOne {
            Some(self.input@)
        } else {
            opt_view(self.player_one_word)
        }
    }

    /// Player two's word once Enter has been handled.
    pub open spec fn entered_two(&self) -> Option<Seq<char>> {
        if self.input_complete() && self.turn == Turn::PlayerTwo {
            Some(self.input@)
        } else {
            opt_view(self.player_two_word)
        }
    }

    /// Whose turn it is once Enter has been handled.
    pub open spec fn entered_turn(&self) -> Turn {
        if self.input_complete() {
            other_turn(self.turn)
        } else {
            self.turn
        }
    }

    /// Enter finishes the selection phase: both words are known.
    pub open spec fn enter_completes(&self) -> bool {
        self.entered_one() is Some && self.entered_two() is Some
    }

    /// How a typed char changes the phase: its lower case is appended when it
    /// is a letter and the input is shorter (in bytes) than a word.
    pub open spec fn push_char_step(old: WordSelectionData, new: WordSelectionData, c: char) -> bool {
        let lc = ascii_lower(c);
        &&& new.turn == old.turn
        &&& new.word_length == old.word_length
        &&& new.player_one_word == old.player_one_word
        &&& new.player_two_word == old.player_two_word
        &&& new.input@ == if is_ascii_letter(lc) && byte_len(old.input@) < old.word_length {
            old.input@.push(lc)
        } else {
            old.input@
        }
    }

    /// How Backspace changes the phase: the last char of the input goes.
    pub open spec fn backspace_step(old: WordSelectionData, new: WordSelectionData) -> bool {
        &&& new.turn == old.turn
        &&& new.word_length == old.word_length
        &&& new.player_one_word == old.player_one_word
        &&& new.player_two_word == old.player_two_word
        &&& new.input@ == if old.input@.len() > 0 {
            old.input@.drop_last()
        } else {
            old.input@
        }
    }

    /// What Enter leaves in the phase itself: a complete input is stored as
    /// the word of the player whose turn it is, the input is emptied and the
    /// turn passes; when both words are then known they leave the phase.
    pub open spec fn enter_step(old: WordSelectionData, new: WordSelectionData) -> bool {
        &&& new.turn == old.entered_turn()
        &&& new.word_length == old.word_length
        &&& new.input@ == if old.input_complete() {
            Seq::<char>::empty()
        } else {
            old.input@
        }
        &&& if old.enter_completes() {
            new.player_one_word is None && new.player_two_word is None
        } else {
            opt_view(new.player_one_word) == old.entered_one() && opt_view(new.player_two_word)
                == old.entered_two()
        }
    }

    /// The guessing phase that Enter starts once both words are known.
    pub open spec fn starts_guessing(old: WordSelectionData, g: GuessingData) -> bool {
        &&& g.turn == old.entered_turn()
        &&& Some(g.player_one_word@) == old.entered_one()
        &&& Some(g.player_two_word@) == old.entered_two()
        &&& g.guessed_letters@ == Set::<char>::empty()
    }

    /// Handles a typed char: its ASCII lower case is appended to the input
    /// when it is a letter and the input is still shorter than a word.
    pub fn push_char(&mut self, c: char)
        ensures
            Self::push_char_step(*old(self), *final(self), c),
            old(self).wf() ==> final(self).wf(),
    {
        proof {
            lemma_ascii_lower(c);
            if old(self).wf() {
                lemma_lower_letters_byte_len(old(self).input@);
            }
        }
        let c = to_ascii_lower(c);
        if is_letter(c) && self.input.len() < self.word_length as usize {
            self.input.push(c);
        }
    }

    /// Handles Backspace: removes the last char of the input, if any.
    pub fn backspace(&mut self)
        ensures
            Self::backspace_step(*old(self), *final(self)),
            old(self).wf() ==> final(self).wf(),
    {
        self.input.pop();
    }

    /// Handles Enter. A complete input becomes the word of the player whose
    /// turn it is, and the turn passes. Once both words are known the
    /// guessing phase that follows is returned, and the words leave `self`.
    pub fn on_enter(&mut self) -> (next: Option<GuessingData>)
        ensures
            Self::enter_step(*old(self), *final(self)),
            old(self).enter_completes() ==> (next matches Some(g) && Self::starts_guessing(
                *old(self),
                g,
            )),
            !old(self).enter_completes() ==> next is None,
            old(self).wf() ==> final(self).wf(),
            old(self).wf() ==> (next matches Some(g) ==> g.wf()),
    {
        proof {
            if old(self).wf() {
                lemma_lower_letters_byte_len(old(self).input@);
            }
        }
        if self.input.len() == self.word_length as usize {
            match self.turn {
                Turn::PlayerOne => {
                    self.player_one_word = Some(self.input.clone());
                    self.turn = Turn::PlayerTwo;
                },
                Turn::PlayerTwo => {
                    self.player_two_word = Some(self.input.clone());
                    self.turn = Turn::PlayerOne;
                },
            }
            self.input.clear();
        }
        let p1 = self.player_one_word.take();
        let p2 = self.player_two_word.take();
        match (p1, p2) {
            (Some(player_one_word), Some(player_two_word)) => Some(
                GuessingData {
                    turn: self.turn,
                    player_one_word,
                    player_two_word,
                    guessed_letters: LetterSet::new(),
                },
            ),
            (p1, p2) => {
                self.player_one_word = p1;
                self.player_two_word = p2;
                None
            },
        }
    }
}

/// The guessing phase of a round.
pub struct GuessingData {
    pub turn: Turn,
    pub player_one_word: String,
    pub player_two_word: String,
    pub guessed_letters: LetterSet,
}

impl GuessingData {
    /// What the game keeps true of a guessing phase: the words and the
    /// guessed letters are lower-case letters.
    pub open spec fn wf(&self) -> bool {
        &&& all_lower_letters(self.player_one_word@)
        &&& all_lower_letters(self.player_two_word@)
        &&& forall|c: char| #[trigger] self.guessed_letters@.contains(c) ==> is_lower_letter(c)
    }
}

/// The phase a round is in.
pub enum RoundState {
    WordSelection(WordSelectionData),
    Guessing(GuessingData),
    Finished(RoundResult),
}

impl RoundState {
    /// What the game keeps true of a round.
    pub open spec fn wf(&self) -> bool {
        match self {
            RoundState::WordSelection(ws) => ws.wf(),
            RoundState::Guessing(g) => g.wf(),
            RoundState::Finished(_) => true,
        }
    }

    /// A round that has just begun, with `turn` to type the first word.
    pub open spec fn is_fresh(&self, turn: Turn) -> bool {
        self matches RoundState::WordSelection(ws) && ws.is_fresh(turn)
    }

    /// A new round whose secret words have `word_length` letters, with
    /// `starting_turn` to type first.
    pub fn with_word_length(starting_turn: Turn, word_length: u8) -> (round: RoundState)
        ensures
            round matches RoundState::WordSelection(ws) && ws.turn == starting_turn
                && ws.word_length == word_length && ws.input@ == Seq::<char>::empty()
                && ws.player_one_word is None && ws.player_two_word is None,
    {
        RoundState::WordSelection(
            WordSelectionData {
                turn: starting_turn,
                word_length,
                input: String::new(),
                player_one_word: None,
                player_two_word: None,
            },
        )
    }

    /// A new round with `starting_turn` to type first; the word length is
    /// drawn at random from `MIN_WORD_LEN..=MAX_WORD_LEN`.
    pub fn new(starting_turn: Turn) -> (round: RoundState)
        ensures
            round.is_fresh(starting_turn),
    {
        let word_length = random_in_range(MIN_WORD_LEN, MAX_WORD_LEN);
        RoundState::with_word_length(starting_turn, word_length)
    }
}

/// How a round ended.
pub enum RoundResult {
    Won(MatchParticipant),
    Draw,
}

/// A match between two players.
pub struct MatchData {
    pub player_one: MatchParticipant,
    pub player_two: MatchParticipant,
    pub match_score: MatchScore,
    pub current_round: RoundState,
}

/// The rounds each player has won.
pub struct MatchScore {
    pub player_one: u8,
    pub player_two: u8,
}

/// A match that has been decided.
pub struct MatchFinishedData {
    pub match_data: MatchData,
    pub winner: MatchParticipant,
}

/// A match in play or decided.
pub enum MatchState {
    MatchInProgress(MatchData),
    MatchFinised(MatchFinishedData),
}

/// A player's profile.
#[derive(Clone)]
pub struct PlayerProfile {
    pub name: String,
}

/// A player taking part in a match.
#[derive(Clone)]
pub struct MatchParticipant {
    pub player: PlayerProfile,
}

/// A copy of `p` that equals it.
fn copy_participant(p: &MatchParticipant) -> (q: MatchParticipant)
    ensures
        q == *p,
{
    MatchParticipant { player: PlayerProfile { name: p.player.name.clone() } }
}

/// What a guess of `c` decides in guessing phase `g`: with `c`'s lower case
/// added to the guessed letters, player one wins when player two's word is
/// fully guessed, and player two wins when player one's word is.
pub open spec fn guessed_after(g: GuessingData, c: char) -> Set<char> {
    g.guessed_letters@.insert(ascii_lower(c))
}

/// Player one has uncovered player two's word once `c` is guessed.
pub open spec fn player_one_wins_with(g: GuessingData, c: char) -> bool {
    fully_guessed(guessed_after(g, c), g.player_two_word@)
}

/// Player two has uncovered player one's word once `c` is guessed.
pub open spec fn player_two_wins_with(g: GuessingData, c: char) -> bool {
    fully_guessed(guessed_after(g, c), g.player_one_word@)
}

impl MatchData {
    /// What the game keeps true of a match.
    pub open spec fn wf(&self) -> bool {
        self.current_round.wf()
    }

    /// A match that has just begun: the two players are named
    /// "Player One" and "Player Two", nobody has scored, and the first round
    /// has just begun with player one to type first.
    pub open spec fn is_new(&self) -> bool {
        &&& self.player_one.player.name@ == "Player One"@
        &&& self.player_two.player.name@ == "Player Two"@
        &&& self.match_score.player_one == 0
        &&& self.match_score.player_two == 0
        &&& self.current_round.is_fresh(Turn::PlayerOne)
    }

    /// The players and the score are as in `old`.
    pub open spec fn same_players_and_score(old: MatchData, new: MatchData) -> bool {
        &&& new.player_one == old.player_one
        &&& new.player_two == old.player_two
        &&& new.match_score == old.match_score
    }

    /// How a typed char changes a match whose round selects words.
    pub open spec fn push_char_step(old: MatchData, new: MatchData, c: char) -> bool {
        &&& Self::same_players_and_score(old, new)
        &&& match old.current_round {
            RoundState::WordSelection(ws) => new.current_round matches RoundState::WordSelection(
                ws2,
            ) && WordSelectionData::push_char_step(ws, ws2, c),
            _ => new.current_round == old.current_round,
        }
    }

    /// How Backspace changes a match whose round selects words.
    pub open spec fn backspace_step(old: MatchData, new: MatchData) -> bool {
        &&& Self::same_players_and_score(old, new)
        &&& match old.current_round {
            RoundState::WordSelection(ws) => new.current_round matches RoundState::WordSelection(
                ws2,
            ) && WordSelectionData::backspace_step(ws, ws2),
            _ => new.current_round == old.current_round,
        }
    }

    /// How Enter changes a match whose round selects words: once both words
    /// are known the round moves on to guessing.
    pub open spec fn enter_step(old: MatchData, new: MatchData) -> bool {
        &&& Self::same_players_and_score(old, new)
        &&& match old.current_round {
            RoundState::WordSelection(ws) => if ws.enter_completes() {
                new.current_round matches RoundState::Guessing(g)
                    && WordSelectionData::starts_guessing(ws, g)
            } else {
                new.current_round matches RoundState::WordSelection(ws2)
                    && WordSelectionData::enter_step(ws, ws2)
            },
            _ => new.current_round == old.current_round,
        }
    }

    /// The guess of `c` would push the winner's score past `u8::MAX`.
    pub open spec fn guess_overflows(&self, c: char) -> bool {
        &&& is_ascii_letter(c)
        &&& match self.current_round {
            RoundState::Guessing(g) => {
                let one = player_one_wins_with(g, c);
                let two = player_two_wins_with(g, c);
                ||| one && !two && self.match_score.player_one == u8::MAX
                ||| two && !one && self.match_score.player_two == u8::MAX
            },
            _ => false,
        }
    }

    /// How a guessed char changes a match whose round is guessing. A char
    /// that is not an ASCII letter changes nothing. Otherwise its lower case
    /// joins the guessed letters; if both words are then uncovered the round
    /// is a draw, if one is the player who uncovered it wins the round and
    /// scores a point, and else the turn passes to the other player.
    pub open spec fn guess_step(old: MatchData, new: MatchData, c: char) -> bool {
        if !is_ascii_letter(c) {
            new == old
        } else {
            &&& new.player_one == old.player_one
            &&& new.player_two == old.player_two
            &&& match old.current_round {
                RoundState::Guessing(g) => {
                    let one = player_one_wins_with(g, c);
                    let two = player_two_wins_with(g, c);
                    if one && two {
                        &&& new.current_round matches RoundState::Finished(RoundResult::Draw)
                        &&& new.match_score == old.match_score
                    } else if one {
                        &&& new.current_round matches RoundState::Finished(RoundResult::Won(p))
                            && p == old.player_one
                        &&& new.match_score.player_one == old.match_score.player_one + 1
                        &&& new.match_score.player_two == old.match_score.player_two
                    } else if two {
                        &&& new.current_round matches RoundState::Finished(RoundResult::Won(p))
                            && p == old.player_two
                        &&& new.match_score.player_one == old.match_score.player_one
                        &&& new.match_score.player_two == old.match_score.player_two + 1
                    } else {
                        &&& new.current_round matches RoundState::Guessing(g2) && g2.turn
                            == other_turn(g.turn) && g2.player_one_word == g.player_one_word
                            && g2.player_two_word == g.player_two_word && g2.guessed_letters@
                            == guessed_after(g, c)
                        &&& new.match_score == old.match_score
                    }
                },
                _ => new == old,
            }
        }
    }

    /// How Enter changes a match whose round is finished: a new round
    /// begins with player one to type first.
    pub open spec fn next_round_step(old: MatchData, new: MatchData) -> bool {
        &&& Self::same_players_and_score(old, new)
        &&& match old.current_round {
            RoundState::Finished(_) => new.current_round.is_fresh(Turn::PlayerOne),
            _ => new.current_round == old.current_round,
        }
    }

    /// Whether guessing `c` would push the winner's score past `u8::MAX`.
    pub fn guess_would_overflow(&self, c: char) -> (overflows: bool)
        ensures
            overflows == self.guess_overflows(ascii_lower(c)),
    {
        let lc = to_ascii_lower(c);
        if !is_letter(lc) {
            return false;
        }
        match &self.current_round {
            RoundState::Guessing(g) => {
                let one = letters_all_guessed(
                    &g.guessed_letters,
                    Some(lc),
                    g.player_two_word.as_str(),
                );
                let two = letters_all_guessed(
                    &g.guessed_letters,
                    Some(lc),
                    g.player_one_word.as_str(),
                );
                (one && !two && self.match_score.player_one == u8::MAX) || (two && !one
                    && self.match_score.player_two == u8::MAX)
            },
            _ => false,
        }
    }

    /// A new match between "Player One" and "Player Two".
    pub fn new() -> (m: MatchData)
        ensures
            m.is_new(),
            m.wf(),
    {
        MatchData {
            player_one: MatchParticipant { player: PlayerProfile { name: "Player One".to_owned() } },
            player_two: MatchParticipant { player: PlayerProfile { name: "Player Two".to_owned() } },
            match_score: MatchScore { player_one: 0, player_two: 0 },
            current_round: RoundState::new(Turn::PlayerOne),
        }
    }

    /// A typed char during word selection.
    pub fn word_selection_push_char(&mut self, c: char)
        ensures
            Self::push_char_step(*old(self), *final(self), c),
            old(self).wf() ==> final(self).wf(),
    {
        if let RoundState::WordSelection(ws) = &mut self.current_round {
            ws.push_char(c);
        }
    }

    /// Backspace during word selection.
    pub fn word_selection_backspace(&mut self)
        ensures
            Self::backspace_step(*old(self), *final(self)),
            old(self).wf() ==> final(self).wf(),
    {
        if let RoundState::WordSelection(ws) = &mut self.current_round {
            ws.backspace();
        }
    }

    /// Enter during word selection.
    pub fn word_selection_enter(&mut self)
        ensures
            Self::enter_step(*old(self), *final(self)),
            old(self).wf() ==> final(self).wf(),
    {
        let next = if let RoundState::WordSelection(ws) = &mut self.current_round {
            ws.on_enter()
        } else {
            None
        };
        if let Some(guessing) = next {
            self.current_round = RoundState::Guessing(guessing);
        }
    }

    /// A guessed char during the guessing phase.
    pub fn guessing_char(&mut self, c: char)
        requires
            !old(self).guess_overflows(ascii_lower(c)),
        ensures
            Self::guess_step(*old(self), *final(self), ascii_lower(c)),
            old(self).wf() ==> final(self).wf(),
    {
        let c = to_ascii_lower(c);
        if !is_letter(c) {
            return;
        }
        if let RoundState::Guessing(g_data) = &mut self.current_round {
            g_data.guessed_letters.insert(c);
            let player_one_won = word_fully_guessed(
                &g_data.guessed_letters,
                g_data.player_two_word.as_str(),
            );
            let player_two_won = word_fully_guessed(
                &g_data.guessed_letters,
                g_data.player_one_word.as_str(),
            );
            if player_one_won && player_two_won {
                self.current_round = RoundState::Finished(RoundResult::Draw);
            } else if player_one_won {
                self.match_score.player_one = self.match_score.player_one + 1;
                self.current_round = RoundState::Finished(
                    RoundResult::Won(copy_participant(&self.player_one)),
                );
            } else if player_two_won {
                self.match_score.player_two = self.match_score.player_two + 1;
                self.current_round = RoundState::Finished(
                    RoundResult::Won(copy_participant(&self.player_two)),
                );
            } else {
                g_data.turn = match g_data.turn {
                    Turn::PlayerOne => Turn::PlayerTwo,
                    Turn::PlayerTwo => Turn::PlayerOne,
                };
            }
        }
    }

    /// Enter once a round is finished: the next round begins.
    pub fn round_finished_enter(&mut self)
        ensures
            Self::next_round_step(*old(self), *final(self)),
            old(self).wf() ==> final(self).wf(),
    {
        if let RoundState::Finished(_) = &self.current_round {
            self.current_round = RoundState::new(Turn::PlayerOne);
        }
    }
}

/// Whether every letter of `word` has been guessed; chars that are not ASCII
/// letters need no guess, and letters are compared in lower case.
pub fn word_fully_guessed(guessed: &LetterSet, word: &str) -> (all: bool)
    ensures
        all == fully_guessed(guessed@, word@),
{
    letters_all_guessed(guessed, None, word)
}

/// Whether every letter of `word` is in `guessed` or is `extra`.
fn letters_all_guessed(guessed: &LetterSet, extra: Option<char>, word: &str) -> (all: bool)
    ensures
        all == fully_guessed(
            match extra {
                Some(e) => guessed@.insert(e),
                None => guessed@,
            },
            word@,
        ),
{
    let ghost set = match extra {
        Some(e) => guessed@.insert(e),
        None => guessed@,
    };
    let ghost chars = word@;
    for c in iter: word.chars()
        invariant
            iter.seq() == chars,
            chars == word@,
            set == match extra {
                Some(e) => guessed@.insert(e),
                None => guessed@,
            },
            forall|j: int|
                0 <= j < iter.index() && is_ascii_letter(#[trigger] chars[j]) ==> set.contains(
                    ascii_lower(chars[j]),
                ),
    {
        if is_letter(c) {
            let lc = to_ascii_lower(c);
            let found = match extra {
                Some(e) => e == lc || guessed.contains(&lc),
                None => guessed.contains(&lc),
            };
            if !found {
                proof {
                    let k = iter.index();
                    assert(is_ascii_letter(word@[k]) && !set.contains(ascii_lower(word@[k])));
                }
                return false;
            }
        }
    }
    true
}

} // verus!
