use hangman::domain::{
    word_fully_guessed, GuessingData, MatchData, MatchParticipant, MatchScore, PlayerProfile,
    RoundResult, RoundState, Turn, WordSelectionData, MAX_WORD_LEN, MIN_WORD_LEN,
};
use hangman::letters::LetterSet;

fn selection(turn: Turn, word_length: u8) -> WordSelectionData {
    WordSelectionData {
        turn,
        word_length,
        input: String::new(),
        player_one_word: None,
        player_two_word: None,
    }
}

fn letters(chars: &str) -> LetterSet {
    let mut set = LetterSet::new();
    for c in chars.chars() {
        set.insert(c);
    }
    set
}

fn participant(name: &str) -> MatchParticipant {
    MatchParticipant { player: PlayerProfile { name: name.to_string() } }
}

fn match_guessing(one: &str, two: &str, guessed: &str) -> MatchData {
    MatchData {
        player_one: participant("Player One"),
        player_two: participant("Player Two"),
        match_score: MatchScore { player_one: 0, player_two: 0 },
        current_round: RoundState::Guessing(GuessingData {
            turn: Turn::PlayerOne,
            player_one_word: one.to_string(),
            player_two_word: two.to_string(),
            guessed_letters: letters(guessed),
        }),
    }
}

fn guessing(m: &MatchData) -> &GuessingData {
    match &m.current_round {
        RoundState::Guessing(g) => g,
        _ => panic!("the round is not guessing"),
    }
}

#[test]
fn push_char_lowercases_letters_and_ignores_others() {
    let mut ws = selection(Turn::PlayerOne, 5);
    ws.push_char('H');
    ws.push_char('1');
    ws.push_char(' ');
    ws.push_char('é');
    ws.push_char('i');
    assert_eq!(ws.input, "hi");
}

#[test]
fn push_char_stops_at_word_length() {
    let mut ws = selection(Turn::PlayerOne, 3);
    for c in "abcdef".chars() {
        ws.push_char(c);
    }
    assert_eq!(ws.input, "abc");
}

#[test]
fn push_char_counts_bytes_of_the_input() {
    let mut ws = selection(Turn::PlayerOne, 3);
    ws.input = "é".to_string();
    ws.push_char('a');
    assert_eq!(ws.input, "éa");
    ws.push_char('b');
    assert_eq!(ws.input, "éa");
}

#[test]
fn backspace_takes_back_a_typed_letter() {
    let mut ws = selection(Turn::PlayerTwo, 4);
    ws.input = "ab".to_string();
    ws.push_char('C');
    assert_eq!(ws.input, "abc");
    ws.backspace();
    assert_eq!(ws.input, "ab");
    assert_eq!(ws.turn, Turn::PlayerTwo);
    assert_eq!(ws.word_length, 4);
}

#[test]
fn backspace_on_empty_input_does_nothing() {
    let mut ws = selection(Turn::PlayerOne, 4);
    ws.backspace();
    assert_eq!(ws.input, "");
}

#[test]
fn enter_with_short_input_keeps_everything() {
    let mut ws = selection(Turn::PlayerOne, 4);
    ws.input = "abc".to_string();
    assert!(ws.on_enter().is_none());
    assert_eq!(ws.input, "abc");
    assert_eq!(ws.turn, Turn::PlayerOne);
    assert!(ws.player_one_word.is_none());
    assert!(ws.player_two_word.is_none());
}

#[test]
fn enter_stores_words_in_turn_then_starts_guessing() {
    let mut ws = selection(Turn::PlayerOne, 3);
    for c in "cat".chars() {
        ws.push_char(c);
    }
    assert!(ws.on_enter().is_none());
    assert_eq!(ws.player_one_word.as_deref(), Some("cat"));
    assert_eq!(ws.turn, Turn::PlayerTwo);
    assert_eq!(ws.input, "");
    for c in "Dog".chars() {
        ws.push_char(c);
    }
    let g = ws.on_enter().expect("both words are known");
    assert_eq!(g.turn, Turn::PlayerOne);
    assert_eq!(g.player_one_word, "cat");
    assert_eq!(g.player_two_word, "dog");
    assert!(!g.guessed_letters.contains(&'c'));
    assert!(ws.player_one_word.is_none());
    assert!(ws.player_two_word.is_none());
    assert_eq!(ws.input, "");
}

#[test]
fn enter_overwrites_the_word_of_the_player_in_turn() {
    let mut ws = selection(Turn::PlayerOne, 2);
    ws.player_one_word = Some("ab".to_string());
    ws.input = "cd".to_string();
    assert!(ws.on_enter().is_none());
    assert_eq!(ws.player_one_word.as_deref(), Some("cd"));
    assert_eq!(ws.turn, Turn::PlayerTwo);
}

#[test]
fn word_fully_guessed_skips_non_letters_and_ignores_case() {
    let guessed = letters("ab");
    assert!(word_fully_guessed(&guessed, "A-b b!"));
    assert!(!word_fully_guessed(&guessed, "abc"));
    assert!(word_fully_guessed(&LetterSet::new(), "12 -"));
    assert!(word_fully_guessed(&LetterSet::new(), ""));
}

#[test]
fn a_guessed_word_stays_guessed_with_more_letters() {
    let mut guessed = letters("do");
    assert!(!word_fully_guessed(&guessed, "good"));
    guessed.insert('g');
    assert!(word_fully_guessed(&guessed, "good"));
    assert!(!word_fully_guessed(&guessed, "goad"));
    guessed.insert('x');
    assert!(word_fully_guessed(&guessed, "good"));
}

#[test]
fn letter_set_holds_each_letter_once() {
    let mut set = LetterSet::new();
    assert!(set.insert('a'));
    assert!(!set.insert('a'));
    assert!(set.contains(&'a'));
    assert!(!set.contains(&'b'));
}

#[test]
fn guess_that_is_not_a_letter_changes_nothing() {
    let mut m = match_guessing("cat", "dog", "");
    m.guessing_char('7');
    let g = guessing(&m);
    assert_eq!(g.turn, Turn::PlayerOne);
    assert!(!g.guessed_letters.contains(&'7'));
}

#[test]
fn guess_without_winner_passes_the_turn() {
    let mut m = match_guessing("cat", "dog", "");
    m.guessing_char('A');
    let g = guessing(&m);
    assert_eq!(g.turn, Turn::PlayerTwo);
    assert!(g.guessed_letters.contains(&'a'));
    m.guessing_char('x');
    assert_eq!(guessing(&m).turn, Turn::PlayerOne);
    assert_eq!(m.match_score.player_one, 0);
    assert_eq!(m.match_score.player_two, 0);
}

#[test]
fn uncovering_player_twos_word_wins_for_player_one() {
    let mut m = match_guessing("cat", "dog", "do");
    m.guessing_char('G');
    match &m.current_round {
        RoundState::Finished(RoundResult::Won(p)) => assert_eq!(p.player.name, "Player One"),
        _ => panic!("player one should have won"),
    }
    assert_eq!(m.match_score.player_one, 1);
    assert_eq!(m.match_score.player_two, 0);
}

#[test]
fn uncovering_player_ones_word_wins_for_player_two() {
    let mut m = match_guessing("cat", "dog", "ca");
    m.guessing_char('t');
    match &m.current_round {
        RoundState::Finished(RoundResult::Won(p)) => assert_eq!(p.player.name, "Player Two"),
        _ => panic!("player two should have won"),
    }
    assert_eq!(m.match_score.player_one, 0);
    assert_eq!(m.match_score.player_two, 1);
}

#[test]
fn uncovering_both_words_is_a_draw() {
    let mut m = match_guessing("ab", "b", "a");
    m.guessing_char('b');
    assert!(matches!(m.current_round, RoundState::Finished(RoundResult::Draw)));
    assert_eq!(m.match_score.player_one, 0);
    assert_eq!(m.match_score.player_two, 0);
}

#[test]
fn guess_overflow_is_detected_before_the_score_wraps() {
    let mut m = match_guessing("cat", "dog", "do");
    m.match_score.player_one = u8::MAX;
    assert!(m.guess_would_overflow('g'));
    assert!(!m.guess_would_overflow('x'));
    assert!(!m.guess_would_overflow('?'));
    m.match_score.player_one = 254;
    assert!(!m.guess_would_overflow('g'));
    m.guessing_char('g');
    assert_eq!(m.match_score.player_one, u8::MAX);
}

#[test]
fn a_draw_never_overflows() {
    let mut m = match_guessing("ab", "b", "a");
    m.match_score.player_one = u8::MAX;
    m.match_score.player_two = u8::MAX;
    assert!(!m.guess_would_overflow('b'));
}

#[test]
fn keys_for_another_phase_change_nothing() {
    let mut m = match_guessing("cat", "dog", "");
    m.word_selection_push_char('a');
    m.word_selection_backspace();
    m.word_selection_enter();
    m.round_finished_enter();
    let g = guessing(&m);
    assert_eq!(g.turn, Turn::PlayerOne);
    assert!(!g.guessed_letters.contains(&'a'));
}

#[test]
fn match_flows_through_a_round() {
    let mut m = MatchData::new();
    let len = match &m.current_round {
        RoundState::WordSelection(ws) => ws.word_length,
        _ => panic!("a new match selects words"),
    };
    for _ in 0..len {
        m.word_selection_push_char('a');
    }
    m.word_selection_enter();
    for _ in 0..len {
        m.word_selection_push_char('B');
    }
    m.word_selection_backspace();
    m.word_selection_push_char('b');
    m.word_selection_enter();
    let g = guessing(&m);
    assert_eq!(g.player_one_word, "a".repeat(len as usize));
    assert_eq!(g.player_two_word, "b".repeat(len as usize));
    assert_eq!(g.turn, Turn::PlayerOne);
    m.guessing_char('b');
    assert_eq!(m.match_score.player_one, 1);
    m.round_finished_enter();
    match &m.current_round {
        RoundState::WordSelection(ws) => {
            assert_eq!(ws.turn, Turn::PlayerOne);
            assert_eq!(ws.input, "");
            assert!(ws.player_one_word.is_none() && ws.player_two_word.is_none());
            assert!(MIN_WORD_LEN <= ws.word_length && ws.word_length <= MAX_WORD_LEN);
        }
        _ => panic!("Enter starts the next round"),
    }
    assert_eq!(m.match_score.player_one, 1);
}

#[test]
fn new_match_has_named_players_and_no_score() {
    let m = MatchData::new();
    assert_eq!(m.player_one.player.name, "Player One");
    assert_eq!(m.player_two.player.name, "Player Two");
    assert_eq!(m.match_score.player_one, 0);
    assert_eq!(m.match_score.player_two, 0);
    match &m.current_round {
        RoundState::WordSelection(ws) => {
            assert_eq!(ws.turn, Turn::PlayerOne);
            assert_eq!(ws.input, "");
        }
        _ => panic!("a new match selects words"),
    }
}

#[test]
fn round_word_lengths_are_drawn_from_the_range() {
    let mut seen = [false; 256];
    for _ in 0..600 {
        match RoundState::new(Turn::PlayerTwo) {
            RoundState::WordSelection(ws) => {
                assert_eq!(ws.turn, Turn::PlayerTwo);
                assert!(MIN_WORD_LEN <= ws.word_length && ws.word_length <= MAX_WORD_LEN);
                seen[ws.word_length as usize] = true;
            }
            _ => panic!("a new round selects words"),
        }
    }
    let distinct = seen.iter().filter(|s| **s).count();
    assert!(distinct > 1);
}

#[test]
fn round_with_word_length_uses_it() {
    match RoundState::with_word_length(Turn::PlayerOne, 6) {
        RoundState::WordSelection(ws) => {
            assert_eq!(ws.word_length, 6);
            assert_eq!(ws.turn, Turn::PlayerOne);
            assert_eq!(ws.input, "");
        }
        _ => panic!("a new round selects words"),
    }
}
