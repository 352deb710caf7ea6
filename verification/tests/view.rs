use hangman::domain::{MatchParticipant, PlayerProfile, RoundResult, Turn, WordSelectionData};
use hangman::letters::LetterSet;
use hangman::view::{mask_word, masked_input, render_keyboard_ascii, round_message, selection_prompt};

fn letters(chars: &str) -> LetterSet {
    let mut set = LetterSet::new();
    for c in chars.chars() {
        set.insert(c);
    }
    set
}

fn selection(input: &str, word_length: u8) -> WordSelectionData {
    WordSelectionData {
        turn: Turn::PlayerOne,
        word_length,
        input: input.to_string(),
        player_one_word: None,
        player_two_word: None,
    }
}

#[test]
fn keyboard_with_nothing_guessed() {
    let expected = [
        "┌─────────────────────┐",
        "│ q w e r t y u i o p │",
        "│  a s d f g h j k l  │",
        "│   z x c v b n m     │",
        "└─────────────────────┘",
    ]
    .join("\n");
    assert_eq!(render_keyboard_ascii(&LetterSet::new()), expected);
}

#[test]
fn keyboard_blanks_guessed_letters() {
    let expected = [
        "┌─────────────────────┐",
        "│   w e r t y u i o p │",
        "│    s d f g h j k l  │",
        "│   z x c v b n       │",
        "└─────────────────────┘",
    ]
    .join("\n");
    assert_eq!(render_keyboard_ascii(&letters("qam")), expected);
}

#[test]
fn keyboard_is_a_box_of_equal_lines() {
    for guessed in ["", "abc", "qwertyuiopasdfghjklzxcvbnm"] {
        let text = render_keyboard_ascii(&letters(guessed));
        let lines: Vec<&str> = text.split('\n').collect();
        assert_eq!(lines.len(), 5);
        for line in lines {
            assert_eq!(line.chars().count(), 23);
        }
        assert_eq!(text.chars().count(), 5 * 23 + 4);
    }
}

#[test]
fn mask_word_hides_unguessed_letters() {
    assert_eq!(mask_word(&letters("a"), "Banana!"), "_a_a_a!");
    assert_eq!(mask_word(&LetterSet::new(), "a b"), "_ _");
    assert_eq!(mask_word(&letters("x"), ""), "");
}

#[test]
fn mask_word_shows_the_word_exactly_when_fully_guessed() {
    let guessed = letters("abn");
    assert_eq!(mask_word(&guessed, "Banana!"), "Banana!");
    assert!(hangman::domain::word_fully_guessed(&guessed, "Banana!"));
    let fewer = letters("ab");
    assert_ne!(mask_word(&fewer, "Banana!"), "Banana!");
    assert!(!hangman::domain::word_fully_guessed(&fewer, "Banana!"));
}

#[test]
fn masked_input_pads_with_underscores() {
    assert_eq!(masked_input(&selection("ab", 5)), "ab___");
    assert_eq!(masked_input(&selection("", 3)), "___");
    assert_eq!(masked_input(&selection("abc", 3)), "abc");
}

#[test]
fn prompt_asks_to_confirm_a_full_word() {
    assert_eq!(selection_prompt(&selection("ab", 3)), "Write a Secret Word");
    assert_eq!(selection_prompt(&selection("abc", 3)), "Press ENTER to Confirm");
}

#[test]
fn round_messages() {
    assert_eq!(round_message(&RoundResult::Draw), "This Round's a Draw");
    let winner = MatchParticipant { player: PlayerProfile { name: "Player Two".to_string() } };
    assert_eq!(round_message(&RoundResult::Won(winner)), "Player Two Won the Round");
}
