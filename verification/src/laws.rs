//! Properties that relate several operations of the game.
use crate::app::{App, KeyCode, HOME_MENU_LEN};
use crate::domain::{fully_guessed, GuessingData, MatchData, WordSelectionData};
use crate::text::{ascii_lower, byte_len, is_ascii_letter};
use crate::view::{
    boxed_row, keyboard_text, masked_word, repeated, row_keys, KEYBOARD_INNER_WIDTH,
};
use vstd::prelude::*;

verus! {

/// A masked word shows the whole word exactly when every letter of it has
/// been guessed.
pub proof fn lemma_masked_word_is_word_iff_fully_guessed(guessed: Set<char>, word: Seq<char>)
    ensures
        (masked_word(guessed, word) == word) == fully_guessed(guessed, word),
{
    let m = masked_word(guessed, word);
    if fully_guessed(guessed, word) {
        assert(m =~= word);
    }
    if m == word {
        assert forall|i: int|
            0 <= i < word.len() && is_ascii_letter(#[trigger] word[i]) implies guessed.contains(
            ascii_lower(word[i]),
        ) by {
            assert(m[i] == word[i]);
        }
    }
}

/// Guessing more letters never covers a word up again: a word fully guessed
/// with some letters stays fully guessed with more.
pub proof fn lemma_fully_guessed_stays(fewer: Set<char>, more: Set<char>, word: Seq<char>)
    requires
        fewer.subset_of(more),
        fully_guessed(fewer, word),
    ensures
        fully_guessed(more, word),
{
}

/// Both secret words of a round have the length that the round asked for.
pub proof fn lemma_secret_words_have_the_word_length(ws: WordSelectionData, g: GuessingData)
    requires
        ws.wf(),
        ws.enter_completes(),
        WordSelectionData::starts_guessing(ws, g),
    ensures
        g.player_one_word@.len() == ws.word_length,
        g.player_two_word@.len() == ws.word_length,
{
    crate::text::lemma_lower_letters_byte_len(ws.input@);
}

/// While a word is typed, it is shown with exactly as many chars as a
/// secret word has: the letters typed, then `_` for each one missing.
pub proof fn lemma_masked_input_has_word_length(ws: WordSelectionData)
    requires
        ws.wf(),
    ensures
        byte_len(ws.input@) <= ws.word_length,
        (ws.input@ + repeated('_', (ws.word_length - byte_len(ws.input@)) as nat)).len()
            == ws.word_length,
{
    crate::text::lemma_lower_letters_byte_len(ws.input@);
}

/// Backspace takes back a char that typing has just added.
pub proof fn lemma_backspace_undoes_push_char(
    before: WordSelectionData,
    typed: WordSelectionData,
    after: WordSelectionData,
    c: char,
)
    requires
        is_ascii_letter(c),
        byte_len(before.input@) < before.word_length,
        WordSelectionData::push_char_step(before, typed, c),
        WordSelectionData::backspace_step(typed, after),
    ensures
        after.input@ == before.input@,
        after.turn == before.turn,
        after.word_length == before.word_length,
        after.player_one_word == before.player_one_word,
        after.player_two_word == before.player_two_word,
{
    crate::text::lemma_ascii_lower(c);
    assert(before.input@.push(ascii_lower(c)).drop_last() =~= before.input@);
}

/// On the home screen, Down followed by Up comes back to the same state.
pub proof fn lemma_home_down_then_up(before: App, moved: App, after: App)
    requires
        before.screen is Home,
        before.home_selected < HOME_MENU_LEN,
        App::key_step(before, moved, KeyCode::Down),
        App::key_step(moved, after, KeyCode::Up),
    ensures
        after == before,
{
}

/// On the home screen, Up and Down keep the selection on an entry of the
/// menu.
pub proof fn lemma_home_selection_stays_in_menu(before: App, after: App, code: KeyCode)
    requires
        before.screen is Home,
        code == KeyCode::Up || code == KeyCode::Down,
        App::key_step(before, after, code),
    ensures
        after.home_selected < HOME_MENU_LEN,
        after.screen is Home,
{
}

/// Esc always leads back to the home screen, from the rules and from a
/// match; on the home screen it asks to quit.
pub proof fn lemma_esc_goes_home(before: App, after: App)
    requires
        App::key_step(before, after, KeyCode::Esc),
    ensures
        after.screen is Home,
        before.screen is Home ==> after.should_quit,
{
}

/// A guess scores at most one point, for at most one player, and never
/// takes points away.
pub proof fn lemma_guess_scores_at_most_one_point(before: MatchData, after: MatchData, c: char)
    requires
        MatchData::guess_step(before, after, c),
    ensures
        after.match_score.player_one >= before.match_score.player_one,
        after.match_score.player_two >= before.match_score.player_two,
        after.match_score.player_one + after.match_score.player_two
            <= before.match_score.player_one + before.match_score.player_two + 1,
{
}

/// While a round is still being guessed, the guessed letters only grow.
pub proof fn lemma_guessed_letters_grow(before: MatchData, after: MatchData, c: char)
    requires
        MatchData::guess_step(before, after, c),
        before.current_round is Guessing,
        after.current_round is Guessing,
    ensures
        before.current_round->Guessing_0.guessed_letters@.subset_of(
            after.current_round->Guessing_0.guessed_letters@,
        ),
{
}

/// A keyboard row of `n` letters has `2n - 1` chars.
proof fn lemma_row_keys_len(letters: Seq<char>, guessed: Set<char>)
    requires
        letters.len() > 0,
    ensures
        row_keys(letters, guessed).len() == 2 * letters.len() - 1,
    decreases letters.len(),
{
    if letters.len() > 1 {
        lemma_row_keys_len(letters.drop_last(), guessed);
    }
}

/// The on-screen keyboard is a box of five lines of equal width, whatever
/// letters have been guessed.
pub proof fn lemma_keyboard_is_a_box(guessed: Set<char>)
    ensures
        keyboard_text(guessed).len() == 5 * (KEYBOARD_INNER_WIDTH + 2) + 4,
{
    reveal_strlit("qwertyuiop");
    reveal_strlit("asdfghjkl");
    reveal_strlit("zxcvbnm");
    lemma_row_keys_len("qwertyuiop"@, guessed);
    lemma_row_keys_len("asdfghjkl"@, guessed);
    lemma_row_keys_len("zxcvbnm"@, guessed);
    assert(boxed_row("qwertyuiop"@, 1, guessed).len() == KEYBOARD_INNER_WIDTH + 2);
    assert(boxed_row("asdfghjkl"@, 2, guessed).len() == KEYBOARD_INNER_WIDTH + 2);
    assert(boxed_row("zxcvbnm"@, 3, guessed).len() == KEYBOARD_INNER_WIDTH + 2);
}

/// A guess of a letter that leaves an unguessed letter in each secret word
/// decides nothing: the round goes on, the guessed letter is recorded, the
/// score stays, and the turn passes to the other player, whatever the letter
/// and wherever it occurs.
pub proof fn lemma_guess_without_winner_passes_the_turn(
    before: MatchData,
    after: MatchData,
    c: char,
    i: int,
    j: int,
)
    requires
        MatchData::guess_step(before, after, c),
        is_ascii_letter(c),
        before.current_round is Guessing,
        0 <= i < before.current_round->Guessing_0.player_two_word@.len(),
        is_ascii_letter(before.current_round->Guessing_0.player_two_word@[i]),
        ascii_lower(before.current_round->Guessing_0.player_two_word@[i]) != ascii_lower(c),
        !before.current_round->Guessing_0.guessed_letters@.contains(
            ascii_lower(before.current_round->Guessing_0.player_two_word@[i]),
        ),
        0 <= j < before.current_round->Guessing_0.player_one_word@.len(),
        is_ascii_letter(before.current_round->Guessing_0.player_one_word@[j]),
        ascii_lower(before.current_round->Guessing_0.player_one_word@[j]) != ascii_lower(c),
        !before.current_round->Guessing_0.guessed_letters@.contains(
            ascii_lower(before.current_round->Guessing_0.player_one_word@[j]),
        ),
    ensures
        after.current_round is Guessing,
        after.current_round->Guessing_0.turn != before.current_round->Guessing_0.turn,
        after.current_round->Guessing_0.guessed_letters@
            == before.current_round->Guessing_0.guessed_letters@.insert(ascii_lower(c)),
        after.current_round->Guessing_0.player_one_word
            == before.current_round->Guessing_0.player_one_word,
        after.current_round->Guessing_0.player_two_word
            == before.current_round->Guessing_0.player_two_word,
        after.match_score == before.match_score,
{
    let g = before.current_round->Guessing_0;
    let s = g.guessed_letters@.insert(ascii_lower(c));
    assert(is_ascii_letter(g.player_two_word@[i]) && !s.contains(ascii_lower(g.player_two_word@[i])));
    assert(!fully_guessed(s, g.player_two_word@));
    assert(is_ascii_letter(g.player_one_word@[j]) && !s.contains(ascii_lower(g.player_one_word@[j])));
    assert(!fully_guessed(s, g.player_one_word@));
}

/// A word counts as fully guessed exactly when the lower case of the ASCII
/// letter at every one of its positions has been guessed: one unguessed
/// letter anywhere in the word keeps it covered.
pub proof fn lemma_fully_guessed_needs_every_letter(guessed: Set<char>, word: Seq<char>, i: int)
    requires
        0 <= i < word.len(),
    ensures
        fully_guessed(guessed, word) && is_ascii_letter(word[i]) ==> guessed.contains(
            ascii_lower(word[i]),
        ),
        is_ascii_letter(word[i]) && !guessed.contains(ascii_lower(word[i])) ==> !fully_guessed(
            guessed,
            word,
        ),
        (forall|k: int|
            0 <= k < word.len() && is_ascii_letter(word[k]) ==> #[trigger] guessed.contains(
                ascii_lower(word[k]),
            )) ==> fully_guessed(guessed, word),
{
}

/// A masked word has the word's length, and shows `_` at exactly the
/// positions that hold an ASCII letter whose lower case has not been
/// guessed; every other position shows the word's own char.
pub proof fn lemma_masked_word_hides_exactly_unguessed_letters(guessed: Set<char>, word: Seq<char>)
    ensures
        masked_word(guessed, word).len() == word.len(),
        forall|i: int|
            0 <= i < word.len() ==> #[trigger] masked_word(guessed, word)[i] == if is_ascii_letter(
                word[i],
            ) && !guessed.contains(ascii_lower(word[i])) {
                '_'
            } else {
                word[i]
            },
{
    assert forall|i: int| 0 <= i < word.len() implies #[trigger] masked_word(guessed, word)[i]
        == if is_ascii_letter(word[i]) && !guessed.contains(ascii_lower(word[i])) {
        '_'
    } else {
        word[i]
    } by {
        crate::text::lemma_ascii_lower(word[i]);
    }
}

/// On the home screen, a key other than Esc, Up, Down and Enter changes
/// nothing.
pub proof fn lemma_home_other_keys_change_nothing(before: App, after: App, code: KeyCode)
    requires
        before.screen is Home,
        code != KeyCode::Esc,
        code != KeyCode::Up,
        code != KeyCode::Down,
        code != KeyCode::Enter,
        App::key_step(before, after, code),
    ensures
        after == before,
{
}

/// Only Esc on the home screen asks to quit.
pub proof fn lemma_only_esc_on_home_quits(before: App, after: App, code: KeyCode)
    requires
        !before.should_quit,
        App::key_step(before, after, code),
        after.should_quit,
    ensures
        code == KeyCode::Esc,
        before.screen is Home,
{
}

/// The keys of a keyboard row: the `k`-th letter stands at position `2k`,
/// blank exactly when that letter has been guessed, and a space stands
/// between two keys.
proof fn lemma_row_keys_cells(letters: Seq<char>, guessed: Set<char>)
    requires
        letters.len() > 0,
    ensures
        row_keys(letters, guessed).len() == 2 * letters.len() - 1,
        forall|k: int|
            0 <= k < letters.len() ==> row_keys(letters, guessed)[2 * k] == if guessed.contains(
                #[trigger] letters[k],
            ) {
                ' '
            } else {
                letters[k]
            },
        forall|k: int| 0 <= k < letters.len() - 1 ==> #[trigger] row_keys(letters, guessed)[2 * k + 1] == ' ',
    decreases letters.len(),
{
    if letters.len() > 1 {
        let rest = letters.drop_last();
        lemma_row_keys_cells(rest, guessed);
        let keys = row_keys(letters, guessed);
        let head = row_keys(rest, guessed);
        assert forall|k: int| 0 <= k < letters.len() implies keys[2 * k] == if guessed.contains(
            #[trigger] letters[k],
        ) {
            ' '
        } else {
            letters[k]
        } by {
            if k < letters.len() - 1 {
                assert(rest[k] == letters[k]);
                assert(keys[2 * k] == head[2 * k]);
            }
        }
        assert forall|k: int| 0 <= k < letters.len() - 1 implies #[trigger] keys[2 * k + 1] == ' ' by {
            if k < letters.len() - 2 {
                assert(keys[2 * k + 1] == head[2 * k + 1]);
            }
        }
    }
}

/// In a boxed row, key `k` stands after the border and the indent, blank
/// exactly when its letter has been guessed.
proof fn lemma_boxed_row_key(letters: Seq<char>, indent: nat, guessed: Set<char>, k: int)
    requires
        0 <= k < letters.len(),
    ensures
        boxed_row(letters, indent, guessed)[1 + indent + 2 * k] == if guessed.contains(letters[k]) {
            ' '
        } else {
            letters[k]
        },
{
    lemma_row_keys_cells(letters, guessed);
    let keys = row_keys(letters, guessed);
    let line = crate::view::row_line(letters, indent, guessed);
    assert(line[indent + 2 * k] == keys[2 * k]);
    assert(keys[2 * k] == if guessed.contains(letters[k]) { ' ' } else { letters[k] });
}

/// The on-screen keyboard shows every key of the three rows at its place,
/// blank exactly when its letter has been guessed and as the letter
/// otherwise, each key independently of the others.
pub proof fn lemma_keyboard_blanks_exactly_guessed_keys(guessed: Set<char>)
    ensures
        forall|k: int|
            0 <= k < 10 ==> keyboard_text(guessed)[26 + 2 * k] == if guessed.contains(
                #[trigger] "qwertyuiop"@[k],
            ) {
                ' '
            } else {
                "qwertyuiop"@[k]
            },
        forall|k: int|
            0 <= k < 9 ==> keyboard_text(guessed)[51 + 2 * k] == if guessed.contains(
                #[trigger] "asdfghjkl"@[k],
            ) {
                ' '
            } else {
                "asdfghjkl"@[k]
            },
        forall|k: int|
            0 <= k < 7 ==> keyboard_text(guessed)[76 + 2 * k] == if guessed.contains(
                #[trigger] "zxcvbnm"@[k],
            ) {
                ' '
            } else {
                "zxcvbnm"@[k]
            },
{
    reveal_strlit("qwertyuiop");
    reveal_strlit("asdfghjkl");
    reveal_strlit("zxcvbnm");
    lemma_keyboard_is_a_box(guessed);
    lemma_row_keys_len("qwertyuiop"@, guessed);
    lemma_row_keys_len("asdfghjkl"@, guessed);
    lemma_row_keys_len("zxcvbnm"@, guessed);
    let t = keyboard_text(guessed);
    let r1 = boxed_row("qwertyuiop"@, 1, guessed);
    let r2 = boxed_row("asdfghjkl"@, 2, guessed);
    let r3 = boxed_row("zxcvbnm"@, 3, guessed);
    assert(r1.len() == 23 && r2.len() == 23 && r3.len() == 23);
    assert forall|k: int| 0 <= k < 10 implies t[26 + 2 * k] == if guessed.contains(
        #[trigger] "qwertyuiop"@[k],
    ) {
        ' '
    } else {
        "qwertyuiop"@[k]
    } by {
        lemma_boxed_row_key("qwertyuiop"@, 1, guessed, k);
        assert(t[26 + 2 * k] == r1[2 + 2 * k]);
    }
    assert forall|k: int| 0 <= k < 9 implies t[51 + 2 * k] == if guessed.contains(
        #[trigger] "asdfghjkl"@[k],
    ) {
        ' '
    } else {
        "asdfghjkl"@[k]
    } by {
        lemma_boxed_row_key("asdfghjkl"@, 2, guessed, k);
        assert(t[51 + 2 * k] == r2[3 + 2 * k]);
    }
    assert forall|k: int| 0 <= k < 7 implies t[76 + 2 * k] == if guessed.contains(
        #[trigger] "zxcvbnm"@[k],
    ) {
        ' '
    } else {
        "zxcvbnm"@[k]
    } by {
        lemma_boxed_row_key("zxcvbnm"@, 3, guessed, k);
        assert(t[76 + 2 * k] == r3[4 + 2 * k]);
    }
}

} // verus!
