//! The text that the screens show: masked words, prompts, round messages and
//! the on-screen keyboard of guessed letters.
use crate::domain::{RoundResult, WordSelectionData};
use crate::letters::LetterSet;
use crate::text::{ascii_lower, byte_len, is_ascii_letter, is_letter, to_ascii_lower};
use vstd::prelude::*;

verus! {

/// The width of the keyboard box between its two side borders.
pub const KEYBOARD_INNER_WIDTH: usize = 21;

/// Box-drawing chars of the keyboard frame.
pub const TOP_LEFT: char = '\u{250C}';

pub const TOP_RIGHT: char = '\u{2510}';

pub const BOTTOM_LEFT: char = '\u{2514}';

pub const BOTTOM_RIGHT: char = '\u{2518}';

pub const HORIZONTAL: char = '\u{2500}';

pub const VERTICAL: char = '\u{2502}';

/// `n` copies of `c`.
pub open spec fn repeated(c: char, n: nat) -> Seq<char> {
    Seq::new(n, |i: int| c)
}

/// How a char of a secret word is shown: as itself when it is not an ASCII
/// letter or its lower case has been guessed, and as `_` otherwise.
pub open spec fn mask_char(guessed: Set<char>, c: char) -> char {
    let lc = ascii_lower(c);
    if !is_ascii_letter(lc) || guessed.contains(lc) {
        c
    } else {
        '_'
    }
}

/// A secret word as shown while letters are guessed.
pub open spec fn masked_word(guessed: Set<char>, word: Seq<char>) -> Seq<char> {
    Seq::new(word.len(), |i: int| mask_char(guessed, word[i]))
}

/// A key of the on-screen keyboard: blank once guessed.
pub open spec fn key_cell(guessed: Set<char>, c: char) -> char {
    if guessed.contains(c) {
        ' '
    } else {
        c
    }
}

/// The keys of a keyboard row, one space apart.
pub open spec fn row_keys(letters: Seq<char>, guessed: Set<char>) -> Seq<char>
    decreases letters.len(),
{
    if letters.len() == 0 {
        Seq::empty()
    } else if letters.len() == 1 {
        seq![key_cell(guessed, letters[0])]
    } else {
        row_keys(letters.drop_last(), guessed) + seq![' ', key_cell(guessed, letters.last())]
    }
}

/// A keyboard row: `indent` spaces, then its keys.
pub open spec fn row_line(letters: Seq<char>, indent: nat, guessed: Set<char>) -> Seq<char> {
    repeated(' ', indent) + row_keys(letters, guessed)
}

/// A keyboard row between side borders, padded with spaces to the inner
/// width.
pub open spec fn boxed_row(letters: Seq<char>, indent: nat, guessed: Set<char>) -> Seq<char> {
    let line = row_line(letters, indent, guessed);
    let pad: nat = if line.len() < KEYBOARD_INNER_WIDTH {
        (KEYBOARD_INNER_WIDTH - line.len()) as nat
    } else {
        0
    };
    seq![VERTICAL] + line + repeated(' ', pad) + seq![VERTICAL]
}

/// A horizontal border of the keyboard box.
pub open spec fn border(left: char, right: char) -> Seq<char> {
    seq![left] + repeated(HORIZONTAL, KEYBOARD_INNER_WIDTH as nat) + seq![right]
}

/// The on-screen keyboard: the three letter rows of a QWERTY keyboard in a
/// box, lines separated by `\n`, with the guessed letters blanked out.
pub open spec fn keyboard_text(guessed: Set<char>) -> Seq<char> {
    border(TOP_LEFT, TOP_RIGHT) + seq!['\n'] + boxed_row("qwertyuiop"@, 1, guessed) + seq!['\n']
        + boxed_row("asdfghjkl"@, 2, guessed) + seq!['\n'] + boxed_row("zxcvbnm"@, 3, guessed)
        + seq!['\n'] + border(BOTTOM_LEFT, BOTTOM_RIGHT)
}

/// Appends `n` copies of `c`.
fn push_repeated(out: &mut String, c: char, n: usize)
    ensures
        final(out)@ == old(out)@ + repeated(c, n as nat),
{
    let mut i: usize = 0;
    while i < n
        invariant
            0 <= i <= n,
            out@ == old(out)@ + repeated(c, i as nat),
        decreases n - i,
    {
        out.push(c);
        i = i + 1;
        assert(out@ =~= old(out)@ + repeated(c, i as nat));
    }
}

/// Appends the chars of `s`.
fn push_str(out: &mut String, s: &str)
    ensures
        final(out)@ == old(out)@ + s@,
{
    let ghost chars = s@;
    let ghost start = out@;
    for c in iter: s.chars()
        invariant
            iter.seq() == chars,
            chars == s@,
            out@ == start + chars.take(iter.index()),
    {
        assert(chars.take(iter.index() + 1) =~= chars.take(iter.index()).push(c));
        out.push(c);
    }
    assert(chars.take(chars.len() as int) =~= chars);
}

/// The keys of a keyboard row, one space apart, appended.
fn push_row_keys(out: &mut String, letters: &str, guessed: &LetterSet)
    ensures
        final(out)@ == old(out)@ + row_keys(letters@, guessed@),
{
    let ghost chars = letters@;
    let ghost start = out@;
    let mut first = true;
    for c in iter: letters.chars()
        invariant
            iter.seq() == chars,
            chars == letters@,
            first == (iter.index() == 0),
            out@ == start + row_keys(chars.take(iter.index()), guessed@),
    {
        let ghost k = iter.index();
        assert(chars.take(k + 1).drop_last() =~= chars.take(k));
        assert(chars.take(k + 1).last() == c);
        if !first {
            out.push(' ');
        }
        if guessed.contains(&c) {
            out.push(' ');
        } else {
            out.push(c);
        }
        first = false;
        proof {
            if k == 0 {
                assert(row_keys(chars.take(0), guessed@) =~= Seq::empty());
            }
            assert(out@ =~= start + row_keys(chars.take(k + 1), guessed@));
        }
    }
    assert(chars.take(chars.len() as int) =~= chars);
}

/// A keyboard row between side borders, padded to the inner width, appended.
fn push_boxed_row(out: &mut String, letters: &str, indent: usize, guessed: &LetterSet)
    requires
        vstd::utf8::is_ascii_chars(letters@),
    ensures
        final(out)@ == old(out)@ + boxed_row(letters@, indent as nat, guessed@),
{
    let mut inner = String::new();
    push_repeated(&mut inner, ' ', indent);
    push_row_keys(&mut inner, letters, guessed);
    proof {
        assert(inner@ =~= row_line(letters@, indent as nat, guessed@));
        lemma_row_line_ascii(letters@, indent as nat, guessed@);
        vstd::utf8::is_ascii_chars_encode_utf8(inner@);
    }
    let pad = KEYBOARD_INNER_WIDTH.saturating_sub(inner.len());
    let ghost before = out@;
    out.push(VERTICAL);
    push_str(out, inner.as_str());
    push_repeated(out, ' ', pad);
    out.push(VERTICAL);
    assert(out@ =~= before + boxed_row(letters@, indent as nat, guessed@));
}

/// A keyboard row of ASCII letters is ASCII.
proof fn lemma_row_keys_ascii(letters: Seq<char>, guessed: Set<char>)
    requires
        vstd::utf8::is_ascii_chars(letters),
    ensures
        vstd::utf8::is_ascii_chars(row_keys(letters, guessed)),
    decreases letters.len(),
{
    if letters.len() > 1 {
        let rest = letters.drop_last();
        assert(vstd::utf8::is_ascii_chars(rest)) by {
            assert forall|i: int| 0 <= i < rest.len() implies '\0' <= #[trigger] rest[i]
                <= '\u{7f}' by {
                assert(rest[i] == letters[i]);
            }
        }
        lemma_row_keys_ascii(rest, guessed);
        let keys = row_keys(letters, guessed);
        let head = row_keys(rest, guessed);
        assert forall|i: int| 0 <= i < keys.len() implies '\0' <= #[trigger] keys[i]
            <= '\u{7f}' by {
            if i < head.len() {
                assert(keys[i] == head[i]);
            }
        }
    }
}

/// A keyboard row line of ASCII letters is ASCII.
proof fn lemma_row_line_ascii(letters: Seq<char>, indent: nat, guessed: Set<char>)
    requires
        vstd::utf8::is_ascii_chars(letters),
    ensures
        vstd::utf8::is_ascii_chars(row_line(letters, indent, guessed)),
{
    lemma_row_keys_ascii(letters, guessed);
    let line = row_line(letters, indent, guessed);
    let keys = row_keys(letters, guessed);
    assert forall|i: int| 0 <= i < line.len() implies '\0' <= #[trigger] line[i] <= '\u{7f}' by {
        if i >= indent {
            assert(line[i] == keys[i - indent]);
        }
    }
}

/// Appends a horizontal border.
fn push_border(out: &mut String, left: char, right: char)
    ensures
        final(out)@ == old(out)@ + border(left, right),
{
    let ghost before = out@;
    out.push(left);
    push_repeated(out, HORIZONTAL, KEYBOARD_INNER_WIDTH);
    out.push(right);
    assert(out@ =~= before + border(left, right));
}

/// The on-screen keyboard with the guessed letters blanked out.
pub fn render_keyboard_ascii(guessed: &LetterSet) -> (text: String)
    ensures
        text@ == keyboard_text(guessed@),
{
    let top = "qwertyuiop";
    let middle = "asdfghjkl";
    let bottom = "zxcvbnm";
    proof {
        reveal_strlit("qwertyuiop");
        reveal_strlit("asdfghjkl");
        reveal_strlit("zxcvbnm");
    }
    let mut out = String::new();
    push_border(&mut out, TOP_LEFT, TOP_RIGHT);
    out.push('\n');
    push_boxed_row(&mut out, top, 1, guessed);
    out.push('\n');
    push_boxed_row(&mut out, middle, 2, guessed);
    out.push('\n');
    push_boxed_row(&mut out, bottom, 3, guessed);
    out.push('\n');
    push_border(&mut out, BOTTOM_LEFT, BOTTOM_RIGHT);
    assert(out@ =~= keyboard_text(guessed@));
    out
}

/// A secret word as shown while letters are guessed: each ASCII letter
/// whose lower case has not been guessed becomes `_`.
pub fn mask_word(guessed: &LetterSet, word: &str) -> (masked: String)
    ensures
        masked@ == masked_word(guessed@, word@),
{
    let ghost chars = word@;
    let mut out = String::new();
    for c in iter: word.chars()
        invariant
            iter.seq() == chars,
            chars == word@,
            out@ == masked_word(guessed@, chars.take(iter.index())),
    {
        let ghost k = iter.index();
        let lc = to_ascii_lower(c);
        if !is_letter(lc) || guessed.contains(&lc) {
            out.push(c);
        } else {
            out.push('_');
        }
        assert(out@ =~= masked_word(guessed@, chars.take(k + 1)));
    }
    assert(chars.take(chars.len() as int) =~= chars);
    out
}

/// The input of the word-selection phase followed by one `_` for each
/// byte still missing from a full word.
pub fn masked_input(ws: &WordSelectionData) -> (shown: String)
    requires
        byte_len(ws.input@) <= ws.word_length,
    ensures
        shown@ == ws.input@ + repeated('_', (ws.word_length - byte_len(ws.input@)) as nat),
{
    let remaining = ws.word_length as usize - ws.input.len();
    let mut shown = ws.input.clone();
    push_repeated(&mut shown, '_', remaining);
    shown
}

/// The prompt of the word-selection phase: asks for a word until the input
/// is as long as one, then asks to confirm it.
pub fn selection_prompt(ws: &WordSelectionData) -> (prompt: &'static str)
    ensures
        prompt@ == if byte_len(ws.input@) != ws.word_length {
            "Write a Secret Word"@
        } else {
            "Press ENTER to Confirm"@
        },
{
    if ws.input.len() != ws.word_length as usize {
        "Write a Secret Word"
    } else {
        "Press ENTER to Confirm"
    }
}

/// The message shown once a round is over.
pub fn round_message(result: &RoundResult) -> (message: String)
    ensures
        message@ == match result {
            RoundResult::Draw => "This Round's a Draw"@,
            RoundResult::Won(winner) => winner.player.name@ + " Won the Round"@,
        },
{
    match result {
        RoundResult::Draw => "This Round's a Draw".to_owned(),
        RoundResult::Won(winner) => {
            let mut message = winner.player.name.clone();
            push_str(&mut message, " Won the Round");
            message
        },
    }
}

} // verus!
