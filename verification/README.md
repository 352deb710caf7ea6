# hangman

A two-player word-guessing game for the terminal. Each round both players
type a secret word of the same, randomly drawn length; then they take turns
guessing letters, and whoever first uncovers the other's word wins the round.

The rules are a Verus-verified library:

- `src/text.rs`: ASCII case handling, byte lengths, and the specifications of
  the `String` operations used.
- `src/letters.rs`: `LetterSet`, the set of guessed letters.
- `src/domain.rs`: word selection, guessing, scoring and rounds.
- `src/app.rs`: screens, the home menu and key handling.
- `src/view.rs`: the text the screens show (masked words, prompts, the
  on-screen keyboard).
- `src/laws.rs`: properties relating several operations.
- `src/rng.rs`: the random draw of a word length.

`app/` is the terminal front end: it converts crossterm events into the
library's events and draws the screens with ratatui.
