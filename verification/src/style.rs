use vstd::prelude::*;

verus! {

/// The escape sequence that starts the foreground color with the given code.
pub open spec fn color_start(code: Seq<char>) -> Seq<char> {
    seq!['\u{1b}', '['] + code + seq!['m']
}

/// The escape sequence that ends a colored span.
pub open spec fn color_reset() -> Seq<char> {
    seq!['\u{1b}', '[', '0', 'm']
}

/// Whether the reset sequence occurs somewhere in `s`.
pub open spec fn holds_reset(s: Seq<char>) -> bool {
    exists|i: int| 0 <= i <= s.len() - color_reset().len() && #[trigger] s.subrange(i, i + color_reset().len()) == color_reset()
}

/// What holds of every way `colored` may write `s` in the color `code`:
/// unchanged where coloring is off; otherwise opened by the color's escape
/// sequence and closed by the reset sequence, with `s` itself in between
/// where `s` holds no reset sequence of its own.
pub open spec fn painted(r: Seq<char>, s: Seq<char>, code: Seq<char>) -> bool {
    ||| r == s
    ||| {
        &&& r.len() >= s.len() + color_start(code).len() + color_reset().len()
        &&& r.take(color_start(code).len() as int) == color_start(code)
        &&& r.skip(r.len() - color_reset().len()) == color_reset()
        &&& !holds_reset(s) ==> r == color_start(code) + s + color_reset()
    }
}

/// `colored::Colorize::red`, written out. Whether escape codes are written
/// depends on the environment and terminal (`colored`'s `SHOULD_COLORIZE`,
/// which this program never overrides); the contract states what holds
/// either way. Where coloring is on, `colored` writes `s` unchanged between
/// the two sequences unless `s` holds a reset sequence, after which it
/// writes the color again; that re-escaping is left unsaid.
#[verifier::external_body]
pub fn red(s: &str) -> (r: String)
    ensures
        painted(r@, s@, seq!['3', '1']),
{
    colored::Colorize::red(s).to_string()
}

/// `colored::Colorize::blue`, written out; see `red` for what is left unsaid.
#[verifier::external_body]
pub fn blue(s: &str) -> (r: String)
    ensures
        painted(r@, s@, seq!['3', '4']),
{
    colored::Colorize::blue(s).to_string()
}

/// `colored::Colorize::yellow`, written out; see `red` for what is left unsaid.
#[verifier::external_body]
pub fn yellow(s: &str) -> (r: String)
    ensures
        painted(r@, s@, seq!['3', '3']),
{
    colored::Colorize::yellow(s).to_string()
}

} // verus!
