//! Origin patterns: regular expressions, matched against the whole origin.
use vstd::prelude::*;

verus! {

/// Whether `regex::Regex::new` accepts `pattern`.
pub uninterp spec fn regex_compiles(pattern: Seq<char>) -> bool;

/// Whether the regex compiled from `pattern` finds a match somewhere in `text`.
pub uninterp spec fn regex_finds(pattern: Seq<char>, text: Seq<char>) -> bool;

/// A character that a regex matches literally: ASCII letters and digits,
/// `:`, `/`, `-` and `_` (none of them has a meaning outside a class).
pub open spec fn plain_char(c: char) -> bool {
    ('a' <= c && c <= 'z') || ('A' <= c && c <= 'Z') || ('0' <= c && c <= '9') || c == ':'
        || c == '/' || c == '-' || c == '_'
}

/// A string made only of characters that a regex matches literally.
pub open spec fn plain(s: Seq<char>) -> bool {
    forall|i: int| 0 <= i < s.len() ==> plain_char(#[trigger] s[i])
}

/// The regex syntax `.*`: any characters but a newline.
pub open spec fn any_suffix() -> Seq<char> {
    seq!['.', '*']
}

/// `source` enclosed so that it must match the whole text: `^(?:source)$`.
pub open spec fn anchored(source: Seq<char>) -> Seq<char> {
    seq!['^', '(', '?', ':'] + source + seq![')', '$']
}

/// `text` begins with `prefix` and holds no newline after it.
pub open spec fn prefix_then_line(prefix: Seq<char>, text: Seq<char>) -> bool {
    &&& prefix.len() <= text.len()
    &&& text.subrange(0, prefix.len() as int) == prefix
    &&& forall|i: int| prefix.len() <= i < text.len() ==> #[trigger] text[i] != '\n'
}

/// A source that is a literal, or a literal followed by `.*`, of modest length.
pub open spec fn simple_source(source: Seq<char>) -> bool {
    source.len() <= 256 && (plain(source) || (source.len() >= 2 && plain(source.drop_last().drop_last())
        && source.subrange(source.len() - 2, source.len() as int) == any_suffix()))
}

/// Whether `text` as a whole matches the regex written `source`.
///
/// A literal matches only itself; a literal followed by `.*` matches every
/// text that starts with the literal and has no newline after it; any other
/// source is left to the regex engine.
pub open spec fn whole_match(source: Seq<char>, text: Seq<char>) -> bool {
    if simple_source(source) && plain(source) {
        text == source
    } else if simple_source(source) {
        prefix_then_line(source.drop_last().drop_last(), text)
    } else {
        regex_compiles(anchored(source)) && regex_finds(anchored(source), text)
    }
}

/// Whether a rule written `source` can be compiled once anchored.
pub open spec fn source_compiles(source: Seq<char>) -> bool {
    simple_source(source) || regex_compiles(anchored(source))
}

/// Relies on `regex::Regex::new`: whether the pattern is accepted. The syntax
/// `^`, `(?:…)`, `$`, `.` and `*`, with literal characters, is accepted when the
/// program stays far below the default size limit of 10 MiB.
#[verifier::external_body]
fn regex_accepts(pattern: &str) -> (r: bool)
    ensures
        r == regex_compiles(pattern@),
        forall|source: Seq<char>|
            pattern@ == #[trigger] anchored(source) && simple_source(source) ==> r,
{
    regex::Regex::new(pattern).is_ok()
}

/// Relies on `regex::Regex::new` and `regex::Regex::is_match`: whether the
/// compiled pattern matches somewhere in `text`, and false where it does not
/// compile. By the crate's syntax, `^` and `$` hold only at the start and the
/// end of the text, a literal character matches itself and `.` any character
/// but a newline.
#[verifier::external_body]
fn regex_is_match(pattern: &str, text: &str) -> (r: bool)
    ensures
        r == (regex_compiles(pattern@) && regex_finds(pattern@, text@)),
        forall|source: Seq<char>|
            pattern@ == #[trigger] anchored(source) && simple_source(source) ==> (r
                == whole_match(source, text@)),
{
    match regex::Regex::new(pattern) {
        Ok(re) => re.is_match(text),
        Err(_) => false,
    }
}

/// The anchored form of `source`.
fn anchor(source: &str) -> (r: String)
    ensures
        r@ == anchored(source@),
{
    proof {
        reveal_strlit("^(?:");
        reveal_strlit(")$");
    }
    let mut r = String::from_str("^(?:");
    r.append(source);
    r.append(")$");
    proof {
        assert(r@ =~= anchored(source@));
    }
    r
}

/// Whether the rule written `source` compiles once anchored.
pub fn pattern_compiles(source: &str) -> (r: bool)
    ensures
        r == source_compiles(source@),
{
    let anchored_source = anchor(source);
    regex_accepts(anchored_source.as_str())
}

/// Whether `text` as a whole matches the rule written `source`.
pub fn pattern_matches(source: &str, text: &str) -> (r: bool)
    ensures
        r == whole_match(source@, text@),
{
    let anchored_source = anchor(source);
    regex_is_match(anchored_source.as_str(), text)
}

} // verus!
