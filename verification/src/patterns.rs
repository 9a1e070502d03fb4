//! The regular expressions that tidy up a finished story, compiled with the `regex` crate.

use vstd::prelude::*;

verus! {

/// The compiled regular expression type `regex::Regex`, which Verus sees as opaque.
#[verifier::external_type_specification]
#[verifier::external_body]
pub struct ExRegex(regex::Regex);

/// Unicode `White_Space`, the class that `\s` matches in the `regex` crate.
pub open spec fn is_white_space(c: char) -> bool {
    ||| ('\u{9}' <= c && c <= '\u{d}')
    ||| c == ' '
    ||| c == '\u{85}'
    ||| c == '\u{a0}'
    ||| c == '\u{1680}'
    ||| ('\u{2000}' <= c && c <= '\u{200a}')
    ||| c == '\u{2028}'
    ||| c == '\u{2029}'
    ||| c == '\u{202f}'
    ||| c == '\u{205f}'
    ||| c == '\u{3000}'
}

/// The characters that end a sentence: `!`, `?`, `.` and `…`.
pub open spec fn is_end_punct(c: char) -> bool {
    c == '!' || c == '?' || c == '.' || c == '\u{2026}'
}

/// The number of whitespace characters in `s`.
pub open spec fn whitespace_count(s: Seq<char>) -> nat {
    s.filter(|c: char| is_white_space(c)).len()
}

/// The leftmost index `i` of `s` for which `at(s, i)` holds.
pub open spec fn leftmost(s: Seq<char>, at: spec_fn(Seq<char>, int) -> bool) -> Option<int> {
    if exists|i: int| 0 <= i < s.len() && #[trigger] at(s, i) {
        Some(choose|i: int| 0 <= i < s.len() && #[trigger] at(s, i)
            && forall|j: int| 0 <= j < i ==> !#[trigger] at(s, j))
    } else {
        None
    }
}

/// A whitespace character stands at `i`.
pub open spec fn space_at(s: Seq<char>, i: int) -> bool {
    is_white_space(s[i])
}

/// A whitespace character at `i` is followed by a sentence end.
pub open spec fn space_before_end_at(s: Seq<char>, i: int) -> bool {
    i + 1 < s.len() && is_white_space(s[i]) && is_end_punct(s[i + 1])
}

/// A whitespace character at `i` is followed by a comma.
pub open spec fn space_before_comma_at(s: Seq<char>, i: int) -> bool {
    i + 1 < s.len() && is_white_space(s[i]) && s[i + 1] == ','
}

/// `s` with its leftmost whitespace character replaced by a plain space.
pub open spec fn first_space_normalized(s: Seq<char>) -> Seq<char> {
    match leftmost(s, |t: Seq<char>, i: int| space_at(t, i)) {
        Some(i) => s.update(i, ' '),
        None => s,
    }
}

/// `s` without the whitespace of its leftmost whitespace-before-sentence-end.
pub open spec fn first_space_before_end_removed(s: Seq<char>) -> Seq<char> {
    match leftmost(s, |t: Seq<char>, i: int| space_before_end_at(t, i)) {
        Some(i) => s.remove(i),
        None => s,
    }
}

/// `s` without the whitespace of its leftmost whitespace-before-comma.
pub open spec fn first_space_before_comma_removed(s: Seq<char>) -> Seq<char> {
    match leftmost(s, |t: Seq<char>, i: int| space_before_comma_at(t, i)) {
        Some(i) => s.remove(i),
        None => s,
    }
}

/// The pattern that matches one whitespace character.
pub open spec fn space_pattern() -> Seq<char> {
    "(?m)\\s"@
}

/// The pattern that matches whitespace followed by a sentence end.
pub open spec fn space_before_end_pattern() -> Seq<char> {
    "(?m)(\\s)([!?.\u{2026}])"@
}

/// The pattern that matches whitespace followed by a comma.
pub open spec fn space_before_comma_pattern() -> Seq<char> {
    "(?m)\\s,"@
}

/// What `find_iter(haystack).count()` gives for a regex compiled from `pattern`.
pub uninterp spec fn regex_match_count(pattern: Seq<char>, haystack: Seq<char>) -> nat;

/// What `replace(haystack, replacement)` gives for a regex compiled from `pattern`.
pub uninterp spec fn regex_replace_first(pattern: Seq<char>, haystack: Seq<char>, replacement: Seq<char>) -> Seq<char>;

/// A regular expression together with the pattern it was compiled from.
pub struct Pattern {
    regex: regex::Regex,
    source: String,
}

impl Pattern {
    /// The pattern the regex was compiled from.
    pub closed spec fn source(&self) -> Seq<char> {
        self.source@
    }
}

/// Whether `regex::Regex::new` accepts `pattern` (valid syntax, within the default
/// size limits).
pub uninterp spec fn regex_accepts(pattern: Seq<char>) -> bool;

/// `regex::Regex::new`: compiles `pattern`, or gives `None` when the pattern is
/// rejected (invalid syntax or over the size limit).
#[verifier::external_body]
fn compile(pattern: String) -> (r: Option<Pattern>)
    ensures
        r is Some <==> regex_accepts(pattern@),
        r matches Some(p) ==> p.source() == pattern@,
{
    match regex::Regex::new(pattern.as_str()) {
        Ok(regex) => Some(Pattern { regex, source: pattern }),
        Err(_) => None,
    }
}

/// `regex::Regex::find_iter` followed by `count`: the number of non-overlapping
/// matches. For `(?m)\s` each whitespace character is one match, since `\s` is
/// `\p{White_Space}` and matches a single character.
#[verifier::external_body]
fn count_matches(p: &Pattern, haystack: &str) -> (n: usize)
    ensures
        n == regex_match_count(p.source(), haystack@),
        p.source() == space_pattern() ==> n == whitespace_count(haystack@),
{
    p.regex.find_iter(haystack).count()
}

/// `regex::Regex::replace`: replaces the leftmost-first match with the replacement,
/// where `$2` stands for the second group. For the three patterns of this module and
/// the replacements the bot uses, that is: the leftmost whitespace becomes a space;
/// the leftmost whitespace before a sentence end is dropped; the leftmost whitespace
/// before a comma is dropped.
#[verifier::external_body]
fn replace_first(p: &Pattern, haystack: &str, replacement: &str) -> (r: String)
    ensures
        r@ == regex_replace_first(p.source(), haystack@, replacement@),
        p.source() == space_pattern() && replacement@ == " "@
            ==> r@ == first_space_normalized(haystack@),
        p.source() == space_before_end_pattern() && replacement@ == "$2"@
            ==> r@ == first_space_before_end_removed(haystack@),
        p.source() == space_before_comma_pattern() && replacement@ == ","@
            ==> r@ == first_space_before_comma_removed(haystack@),
{
    p.regex.replace(haystack, replacement).into_owned()
}

/// The three compiled patterns.
pub struct StoryPatterns {
    space: Pattern,
    space_before_end: Pattern,
    space_before_comma: Pattern,
}

impl StoryPatterns {
    /// Each pattern was compiled from its source.
    pub closed spec fn wf(&self) -> bool {
        &&& self.space.source() == space_pattern()
        &&& self.space_before_end.source() == space_before_end_pattern()
        &&& self.space_before_comma.source() == space_before_comma_pattern()
    }

    /// Compiles the three patterns; `None` exactly when the regex engine rejects one of
    /// them.
    pub fn new() -> (r: Option<StoryPatterns>)
        ensures
            r is Some <==> (regex_accepts(space_pattern()) && regex_accepts(space_before_end_pattern())
                && regex_accepts(space_before_comma_pattern())),
            r matches Some(p) ==> p.wf(),
    {
        let space = compile(String::from_str("(?m)\\s"));
        let space_before_end = compile(String::from_str("(?m)(\\s)([!?.\u{2026}])"));
        let space_before_comma = compile(String::from_str("(?m)\\s,"));
        match (space, space_before_end, space_before_comma) {
            (Some(space), Some(space_before_end), Some(space_before_comma)) => {
                Some(StoryPatterns { space, space_before_end, space_before_comma })
            },
            _ => None,
        }
    }

    /// The number of whitespace characters in `s`.
    pub fn whitespace_count(&self, s: &str) -> (n: usize)
        requires
            self.wf(),
        ensures
            n == whitespace_count(s@),
    {
        count_matches(&self.space, s)
    }

    /// Tidies one word of a story: the first whitespace becomes a plain space, then the
    /// first whitespace before a sentence end goes, then the first whitespace before a
    /// comma goes.
    pub fn sanitize_word(&self, word: &str) -> (r: String)
        requires
            self.wf(),
        ensures
            r@ == first_space_before_comma_removed(
                first_space_before_end_removed(first_space_normalized(word@))),
    {
        let a = replace_first(&self.space, word, " ");
        let b = replace_first(&self.space_before_end, a.as_str(), "$2");
        replace_first(&self.space_before_comma, b.as_str(), ",")
    }
}

} // verus!
