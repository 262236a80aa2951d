//! Compiling a pattern and substituting its matches in a string.
use vstd::prelude::*;

verus! {

#[verifier::external_type_specification]
#[verifier::external_body]
pub struct ExRegexError(regex::Error);

/// Whether `regex::Regex::new` accepts the pattern text (syntax and size limit).
pub uninterp spec fn regex_accepts(pattern: Seq<char>) -> bool;

/// Whether a compiled pattern finds a match anywhere in a haystack.
pub uninterp spec fn regex_finds(pattern: Seq<char>, haystack: Seq<char>) -> bool;

/// The haystack with every non-overlapping match, left to right, replaced by
/// the replacement, with `$n` / `${name}` expanded to the captured groups.
pub uninterp spec fn regex_replaced(
    pattern: Seq<char>,
    haystack: Seq<char>,
    replacement: Seq<char>,
) -> Seq<char>;

/// Relies on `regex::Regex::new` (fails exactly on the patterns it refuses)
/// and `regex::Regex::is_match` (true iff there is a match anywhere).
#[verifier::external_body]
fn regex_is_match(pattern: &str, haystack: &str) -> (r: Result<bool, regex::Error>)
    ensures
        r is Ok <==> regex_accepts(pattern@),
        r matches Ok(found) ==> found == regex_finds(pattern@, haystack@),
{
    let re = regex::Regex::new(pattern)?;
    Ok(re.is_match(haystack))
}

/// Relies on `regex::Regex::new` (fails exactly on the patterns it refuses)
/// and `regex::Regex::replace_all`, which returns the haystack unchanged when
/// nothing matches.
#[verifier::external_body]
fn regex_replace_all(pattern: &str, haystack: &str, replacement: &str) -> (r: Result<
    String,
    regex::Error,
>)
    ensures
        r is Ok <==> regex_accepts(pattern@),
        r matches Ok(s) ==> (regex_finds(pattern@, haystack@) ==> s@ == regex_replaced(
            pattern@,
            haystack@,
            replacement@,
        )),
        r matches Ok(s) ==> (!regex_finds(pattern@, haystack@) ==> s@ == haystack@),
{
    let re = regex::Regex::new(pattern)?;
    Ok(re.replace_all(haystack, replacement).into_owned())
}

/// What `replace_all` returns: the haystack itself when nothing matches.
pub open spec fn replaced_text(
    pattern: Seq<char>,
    haystack: Seq<char>,
    replacement: Seq<char>,
) -> Seq<char> {
    if regex_finds(pattern, haystack) {
        regex_replaced(pattern, haystack, replacement)
    } else {
        haystack
    }
}

/// The inline directive that turns on case-insensitive matching.
pub open spec fn ignore_case_flag() -> Seq<char> {
    seq!['(', '?', 'i', ')']
}

/// The pattern text that is compiled: the user's pattern, behind the
/// case-insensitive directive when case is ignored.
pub open spec fn effective(pattern: Seq<char>, ignore_case: bool) -> Seq<char> {
    if ignore_case {
        ignore_case_flag() + pattern
    } else {
        pattern
    }
}

/// What substituting gives: `None` when the pattern does not compile.
pub open spec fn substitution(
    content: Seq<char>,
    pattern: Seq<char>,
    replacement: Seq<char>,
    ignore_case: bool,
) -> Option<Seq<char>> {
    let p = effective(pattern, ignore_case);
    if regex_accepts(p) {
        Some(replaced_text(p, content, replacement))
    } else {
        None
    }
}

/// A pattern that does not compile; it holds the pattern as the user gave it.
#[derive(Debug)]
pub struct PatternError {
    pub pattern: String,
}

/// Builds the pattern text to compile.
pub fn effective_pattern(pattern: &str, ignore_case: bool) -> (r: String)
    ensures
        r@ == effective(pattern@, ignore_case),
{
    if ignore_case {
        let flag = String::from_str("(?i)");
        proof {
            reveal_strlit("(?i)");
        }
        let r = flag.concat(pattern);
        assert(r@ == ignore_case_flag() + pattern@);
        r
    } else {
        String::from_str(pattern)
    }
}

/// Replaces every non-overlapping match of `pattern` in `content` by
/// `replacement`; fails when the pattern does not compile.
pub fn substitute(content: &str, pattern: &str, replacement: &str, ignore_case: bool) -> (r: Result<
    String,
    PatternError,
>)
    ensures
        r is Ok <==> substitution(content@, pattern@, replacement@, ignore_case) is Some,
        r matches Ok(s) ==> Some(s@) == substitution(content@, pattern@, replacement@, ignore_case),
        r matches Err(e) ==> e.pattern@ == pattern@,
{
    let p = effective_pattern(pattern, ignore_case);
    match regex_replace_all(p.as_str(), content, replacement) {
        Ok(s) => Ok(s),
        Err(_) => Err(PatternError { pattern: String::from_str(pattern) }),
    }
}

/// Removes every non-overlapping match of `pattern` from `content`: the text
/// that the find command reports.
pub fn find(content: &str, pattern: &str, ignore_case: bool) -> (r: Result<String, PatternError>)
    ensures
        r is Ok <==> substitution(content@, pattern@, Seq::empty(), ignore_case) is Some,
        r matches Ok(s) ==> Some(s@) == substitution(content@, pattern@, Seq::empty(), ignore_case),
        r matches Err(e) ==> e.pattern@ == pattern@,
{
    proof {
        reveal_strlit("");
        assert(""@ =~= Seq::<char>::empty());
    }
    substitute(content, pattern, "", ignore_case)
}

/// Rewrites `content` in place with every match of `pattern` replaced; on a
/// pattern that does not compile, `content` is left as it was.
pub fn find_and_replace(
    content: &mut String,
    pattern: &str,
    replacement: &str,
    ignore_case: bool,
) -> (r: Result<(), PatternError>)
    ensures
        r is Ok <==> substitution(old(content)@, pattern@, replacement@, ignore_case) is Some,
        r is Ok ==> Some(final(content)@) == substitution(
            old(content)@,
            pattern@,
            replacement@,
            ignore_case,
        ),
        r is Err ==> final(content)@ == old(content)@,
        r matches Err(e) ==> e.pattern@ == pattern@,
{
    let replaced = substitute(content.as_str(), pattern, replacement, ignore_case)?;
    *content = replaced;
    Ok(())
}

/// Tells whether `pattern` matches anywhere in `content`.
pub fn has_match(content: &str, pattern: &str, ignore_case: bool) -> (r: Result<bool, PatternError>)
    ensures
        r is Ok <==> regex_accepts(effective(pattern@, ignore_case)),
        r matches Ok(b) ==> b == regex_finds(effective(pattern@, ignore_case), content@),
        r matches Err(e) ==> e.pattern@ == pattern@,
{
    let p = effective_pattern(pattern, ignore_case);
    match regex_is_match(p.as_str(), content) {
        Ok(b) => Ok(b),
        Err(_) => Err(PatternError { pattern: String::from_str(pattern) }),
    }
}

/// Substituting in a text where the pattern finds no match gives the text back
/// unchanged, whatever the replacement.
pub proof fn substitution_without_match_is_identity(
    content: Seq<char>,
    pattern: Seq<char>,
    replacement: Seq<char>,
    ignore_case: bool,
)
    requires
        regex_accepts(effective(pattern, ignore_case)),
        !regex_finds(effective(pattern, ignore_case), content),
    ensures
        substitution(content, pattern, replacement, ignore_case) == Some(content),
{
}

/// Removing the matches of a pattern is settled once the result holds no
/// further match: removing them again changes nothing.
pub proof fn removal_is_idempotent(content: Seq<char>, pattern: Seq<char>, ignore_case: bool)
    requires
        substitution(content, pattern, Seq::empty(), ignore_case) is Some,
        !regex_finds(
            effective(pattern, ignore_case),
            substitution(content, pattern, Seq::empty(), ignore_case)->0,
        ),
    ensures
        substitution(
            substitution(content, pattern, Seq::empty(), ignore_case)->0,
            pattern,
            Seq::empty(),
            ignore_case,
        ) == substitution(content, pattern, Seq::empty(), ignore_case),
{
}

} // verus!
