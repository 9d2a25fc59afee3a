use vstd::prelude::*;

verus! {

#[verifier::external_type_specification]
#[verifier::external_body]
pub struct ExRegexError(regex::Error);

/// `text` with every non-overlapping match of the regular expression
/// `pattern`, leftmost first, replaced by `rep`.
pub uninterp spec fn regex_replaced(pattern: Seq<char>, text: Seq<char>, rep: Seq<char>) -> Seq<char>;

/// Relies on regex::Regex::new and Regex::replace_all: compiles `pattern`
/// and replaces all its matches in `text` by `rep`; the result depends on
/// the three strings alone. An error when the pattern does not compile.
#[verifier::external_body]
fn regex_replace_all(pattern: &str, text: &str, rep: &str) -> (r: Result<String, regex::Error>)
    ensures
        r matches Ok(s) ==> s@ == regex_replaced(pattern@, text@, rep@),
{
    regex::Regex::new(pattern).map(|re| re.replace_all(text, rep).into_owned())
}

/// The lower-case form of `s`.
pub uninterp spec fn lower_of(s: Seq<char>) -> Seq<char>;

/// Relies on str::to_lowercase: the result depends on the characters alone.
#[verifier::external_body]
fn lowercase(s: &str) -> (r: String)
    ensures
        r@ == lower_of(s@),
{
    s.to_lowercase()
}

/// Why a reply could not be cleaned.
#[derive(Clone, Copy, Debug, PartialEq, Eq, Structural)]
pub enum ReplyError {
    /// A clean-up pattern did not compile.
    Pattern,
}

/// A reply with reasoning blocks removed and spacing tidied: lower-cased
/// first when asked, then `<think>`/`<reasoning>` blocks dropped, spaces
/// before a blank line dropped, runs of spaces collapsed, and runs of three
/// or more newlines cut to two.
pub open spec fn cleaned(t: Seq<char>, to_lower: bool) -> Seq<char> {
    let t0 = if to_lower {
        lower_of(t)
    } else {
        t
    };
    let t1 = regex_replaced(
        r"<(?:think|reasoning)>((?:.|\n)*?)<\/(?:think|reasoning)>(?:\n*)?"@,
        t0,
        ""@,
    );
    let t2 = regex_replaced(r" +\n\n"@, t1, "\n\n"@);
    let t3 = regex_replaced(r" {2,}"@, t2, " "@);
    regex_replaced(r"\n\n\n+"@, t3, "\n\n"@)
}

/// Tidies a completion before it becomes the assistant's reply.
pub fn clean_reply(text: &str, to_lower: bool) -> (r: Result<String, ReplyError>)
    ensures
        r matches Ok(s) ==> s@ == cleaned(text@, to_lower),
{
    let lowered;
    let t0: &str = if to_lower {
        lowered = lowercase(text);
        lowered.as_str()
    } else {
        text
    };
    let t1 = match regex_replace_all(
        r"<(?:think|reasoning)>((?:.|\n)*?)<\/(?:think|reasoning)>(?:\n*)?",
        t0,
        "",
    ) {
        Ok(s) => s,
        Err(_) => return Err(ReplyError::Pattern),
    };
    let t2 = match regex_replace_all(r" +\n\n", t1.as_str(), "\n\n") {
        Ok(s) => s,
        Err(_) => return Err(ReplyError::Pattern),
    };
    let t3 = match regex_replace_all(r" {2,}", t2.as_str(), " ") {
        Ok(s) => s,
        Err(_) => return Err(ReplyError::Pattern),
    };
    match regex_replace_all(r"\n\n\n+", t3.as_str(), "\n\n") {
        Ok(s) => Ok(s),
        Err(_) => Err(ReplyError::Pattern),
    }
}

} // verus!
