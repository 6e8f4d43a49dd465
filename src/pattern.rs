use vstd::prelude::*;

verus! {

#[verifier::external_type_specification]
#[verifier::external_body]
pub struct ExRegex(regex::Regex);

#[verifier::external_type_specification]
#[verifier::external_body]
pub struct ExRegexError(regex::Error);

/// Whether `regex::Regex::new` accepts `pattern`: its syntax is valid and the
/// compiled program stays within the default size limit.
pub uninterp spec fn regex_accepts(pattern: Seq<char>) -> bool;

/// The span, in characters, of the leftmost-first match of `pattern` in
/// `text`, or `None` where it matches nowhere.
pub uninterp spec fn first_match_span(pattern: Seq<char>, text: Seq<char>) -> Option<(int, int)>;

/// A span lies inside a text of length `len`.
pub open spec fn span_within(span: Option<(int, int)>, len: int) -> bool {
    span matches Some((i, j)) ==> 0 <= i <= j <= len
}

/// The text that a span picks out of `text`; empty where there is no span.
pub open spec fn span_text(text: Seq<char>, span: Option<(int, int)>) -> Seq<char> {
    match span {
        Some((i, j)) => text.subrange(i, j),
        None => Seq::empty(),
    }
}

/// The prefix that `pattern` derives from `name`: the whole name for an empty
/// pattern, else the leftmost match of the pattern, or nothing where it does
/// not match.
pub open spec fn prefix_of(pattern: Seq<char>, name: Seq<char>) -> Seq<char> {
    if pattern.len() == 0 {
        name
    } else {
        span_text(name, first_match_span(pattern, name))
    }
}

/// A prefix can be derived with `pattern`: it is empty, or it compiles.
pub open spec fn prefix_derivable(pattern: Seq<char>) -> bool {
    pattern.len() == 0 || regex_accepts(pattern)
}

/// A regular expression together with the text it was compiled from. It is
/// built only by `compile`, so `re` is always the compiled form of `source`.
pub(crate) struct Pattern {
    re: regex::Regex,
    source: String,
}

impl View for Pattern {
    type V = Seq<char>;

    closed spec fn view(&self) -> Seq<char> {
        self.source@
    }
}

impl Pattern {
    /// Relies on `regex::Regex::new`, which fails exactly on the patterns it
    /// does not accept. The pattern's text is kept beside the compiled regex.
    #[verifier::external_body]
    pub(crate) fn compile(source: &str) -> (r: Result<Pattern, regex::Error>)
        ensures
            r is Ok <==> regex_accepts(source@),
            r matches Ok(p) ==> p@ == source@,
    {
        match regex::Regex::new(source) {
            Ok(re) => Ok(Pattern { re, source: source.to_string() }),
            Err(e) => Err(e),
        }
    }

    /// Relies on `regex::Regex::captures` and group 0 of what it returns: the
    /// leftmost-first match, a slice of `text` on character boundaries.
    #[verifier::external_body]
    pub(crate) fn find_first(&self, text: &str) -> (r: Option<String>)
        ensures
            r is Some <==> first_match_span(self@, text@) is Some,
            r matches Some(m) ==> span_within(first_match_span(self@, text@), text@.len() as int)
                && m@ == span_text(text@, first_match_span(self@, text@)),
    {
        self.re.captures(text).and_then(|caps| caps.get(0)).map(|m| m.as_str().to_string())
    }
}

/// Why no prefix could be derived.
#[derive(Debug)]
pub enum PrefixError {
    /// The target path has no final name component.
    InvalidPath,
    /// The pattern is not a regular expression that compiles.
    InvalidPattern(regex::Error),
}

/// The prefix carried by a match result: the matched text, or the empty
/// string where nothing matched.
pub fn prefix_from_match(found: Option<String>) -> (r: String)
    ensures
        r@ == match found {
            Some(m) => m@,
            None => Seq::empty(),
        },
{
    match found {
        Some(m) => m,
        None => String::new(),
    }
}

/// Derives the prefix of `dirname` under `pattern`. An empty pattern keeps
/// the whole name; otherwise the result is the leftmost match, or the empty
/// string where the pattern matches nowhere. A pattern that does not compile
/// is an error.
pub fn get_prefix(pattern: &str, dirname: &str) -> (r: Result<String, PrefixError>)
    ensures
        r is Ok <==> prefix_derivable(pattern@),
        r matches Ok(p) ==> p@ == prefix_of(pattern@, dirname@),
        r matches Err(e) ==> e is InvalidPattern,
{
    if pattern.is_empty() {
        return Ok(dirname.to_owned());
    }
    match Pattern::compile(pattern) {
        Ok(re) => {
            let found = re.find_first(dirname);
            Ok(prefix_from_match(found))
        },
        Err(e) => Err(PrefixError::InvalidPattern(e)),
    }
}

/// Derives the prefix for a directory whose final path component is
/// `dirname`; a path without one is an error before the pattern is looked at.
pub fn prefix_for_dir(pattern: &str, dirname: Option<&str>) -> (r: Result<String, PrefixError>)
    ensures
        dirname is None ==> r matches Err(PrefixError::InvalidPath),
        dirname is Some ==> (r is Ok <==> prefix_derivable(pattern@)),
        r matches Ok(p) ==> p@ == prefix_of(pattern@, dirname->Some_0@),
        r matches Err(e) ==> (e is InvalidPath <==> dirname is None),
{
    match dirname {
        None => Err(PrefixError::InvalidPath),
        Some(d) => get_prefix(pattern, d),
    }
}

} // verus!
