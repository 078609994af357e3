use unicode_segmentation::UnicodeSegmentation;
use vstd::prelude::*;

verus! {

/// The most grapheme clusters a subscriber name may have.
pub const MAX_NAME_GRAPHEMES: usize = 256;

/// Whether `c` has the Unicode `White_Space` property, the notion of
/// whitespace that `str::trim` removes.
pub open spec fn is_white_space(c: char) -> bool {
    ||| ('\u{9}' <= c && c <= '\u{d}')
    ||| c == ' '
    ||| c == '\u{85}'
    ||| c == '\u{a0}'
    ||| c == '\u{1680}'
    ||| ('\u{2000}' <= c && c <= '\u{200a}')
    ||| c == '\u{2028}'
    ||| c == '\u{2029}'
    ||| c == '\u{202f}'
    ||| c == '\u{205f}'
    ||| c == '\u{3000}'
}

/// Every character of `s` is whitespace (this holds of the empty string).
pub open spec fn is_blank(s: Seq<char>) -> bool {
    forall|i: int| 0 <= i < s.len() ==> is_white_space(#[trigger] s[i])
}

/// `t` is `s` with its leading and trailing whitespace removed.
pub open spec fn is_trim_of(s: Seq<char>, t: Seq<char>) -> bool {
    exists|i: int, j: int|
        #![trigger s.subrange(i, j)]
        {
            &&& 0 <= i <= j <= s.len()
            &&& t == s.subrange(i, j)
            &&& forall|k: int| 0 <= k < i ==> is_white_space(#[trigger] s[k])
            &&& forall|k: int| j <= k < s.len() ==> is_white_space(#[trigger] s[k])
            &&& t.len() > 0 ==> !is_white_space(t[0]) && !is_white_space(t[t.len() - 1])
        }
}

/// The characters a subscriber name may not hold.
pub open spec fn is_forbidden_char(c: char) -> bool {
    c == '/' || c == '(' || c == ')' || c == '"' || c == '<' || c == '>' || c == '\\' || c == '{'
        || c == '}'
}

/// Some character of `s` is forbidden in a name.
pub open spec fn has_forbidden_char(s: Seq<char>) -> bool {
    exists|i: int| 0 <= i < s.len() && is_forbidden_char(#[trigger] s[i])
}

/// The rule for names, given the number of extended grapheme clusters of `s`:
/// not blank, at most 256 graphemes, and no forbidden character.
pub open spec fn name_rule(s: Seq<char>, graphemes: nat) -> bool {
    &&& !is_blank(s)
    &&& graphemes <= MAX_NAME_GRAPHEMES
    &&& !has_forbidden_char(s)
}

/// Every character of `s` is ASCII and none is a carriage return.
pub open spec fn is_ascii_without_cr(s: Seq<char>) -> bool {
    forall|i: int| 0 <= i < s.len() ==> #[trigger] s[i] <= '\u{7f}' && s[i] != '\r'
}

/// The number of extended grapheme clusters that `unicode_segmentation`
/// splits `s` into.
pub uninterp spec fn grapheme_count(s: Seq<char>) -> nat;

/// Whether `s` is a valid subscriber name.
pub open spec fn valid_name(s: Seq<char>) -> bool {
    name_rule(s, grapheme_count(s))
}

/// Counts the extended grapheme clusters of `s` with
/// `UnicodeSegmentation::graphemes(s, true).count()`.
/// Claimed: the count is `grapheme_count(s@)`; it is at most the number of
/// characters, since each cluster the iterator yields is a non-empty slice of
/// `s`; it is zero exactly for the empty string; and on ASCII text without a
/// carriage return every character is a cluster of its own, since the crate
/// puts such characters in the categories Any, LF or Control, between which
/// its pair rules always break (only CR followed by LF is kept together).
#[verifier::external_body]
fn count_graphemes(s: &str) -> (n: usize)
    ensures
        n == grapheme_count(s@),
        n <= s@.len(),
        (n == 0) == (s@.len() == 0),
        is_ascii_without_cr(s@) ==> n == s@.len(),
{
    s.graphemes(true).count()
}

/// Calls `str::trim`, which, as documented, returns `s` without its leading
/// and trailing characters of the Unicode `White_Space` property.
#[verifier::external_body]
fn trim(s: &str) -> (t: &str)
    ensures
        is_trim_of(s@, t@),
{
    s.trim()
}

proof fn lemma_trim_empty_iff_blank(s: Seq<char>, t: Seq<char>)
    requires
        is_trim_of(s, t),
    ensures
        (t.len() == 0) == is_blank(s),
{
    let (i, j) = choose|i: int, j: int|
        #![trigger s.subrange(i, j)]
        {
            &&& 0 <= i <= j <= s.len()
            &&& t == s.subrange(i, j)
            &&& forall|k: int| 0 <= k < i ==> is_white_space(#[trigger] s[k])
            &&& forall|k: int| j <= k < s.len() ==> is_white_space(#[trigger] s[k])
            &&& t.len() > 0 ==> !is_white_space(t[0]) && !is_white_space(t[t.len() - 1])
        };
    if t.len() == 0 {
        assert forall|k: int| 0 <= k < s.len() implies is_white_space(#[trigger] s[k]) by {
            if k >= i {
                assert(k >= j);
            }
        }
    } else {
        assert(t[0] == s[i]);
    }
}

fn is_forbidden(c: char) -> (r: bool)
    ensures
        r == is_forbidden_char(c),
{
    c == '/' || c == '(' || c == ')' || c == '"' || c == '<' || c == '>' || c == '\\' || c == '{'
        || c == '}'
}

/// Applies the name rule to `s`, given the number of its grapheme clusters.
pub fn check_name(s: &str, graphemes: usize) -> (r: bool)
    ensures
        r == name_rule(s@, graphemes as nat),
{
    let trimmed = trim(s);
    let is_empty_or_whitespace = trimmed.is_empty();
    proof {
        lemma_trim_empty_iff_blank(s@, trimmed@);
    }
    let is_too_long = graphemes > MAX_NAME_GRAPHEMES;
    let mut contains_forbidden = false;
    for c in it: s.chars()
        invariant
            it.seq() == s@,
            contains_forbidden == (exists|j: int|
                0 <= j < it.index() && is_forbidden_char(#[trigger] s@[j])),
    {
        if is_forbidden(c) {
            contains_forbidden = true;
        }
    }
    !(is_empty_or_whitespace || is_too_long || contains_forbidden)
}

/// Whether `s` is a valid subscriber name: not empty or whitespace only, at
/// most 256 grapheme clusters long, and free of the characters
/// `/ ( ) " < > \ { }`.
pub fn is_valid_name(s: &str) -> (r: bool)
    ensures
        r == valid_name(s@),
        s@.len() <= MAX_NAME_GRAPHEMES && !is_blank(s@) && !has_forbidden_char(s@) ==> r,
        is_ascii_without_cr(s@) ==> (r <==> s@.len() <= MAX_NAME_GRAPHEMES && !is_blank(s@)
            && !has_forbidden_char(s@)),
{
    let graphemes = count_graphemes(s);
    check_name(s, graphemes)
}


/// A name that holds a forbidden character is refused, whatever else it holds.
pub proof fn lemma_forbidden_char_refused(s: Seq<char>, i: int)
    requires
        0 <= i < s.len(),
        is_forbidden_char(s[i]),
    ensures
        !valid_name(s),
{
}

/// A name that is empty or made only of whitespace is refused.
pub proof fn lemma_blank_name_refused(s: Seq<char>)
    requires
        is_blank(s),
    ensures
        !valid_name(s),
{
}

/// The name rule in plain terms. A name is accepted exactly when
/// - some character of it is not one of the Unicode `White_Space` characters
///   U+0009 to U+000D, U+0020, U+0085, U+00A0, U+1680, U+2000 to U+200A,
///   U+2028, U+2029, U+202F, U+205F and U+3000;
/// - it has at most 256 extended grapheme clusters; and
/// - none of its characters is one of the nine `/ ( ) " < > \ { }`.
/// Any other character, such as `-`, `'` or `.`, never makes a name refused.
pub proof fn lemma_valid_name_in_plain_terms(s: Seq<char>)
    ensures
        valid_name(s) <==> {
            &&& exists|i: int|
                #![trigger s[i]]
                0 <= i < s.len() && !(('\u{9}' <= s[i] && s[i] <= '\u{d}') || s[i] == ' ' || s[i]
                    == '\u{85}' || s[i] == '\u{a0}' || s[i] == '\u{1680}' || ('\u{2000}' <= s[i]
                    && s[i] <= '\u{200a}') || s[i] == '\u{2028}' || s[i] == '\u{2029}' || s[i]
                    == '\u{202f}' || s[i] == '\u{205f}' || s[i] == '\u{3000}')
            &&& grapheme_count(s) <= 256
            &&& forall|i: int|
                #![trigger s[i]]
                0 <= i < s.len() ==> s[i] != '/' && s[i] != '(' && s[i] != ')' && s[i] != '"'
                    && s[i] != '<' && s[i] != '>' && s[i] != '\\' && s[i] != '{' && s[i] != '}'
        },
{
}

/// A name refused by `SubscriberName::try_from` gets the text
/// "Subscirber name is invalid", one refused by `try_from_str` the text
/// "Subscriber name is invalid".
pub proof fn lemma_name_error_texts()
    ensures
        name_error_from_string() == "Subscirber name is invalid"@,
        name_error_from_str() == "Subscriber name is invalid"@,
{
}

/// A subscriber's name, always one that `is_valid_name` accepts.
#[derive(Debug)]
pub struct SubscriberName(String);

impl View for SubscriberName {
    type V = Seq<char>;

    closed spec fn view(&self) -> Seq<char> {
        self.0@
    }
}

/// The error text for a name refused by `SubscriberName::try_from`.
pub open spec fn name_error_from_string() -> Seq<char> {
    "Subscirber name is invalid"@
}

/// The error text for a name refused by `SubscriberName::try_from_str`.
pub open spec fn name_error_from_str() -> Seq<char> {
    "Subscriber name is invalid"@
}

/// `r` is the outcome of parsing `s` as a name, with `error` as the refusal
/// text: a name holding `s` exactly when `s` is valid, else that error.
pub open spec fn parses_name_to(s: Seq<char>, r: Result<SubscriberName, String>, error: Seq<char>) -> bool {
    match r {
        Ok(name) => valid_name(s) && name@ == s,
        Err(e) => !valid_name(s) && e@ == error,
    }
}

impl SubscriberName {
    #[verifier::type_invariant]
    spec fn holds_valid_name(self) -> bool {
        valid_name(self.0@)
    }

    /// Parses an owned string into a name, keeping the string as it is.
    pub fn try_from(value: String) -> (r: Result<SubscriberName, String>)
        ensures
            r is Ok <==> valid_name(value@),
            r matches Ok(name) ==> name@ == value@,
            r matches Err(e) ==> e@ == name_error_from_string(),
            value@.len() <= MAX_NAME_GRAPHEMES && !is_blank(value@) && !has_forbidden_char(value@)
                ==> r is Ok,
            is_ascii_without_cr(value@) ==> (r is Ok <==> value@.len() <= MAX_NAME_GRAPHEMES
                && !is_blank(value@) && !has_forbidden_char(value@)),
    {
        if is_valid_name(value.as_str()) {
            Ok(SubscriberName(value))
        } else {
            let e = "Subscirber name is invalid".to_string();
            proof {
                broadcast use vstd::string::group_string_axioms;
            }
            Err(e)
        }
    }

    /// Parses a borrowed string into a name, copying it.
    pub fn try_from_str(value: &str) -> (r: Result<SubscriberName, String>)
        ensures
            r is Ok <==> valid_name(value@),
            r matches Ok(name) ==> name@ == value@,
            r matches Err(e) ==> e@ == name_error_from_str(),
            value@.len() <= MAX_NAME_GRAPHEMES && !is_blank(value@) && !has_forbidden_char(value@)
                ==> r is Ok,
            is_ascii_without_cr(value@) ==> (r is Ok <==> value@.len() <= MAX_NAME_GRAPHEMES
                && !is_blank(value@) && !has_forbidden_char(value@)),
    {
        proof {
            broadcast use vstd::string::group_string_axioms;
        }
        if is_valid_name(value) {
            Ok(SubscriberName(value.to_string()))
        } else {
            Err("Subscriber name is invalid".to_string())
        }
    }

    /// The name as a string slice; it is always a valid name.
    pub fn as_ref(&self) -> (r: &str)
        ensures
            r@ == self@,
            valid_name(r@),
    {
        proof {
            use_type_invariant(self);
        }
        self.0.as_str()
    }
}

impl TryFrom<String> for SubscriberName {
    type Error = String;

    fn try_from(value: String) -> (r: Result<SubscriberName, String>)
        ensures
            r is Ok <==> valid_name(value@),
            r matches Ok(name) ==> name@ == value@,
            r matches Err(e) ==> e@ == name_error_from_string(),
    {
        SubscriberName::try_from(value)
    }
}

// The trait-level specification is left open (`obeys_try_from_spec` is false):
// the impl above states the contract of the conversion itself.
impl vstd::std_specs::convert::TryFromSpecImpl<String> for SubscriberName {
    open spec fn obeys_try_from_spec() -> bool {
        false
    }

    open spec fn try_from_spec(v: String) -> Result<SubscriberName, String> {
        arbitrary()
    }
}

impl TryInto<SubscriberName> for &str {
    type Error = String;

    fn try_into(self) -> (r: Result<SubscriberName, String>)
        ensures
            parses_name_to(self@, r, name_error_from_str()),
    {
        SubscriberName::try_from_str(self)
    }
}

// As for `TryFrom` above, the trait-level specification is left open.
impl vstd::std_specs::convert::TryIntoSpecImpl<SubscriberName> for &str {
    open spec fn obeys_try_into_spec() -> bool {
        false
    }

    open spec fn try_into_spec(self) -> Result<SubscriberName, String> {
        arbitrary()
    }
}

impl AsRef<str> for SubscriberName {
    fn as_ref(&self) -> (r: &str)
        ensures
            r@ == self@,
    {
        self.0.as_str()
    }
}

impl core::ops::Deref for SubscriberName {
    type Target = str;

    fn deref(&self) -> (r: &str)
        ensures
            r@ == self@,
    {
        self.0.as_str()
    }
}

} // verus!
