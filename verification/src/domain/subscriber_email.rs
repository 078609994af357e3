use validator::ValidateEmail;
use vstd::prelude::*;

verus! {

/// Whether the `validator` crate's `ValidateEmail::validate_email` accepts `s`
/// (the HTML5 form of an address, with IDN domains allowed).
pub uninterp spec fn validator_accepts(s: Seq<char>) -> bool;

/// `s` holds exactly one `@`, and not as its first character.
pub open spec fn has_single_at_after_user(s: Seq<char>) -> bool {
    exists|a: int|
        0 < a < s.len() && #[trigger] s[a] == '@' && forall|k: int|
            0 <= k < s.len() && k != a ==> #[trigger] s[k] != '@'
}

/// The second `@`-separated field of `s` (the text after the first `@`, up to
/// the next `@` or the end) holds a `.`.
pub open spec fn domain_field_has_dot(s: Seq<char>) -> bool {
    exists|a: int, d: int|
        #![trigger s[a], s[d]]
        {
            &&& 0 <= a < d < s.len()
            &&& s[a] == '@'
            &&& s[d] == '.'
            &&& forall|k: int| 0 <= k < d && k != a ==> #[trigger] s[k] != '@'
        }
}

/// Whether `s` is accepted as a subscriber's email address: the validator
/// accepts it and its domain part holds a dot.
pub open spec fn valid_email(s: Seq<char>) -> bool {
    validator_accepts(s) && domain_field_has_dot(s)
}

/// The error text for a refused address.
pub open spec fn email_error() -> Seq<char> {
    "value is not a valid email"@
}

/// An ASCII letter or digit.
pub open spec fn is_ascii_alphanumeric(c: char) -> bool {
    ('a' <= c && c <= 'z') || ('A' <= c && c <= 'Z') || ('0' <= c && c <= '9')
}

/// A character the validator allows in the part of an address before the `@`.
pub open spec fn is_user_char(c: char) -> bool {
    is_ascii_alphanumeric(c) || c == '.' || c == '!' || c == '#' || c == '$' || c == '%' || c
        == '&' || c == '\'' || c == '*' || c == '+' || c == '/' || c == '=' || c == '?' || c == '^'
        || c == '_' || c == '`' || c == '{' || c == '|' || c == '}' || c == '~' || c == '-'
}

/// `d` is a host name of at most 255 characters: dot-separated labels of 1 to
/// 63 ASCII letters, digits and hyphens, each label starting and ending with a
/// letter or digit.
pub open spec fn is_host_name(d: Seq<char>) -> bool {
    &&& 0 < d.len() <= 255
    &&& forall|i: int|
        0 <= i < d.len() ==> is_ascii_alphanumeric(#[trigger] d[i]) || d[i] == '-' || d[i] == '.'
    &&& is_ascii_alphanumeric(d[0])
    &&& is_ascii_alphanumeric(d[d.len() - 1])
    &&& forall|i: int|
        0 < i < d.len() - 1 && #[trigger] d[i] == '.' ==> is_ascii_alphanumeric(d[i - 1])
            && is_ascii_alphanumeric(d[i + 1])
    &&& forall|i: int, j: int|
        #![trigger d[i], d[j]]
        0 <= i && i + 63 <= j < d.len() ==> exists|k: int| i <= k <= j && #[trigger] d[k] == '.'
}

/// `s` is an ordinary address: a user part of 1 to 64 characters, all allowed
/// ones, then `@`, then a host name.
pub open spec fn is_ordinary_address(s: Seq<char>) -> bool {
    exists|a: int|
        {
            &&& 1 <= a <= 64
            &&& a < s.len()
            &&& #[trigger] s[a] == '@'
            &&& forall|k: int| 0 <= k < a ==> is_user_char(#[trigger] s[k])
            &&& is_host_name(s.subrange(a + 1, s.len() as int))
        }
}

/// Calls `ValidateEmail::validate_email` of the `validator` crate on `s`.
/// Claimed: the result is `validator_accepts(s@)`; and, as its source shows
/// (an address without `@` is refused, and the part before the last `@` must
/// match `[a-zA-Z0-9.!#$%&'*+/=?^_`{|}~-]+`), an accepted address holds
/// exactly one `@`, with at least one character before it. Conversely an
/// ordinary address is accepted: its user part has at most 64 characters and
/// matches that pattern, and its domain part has at most 255 characters and
/// matches the host-name pattern
/// `[a-zA-Z0-9](?:[a-zA-Z0-9-]{0,61}[a-zA-Z0-9])?(?:\.[a-zA-Z0-9](?:[a-zA-Z0-9-]{0,61}[a-zA-Z0-9])?)*`,
/// after which the source returns `true`.
#[verifier::external_body]
fn validate_email(s: &String) -> (r: bool)
    ensures
        r == validator_accepts(s@),
        r ==> has_single_at_after_user(s@),
        is_ordinary_address(s@) ==> r,
{
    s.validate_email()
}

/// Whether the second `@`-separated field of `s` holds a `.`, as
/// `s.split('@').nth(1)` followed by `contains('.')` decides it.
pub fn domain_has_dot(s: &str) -> (r: bool)
    ensures
        r == domain_field_has_dot(s@),
{
    // 0: before the first `@`; 1: inside the second field; 2: past it.
    let mut stage: u8 = 0;
    let mut found = false;
    let ghost mut a: int = 0;
    let ghost mut b: int = 0;
    let ghost mut d: int = 0;
    for c in it: s.chars()
        invariant
            it.seq() == s@,
            stage <= 2,
            stage == 0 ==> !found && forall|k: int| 0 <= k < it.index() ==> #[trigger] s@[k] != '@',
            stage >= 1 ==> 0 <= a < it.index() && s@[a] == '@' && forall|k: int|
                0 <= k < a ==> #[trigger] s@[k] != '@',
            stage == 1 ==> !found && forall|k: int|
                a < k < it.index() ==> #[trigger] s@[k] != '@' && s@[k] != '.',
            found ==> stage == 2 && a < d < s@.len() && s@[d] == '.' && forall|k: int|
                a < k < d ==> #[trigger] s@[k] != '@',
            stage == 2 && !found ==> a < b < s@.len() && s@[b] == '@' && forall|k: int|
                a < k < b ==> #[trigger] s@[k] != '@' && s@[k] != '.',
    {
        let ghost i = it.index() as int;
        assert(s@[i] == c);
        if stage == 0 {
            if c == '@' {
                stage = 1;
                proof {
                    a = i;
                }
            }
        } else if stage == 1 {
            if c == '@' {
                stage = 2;
                proof {
                    b = i;
                }
            } else if c == '.' {
                stage = 2;
                found = true;
                proof {
                    d = i;
                }
            }
        }
    }
    if found {
        assert(s@[a] == '@' && s@[d] == '.');
    } else {
        assert forall|x: int, y: int|
            0 <= x < y < s@.len() && s@[x] == '@' && s@[y] == '.' implies exists|k: int|
                0 <= k < y && k != x && #[trigger] s@[k] == '@' by {
            if stage == 1 || stage == 2 {
                if x != a {
                    assert(x > a);
                    assert(s@[a] == '@');
                } else if stage == 2 {
                    assert(y > b);
                    assert(s@[b] == '@');
                }
            }
        }
    }
    found
}

/// For an address `user@domain` whose two parts hold no `@`, the domain
/// check looks at `domain` alone: it passes exactly when `domain` holds a `.`,
/// whatever dots `user` holds.
pub proof fn lemma_domain_check_of_user_at_domain(user: Seq<char>, domain: Seq<char>)
    requires
        forall|k: int| 0 <= k < user.len() ==> #[trigger] user[k] != '@',
        forall|k: int| 0 <= k < domain.len() ==> #[trigger] domain[k] != '@',
    ensures
        domain_field_has_dot(user + seq!['@'] + domain) <==> domain.contains('.'),
{
    let s = user + seq!['@'] + domain;
    let a = user.len() as int;
    assert(s[a] == '@');
    if domain.contains('.') {
        let j = choose|j: int| 0 <= j < domain.len() && domain[j] == '.';
        let d = a + 1 + j;
        assert(s[d] == '.');
        assert forall|k: int| 0 <= k < d && k != a implies #[trigger] s[k] != '@' by {
            if k < a {
                assert(s[k] == user[k]);
            } else {
                assert(s[k] == domain[k - a - 1]);
            }
        }
    }
    if domain_field_has_dot(s) {
        let (x, d) = choose|x: int, d: int|
            #![trigger s[x], s[d]]
            {
                &&& 0 <= x < d < s.len()
                &&& s[x] == '@'
                &&& s[d] == '.'
                &&& forall|k: int| 0 <= k < d && k != x ==> #[trigger] s[k] != '@'
            };
        if x < a {
            assert(s[x] == user[x]);
        } else if x > a {
            assert(s[x] == domain[x - a - 1]);
        }
        assert(x == a);
        assert(domain[d - a - 1] == '.');
    }
}

/// A refused address gets the text "value is not a valid email".
pub proof fn lemma_email_error_text()
    ensures
        email_error() == "value is not a valid email"@,
{
}

/// An address whose domain part holds no dot is refused, whatever the
/// validator answers.
pub proof fn lemma_undotted_domain_refused(s: Seq<char>)
    requires
        !domain_field_has_dot(s),
    ensures
        !valid_email(s),
{
}

/// A subscriber's email address, always one that `valid_email` accepts.
#[derive(Debug)]
pub struct SubscriberEmail(String);

impl View for SubscriberEmail {
    type V = Seq<char>;

    closed spec fn view(&self) -> Seq<char> {
        self.0@
    }
}

impl Clone for SubscriberEmail {
    fn clone(&self) -> (r: SubscriberEmail)
        ensures
            r@ == self@,
    {
        proof {
            use_type_invariant(self);
        }
        SubscriberEmail(self.0.clone())
    }
}

impl SubscriberEmail {
    #[verifier::type_invariant]
    spec fn holds_valid_email(self) -> bool {
        valid_email(self.0@)
    }

    /// The decision of `try_from` once the validator has answered
    /// `passes_validator` for `value`: accept when it passed and the domain
    /// part holds a dot, else give the error text.
    pub fn check_validated(value: &str, passes_validator: bool) -> (r: Result<(), String>)
        ensures
            r is Ok <==> passes_validator && domain_field_has_dot(value@),
            r matches Err(e) ==> e@ == email_error(),
    {
        proof {
            broadcast use vstd::string::group_string_axioms;
        }
        if !passes_validator {
            return Err("value is not a valid email".to_string());
        }
        if domain_has_dot(value) {
            Ok(())
        } else {
            Err("value is not a valid email".to_string())
        }
    }

    /// Parses a string into an email address, keeping the string as it is.
    pub fn try_from(value: String) -> (r: Result<SubscriberEmail, String>)
        ensures
            r is Ok <==> valid_email(value@),
            r matches Ok(email) ==> email@ == value@,
            r matches Err(e) ==> e@ == email_error(),
            !has_single_at_after_user(value@) ==> r is Err,
            is_ordinary_address(value@) ==> (r is Ok <==> domain_field_has_dot(value@)),
    {
        let passes = validate_email(&value);
        match Self::check_validated(value.as_str(), passes) {
            Ok(()) => Ok(SubscriberEmail(value)),
            Err(e) => Err(e),
        }
    }

    /// The address as a string slice; it is always a valid address.
    pub fn as_ref(&self) -> (r: &str)
        ensures
            r@ == self@,
            valid_email(r@),
    {
        proof {
            use_type_invariant(self);
        }
        self.0.as_str()
    }
}

impl TryFrom<String> for SubscriberEmail {
    type Error = String;

    fn try_from(value: String) -> (r: Result<SubscriberEmail, String>)
        ensures
            r is Ok <==> valid_email(value@),
            r matches Ok(email) ==> email@ == value@,
            r matches Err(e) ==> e@ == email_error(),
    {
        SubscriberEmail::try_from(value)
    }
}

// The trait-level specification is left open (`obeys_try_from_spec` is false):
// the impl above states the contract of the conversion itself.
impl vstd::std_specs::convert::TryFromSpecImpl<String> for SubscriberEmail {
    open spec fn obeys_try_from_spec() -> bool {
        false
    }

    open spec fn try_from_spec(v: String) -> Result<SubscriberEmail, String> {
        arbitrary()
    }
}

impl AsRef<str> for SubscriberEmail {
    fn as_ref(&self) -> (r: &str)
        ensures
            r@ == self@,
    {
        self.0.as_str()
    }
}

impl core::ops::Deref for SubscriberEmail {
    type Target = str;

    fn deref(&self) -> (r: &str)
        ensures
            r@ == self@,
    {
        self.0.as_str()
    }
}

} // verus!
