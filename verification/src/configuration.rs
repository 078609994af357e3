use vstd::prelude::*;

verus! {

/// Where the application listens.
#[derive(Debug)]
pub struct ApplicationSettings {
    pub port: u16,
    pub host: String,
}

/// The environment the application runs in; it picks the configuration
/// file that is layered over the base one.
#[derive(Debug, Clone, Copy, PartialEq, Eq, Structural)]
pub enum Envireonment {
    Local,
    Production,
}

/// The name of an environment, as `as_str` gives it.
pub open spec fn environment_name(e: Envireonment) -> Seq<char> {
    match e {
        Envireonment::Local => "local"@,
        Envireonment::Production => "production"@,
    }
}

/// The environment that a lower-cased name selects, if any.
pub open spec fn environment_named(lower: Seq<char>) -> Option<Envireonment> {
    if lower == "local"@ {
        Some(Envireonment::Local)
    } else if lower == "production"@ {
        Some(Envireonment::Production)
    } else {
        None
    }
}

/// The error text for an unsupported lower-cased name.
pub open spec fn environment_error(lower: Seq<char>) -> Seq<char> {
    lower + " is not a supported envireonment, Use either 'local' or 'production'."@
}

/// The Unicode lower-case form of `s`, as `str::to_lowercase` computes it.
pub uninterp spec fn lowercased(s: Seq<char>) -> Seq<char>;

/// Every character of `s` is ASCII.
pub open spec fn is_ascii_text(s: Seq<char>) -> bool {
    forall|i: int| 0 <= i < s.len() ==> #[trigger] s[i] <= '\u{7f}'
}

/// `c` with `A`-`Z` mapped to `a`-`z`.
pub open spec fn ascii_lower_char(c: char) -> char {
    if 'A' <= c && c <= 'Z' {
        ((c as u32) + 32) as char
    } else {
        c
    }
}

/// `s` with every ASCII capital letter made lower case.
pub open spec fn ascii_lowercase(s: Seq<char>) -> Seq<char> {
    Seq::new(s.len(), |i: int| ascii_lower_char(s[i]))
}

/// Calls `str::to_lowercase`. Claimed: the result is `lowercased(s@)`, a
/// function of `s` alone; and, by the Unicode lower-case mapping the
/// documentation refers to, on ASCII text it maps `A`-`Z` to `a`-`z` and keeps
/// every other character.
#[verifier::external_body]
fn to_lowercase(s: &str) -> (r: String)
    ensures
        r@ == lowercased(s@),
        is_ascii_text(s@) ==> r@ == ascii_lowercase(s@),
{
    s.to_lowercase()
}

impl Envireonment {
    /// The environment's name: "local" or "production".
    pub fn as_str(&self) -> (r: &'static str)
        ensures
            r@ == environment_name(*self),
            *self == Envireonment::Local ==> r@ == "local"@,
            *self == Envireonment::Production ==> r@ == "production"@,
    {
        match self {
            Envireonment::Local => "local",
            Envireonment::Production => "production",
        }
    }

    /// The decision of `try_from` on a name that is already lower-cased.
    pub fn from_lowercase(lower: String) -> (r: Result<Envireonment, String>)
        ensures
            r is Ok <==> environment_named(lower@) is Some,
            r matches Ok(e) ==> environment_named(lower@) == Some(e),
            r matches Err(msg) ==> msg@ == environment_error(lower@),
            r matches Ok(Envireonment::Local) <==> lower@ == "local"@,
            r matches Ok(Envireonment::Production) <==> lower@ == "production"@,
            r is Err <==> lower@ != "local"@ && lower@ != "production"@,
            r matches Err(msg) ==> msg@ == lower@ + " is not a supported envireonment, Use either 'local' or 'production'."@,
    {
        proof {
            broadcast use vstd::string::group_string_axioms;

            lemma_environment_names_literally(lower@);
        }
        let local = "local".to_string();
        let production = "production".to_string();
        if lower == local {
            Ok(Envireonment::Local)
        } else if lower == production {
            Ok(Envireonment::Production)
        } else {
            let mut msg = lower;
            msg.append(" is not a supported envireonment, Use either 'local' or 'production'.");
            Err(msg)
        }
    }

    /// Parses an environment name, ignoring case.
    pub fn try_from(s: String) -> (r: Result<Envireonment, String>)
        ensures
            r is Ok <==> environment_named(lowercased(s@)) is Some,
            r matches Ok(e) ==> environment_named(lowercased(s@)) == Some(e),
            r matches Err(msg) ==> msg@ == environment_error(lowercased(s@)),
            is_ascii_text(s@) ==> (r is Ok <==> environment_named(ascii_lowercase(s@)) is Some),
            is_ascii_text(s@) ==> (r matches Ok(e) ==> environment_named(ascii_lowercase(s@))
                == Some(e)),
            r matches Ok(Envireonment::Local) <==> lowercased(s@) == "local"@,
            r matches Ok(Envireonment::Production) <==> lowercased(s@) == "production"@,
            r is Err <==> lowercased(s@) != "local"@ && lowercased(s@) != "production"@,
            r matches Err(msg) ==> msg@ == lowercased(s@) + " is not a supported envireonment, Use either 'local' or 'production'."@,
    {
        let lower = to_lowercase(s.as_str());
        Self::from_lowercase(lower)
    }

    /// The environment named by the setting `value`, or `Local` when the
    /// setting is absent.
    pub fn from_env(value: Option<String>) -> (r: Result<Envireonment, String>)
        ensures
            value is None ==> r == Ok::<Envireonment, String>(Envireonment::Local),
            value matches Some(s) ==> (r is Ok <==> environment_named(lowercased(s@)) is Some),
            value matches Some(s) ==> (r matches Ok(e) ==> environment_named(lowercased(s@))
                == Some(e)),
            value matches Some(s) ==> (r matches Err(msg) ==> msg@ == environment_error(
                lowercased(s@),
            )),
    {
        match value {
            Some(s) => Self::try_from(s),
            None => {
                let local = "local".to_string();
                proof {
                    broadcast use vstd::string::group_string_axioms;

                    reveal_strlit("local");
                    assert(ascii_lowercase("local"@) =~= "local"@);
                }
                Self::try_from(local)
            },
        }
    }
}

impl TryFrom<String> for Envireonment {
    type Error = String;

    fn try_from(s: String) -> (r: Result<Envireonment, String>)
        ensures
            r is Ok <==> environment_named(lowercased(s@)) is Some,
            r matches Ok(e) ==> environment_named(lowercased(s@)) == Some(e),
            r matches Err(msg) ==> msg@ == environment_error(lowercased(s@)),
    {
        Envireonment::try_from(s)
    }
}

// The trait-level specification is left open (`obeys_try_from_spec` is false):
// the impl above states the contract of the conversion itself.
impl vstd::std_specs::convert::TryFromSpecImpl<String> for Envireonment {
    open spec fn obeys_try_from_spec() -> bool {
        false
    }

    open spec fn try_from_spec(v: String) -> Result<Envireonment, String> {
        arbitrary()
    }
}

/// The environment names in plain terms: a lower-cased name selects `Local`
/// exactly when it is "local" and `Production` exactly when it is
/// "production"; every other name is refused, with the name followed by
/// " is not a supported envireonment, Use either 'local' or 'production'.";
/// and `Local` is named "local", `Production` "production".
pub proof fn lemma_environment_names_literally(lower: Seq<char>)
    ensures
        environment_named(lower) == Some(Envireonment::Local) <==> lower == "local"@,
        environment_named(lower) == Some(Envireonment::Production) <==> lower == "production"@,
        environment_named(lower) is None <==> lower != "local"@ && lower != "production"@,
        environment_error(lower) == lower + " is not a supported envireonment, Use either 'local' or 'production'."@,
        environment_name(Envireonment::Local) == "local"@,
        environment_name(Envireonment::Production) == "production"@,
{
    reveal_strlit("local");
    reveal_strlit("production");
    assert("local"@ != "production"@) by {
        assert("local"@.len() != "production"@.len());
    }
}

/// Naming an environment and reading the name back gives the same
/// environment, and the two environments have different names.
pub proof fn lemma_environment_name_round_trip(e: Envireonment)
    ensures
        environment_named(environment_name(e)) == Some(e),
{
    reveal_strlit("local");
    reveal_strlit("production");
    assert("local"@ != "production"@) by {
        assert("local"@.len() != "production"@.len());
    }
}

} // verus!
