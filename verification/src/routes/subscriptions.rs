use crate::domain::new_subscriber::{valid_form, NewSubscriber};
use vstd::prelude::*;

verus! {

/// The fields of a submitted subscription form.
#[derive(Debug)]
pub struct FormData {
    pub email: String,
    pub name: String,
}

/// The HTTP status for a stored subscription.
pub const STATUS_OK: u16 = 200;

/// The HTTP status for a form whose name or address is invalid.
pub const STATUS_BAD_REQUEST: u16 = 400;

/// The HTTP status for a subscription that could not be stored.
pub const STATUS_INTERNAL_SERVER_ERROR: u16 = 500;

/// What the subscription endpoint does with a submitted form.
#[derive(Debug)]
pub enum SubscribeAction {
    /// Answer at once with this HTTP status.
    Respond(u16),
    /// Store this subscriber, then answer with `insert_finished`.
    Insert(NewSubscriber),
}

/// The first step of a subscription: a form with an invalid name or address
/// is answered with 400 Bad Request; a valid one is to be stored.
pub fn subscribe(form: FormData) -> (a: SubscribeAction)
    ensures
        a is Insert <==> valid_form(form.name@, form.email@),
        a matches SubscribeAction::Insert(s) ==> s.name@ == form.name@ && s.email@ == form.email@,
        a matches SubscribeAction::Respond(status) ==> status == STATUS_BAD_REQUEST,
        a matches SubscribeAction::Respond(status) ==> status == 400,
{
    match NewSubscriber::try_from(form) {
        Ok(subscriber) => SubscribeAction::Insert(subscriber),
        Err(_) => SubscribeAction::Respond(STATUS_BAD_REQUEST),
    }
}

/// The answer once the store of a subscriber has finished: 200 OK when it
/// succeeded, 500 Internal Server Error when it failed.
pub fn insert_finished(stored: bool) -> (status: u16)
    ensures
        status == if stored {
            STATUS_OK
        } else {
            STATUS_INTERNAL_SERVER_ERROR
        },
        stored ==> status == 200,
        !stored ==> status == 500,
{
    if stored {
        STATUS_OK
    } else {
        STATUS_INTERNAL_SERVER_ERROR
    }
}

/// `s` with every occurrence of `c` replaced by `with`.
pub open spec fn replaced(s: Seq<char>, c: char, with: Seq<char>) -> Seq<char>
    decreases s.len(),
{
    if s.len() == 0 {
        Seq::empty()
    } else {
        replaced(s.drop_last(), c, with) + if s.last() == c {
            with
        } else {
            seq![s.last()]
        }
    }
}

proof fn lemma_replaced_run(s: Seq<char>, c: char, with: Seq<char>, start: int, i: int)
    requires
        0 <= start <= i <= s.len(),
        forall|k: int| start <= k < i ==> s[k] != c,
    ensures
        replaced(s.take(i), c, with) == replaced(s.take(start), c, with) + s.subrange(start, i),
    decreases i - start,
{
    if i > start {
        lemma_replaced_run(s, c, with, start, i - 1);
        assert(s.take(i).drop_last() =~= s.take(i - 1));
        assert(s.subrange(start, i) =~= s.subrange(start, i - 1).push(s[i - 1]));
    } else {
        assert(s.subrange(start, i) =~= Seq::<char>::empty());
    }
}

/// The replacement in plain terms: it works character by character, so the
/// replacement of a concatenation is the concatenation of the replacements;
/// a single character becomes `with` when it is `c` and stays itself
/// otherwise; and the empty text stays empty.
pub proof fn lemma_replaced_in_plain_terms(s1: Seq<char>, s2: Seq<char>, c: char, with: Seq<char>, x: char)
    ensures
        replaced(s1 + s2, c, with) == replaced(s1, c, with) + replaced(s2, c, with),
        replaced(seq![x], c, with) == if x == c {
            with
        } else {
            seq![x]
        },
        replaced(Seq::<char>::empty(), c, with) == Seq::<char>::empty(),
    decreases s2.len(),
{
    assert(seq![x].drop_last() =~= Seq::<char>::empty());
    let piece = if x == c {
        with
    } else {
        seq![x]
    };
    assert(replaced(seq![x], c, with) == replaced(seq![x].drop_last(), c, with) + piece);
    assert(Seq::<char>::empty() + piece =~= piece);
    if s2.len() == 0 {
        assert(s1 + s2 =~= s1);
        assert(replaced(s1, c, with) + replaced(s2, c, with) =~= replaced(s1, c, with));
    } else {
        lemma_replaced_in_plain_terms(s1, s2.drop_last(), c, with, x);
        assert((s1 + s2).drop_last() =~= s1 + s2.drop_last());
        assert((s1 + s2).last() == s2.last());
        let tail = if s2.last() == c {
            with
        } else {
            seq![s2.last()]
        };
        assert(replaced(s1, c, with) + replaced(s2.drop_last(), c, with) + tail =~= replaced(
            s1,
            c,
            with,
        ) + (replaced(s2.drop_last(), c, with) + tail));
    }
}

/// Appends to `out` the text `s` with every `c` replaced by `with`, as
/// `str::replace` with a one-character pattern does.
fn append_replaced(out: &mut String, s: &str, c: char, with: &str)
    ensures
        final(out)@ == old(out)@ + replaced(s@, c, with@),
{
    let ghost prefix = out@;
    let n = s.unicode_len();
    let mut start: usize = 0;
    let mut i: usize = 0;
    assert(s@.take(0) =~= Seq::<char>::empty());
    for ch in it: s.chars()
        invariant
            it.seq() == s@,
            n == s@.len(),
            i == it.index(),
            start <= i,
            out@ == prefix + replaced(s@.take(start as int), c, with@),
            forall|k: int| start <= k < it.index() ==> #[trigger] s@[k] != c,
    {
        let ghost ii = i as int;
        assert(s@[ii] == ch);
        if ch == c {
            proof {
                lemma_replaced_run(s@, c, with@, start as int, ii);
                assert(s@.take(ii + 1).drop_last() =~= s@.take(ii));
            }
            out.append(s.substring_char(start, i));
            out.append(with);
            start = i + 1;
            proof {
                assert(out@ =~= prefix + replaced(s@.take(start as int), c, with@));
            }
        }
        i = i + 1;
    }
    proof {
        lemma_replaced_run(s@, c, with@, start as int, s@.len() as int);
        assert(s@.take(s@.len() as int) =~= s@);
    }
    out.append(s.substring_char(start, n));
    proof {
        assert(out@ =~= prefix + replaced(s@, c, with@));
    }
}

/// The url-encoded body a client posts to the subscription endpoint for
/// this name and address: spaces of the name become `%20`, the `@` of the
/// address becomes `%40`, and nothing else is encoded.
pub fn encode_form(name: &str, email: &str) -> (r: String)
    ensures
        r@ == "name="@ + replaced(name@, ' ', "%20"@) + "&email="@ + replaced(email@, '@', "%40"@),
{
    proof {
        broadcast use vstd::string::group_string_axioms;
    }
    let mut body = "name=".to_string();
    append_replaced(&mut body, name, ' ', "%20");
    body.append("&email=");
    append_replaced(&mut body, email, '@', "%40");
    body
}

} // verus!
