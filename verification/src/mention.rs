//! The user that a command names: its first argument, a mention such as
//! `<@1234>`, read back as a user id.
use crate::text::{
    decimal, digits_of, is_digit, keep_digits, lemma_decimal_digits, lemma_keep_digits_all,
    lemma_keep_digits_concat, lemma_parse_decimal, parse_digits, parse_u64_digits, push_char,
    push_decimal,
};
use serenity::framework::standard::{Args, Delimiter};
use vstd::prelude::*;
use vstd::string::*;

verus! {

/// What serenity's argument parser gives as the first argument of the text
/// after a command's name: `Args::new(message, &[Delimiter::Single(' ')])`
/// followed by `single_quoted::<String>()`, with `None` for its error.
pub uninterp spec fn serenity_first_quoted_argument(message: Seq<char>) -> Option<Seq<char>>;

/// The text that consists of a single double quote, on which serenity's
/// quote removal slices out of bounds.
pub open spec fn lone_quote(message: Seq<char>) -> bool {
    message == seq!['"']
}

/// The first argument of a command's text, as the bot reads it; `None` where
/// the bot stops with a panic (no argument at all, or the lone quote).
pub open spec fn user_argument(message: Seq<char>) -> Option<Seq<char>> {
    if lone_quote(message) {
        None
    } else {
        serenity_first_quoted_argument(message)
    }
}

/// The user id that an argument names: its ASCII digits read as a `u64`;
/// `None` where there are none or they exceed `u64::MAX`.
pub open spec fn mentioned_id(arg: Seq<char>) -> Option<u64> {
    parse_u64_digits(keep_digits(arg))
}

/// The user id that a command's text names, `None` where the bot panics.
pub open spec fn command_target(message: Seq<char>) -> Option<u64> {
    match user_argument(message) {
        Some(arg) => mentioned_id(arg),
        None => None,
    }
}

/// The first argument of `message` by serenity's `Args::single_quoted`.
/// Claimed of serenity: the result is a function of the text alone (named
/// `serenity_first_quoted_argument`); the empty text has no argument; a
/// non-empty text without spaces and double quotes is one argument, itself.
/// Serenity panics on the lone double quote, which `requires` leaves out.
/// How spaces and quotes split and unquote longer texts is left unsaid.
#[verifier::external_body]
fn first_quoted_argument(message: &str) -> (r: Option<String>)
    requires
        !lone_quote(message@),
    ensures
        r.deep_view() == serenity_first_quoted_argument(message@),
        message@.len() == 0 ==> r is None,
        message@.len() > 0 && !message@.contains(' ') && !message@.contains('"') ==> r.deep_view()
            == Some(message@),
{
    Args::new(message, &[Delimiter::Single(' ')]).single_quoted::<String>().ok()
}

/// The first argument of a command's text, `None` where the bot panics.
pub fn user_argument_of(message: &str) -> (r: Option<String>)
    ensures
        r.deep_view() == user_argument(message@),
        message@.len() > 0 && !message@.contains(' ') && !message@.contains('"') ==> r.deep_view()
            == Some(message@),
{
    if message.unicode_len() == 1 {
        let c = message.get_char(0);
        if c == '"' {
            assert(message@ =~= seq!['"']);
            return None;
        }
        assert(!lone_quote(message@));
    }
    proof {
        if lone_quote(message@) {
            assert(message@[0] == '"');
            assert(message@.contains('"'));
        }
    }
    first_quoted_argument(message)
}

/// The user id that an argument names: its ASCII digits read as a `u64`.
pub fn argument_user_id(arg: &str) -> (r: Option<u64>)
    ensures
        r == mentioned_id(arg@),
{
    let digits = digits_of(arg);
    proof {
        lemma_keep_digits_all(arg@);
    }
    parse_digits(digits.as_str())
}

/// The user that a command names: the digits of its first argument read as a
/// user id. `None` where the bot panics: no argument, no digits, or a number
/// above `u64::MAX`.
pub fn mention_to_user_id(message: &str) -> (r: Option<u64>)
    ensures
        r == command_target(message@),
        forall|id: u64| message@ == #[trigger] mention(id) ==> r == Some(id),
        forall|id: u64| message@ == #[trigger] nickname_mention(id) ==> r == Some(id),
{
    let r = match user_argument_of(message) {
        Some(arg) => argument_user_id(arg.as_str()),
        None => None,
    };
    proof {
        assert forall|id: u64| message@ == #[trigger] mention(id) implies r == Some(id) by {
            lemma_mention_plain(id);
            lemma_mention_round_trip(id);
        }
        assert forall|id: u64| message@ == #[trigger] nickname_mention(id) implies r == Some(id) by {
            lemma_mention_plain(id);
            lemma_mention_round_trip(id);
        }
    }
    r
}

/// The mention of a user, `<@id>`.
pub open spec fn mention(id: u64) -> Seq<char> {
    seq!['<', '@'] + decimal(id as nat) + seq!['>']
}

/// The nickname form of a mention, `<@!id>`.
pub open spec fn nickname_mention(id: u64) -> Seq<char> {
    seq!['<', '@', '!'] + decimal(id as nat) + seq!['>']
}

/// A mention is a non-empty text without spaces or double quotes.
pub(crate) proof fn lemma_mention_plain(id: u64)
    ensures
        mention(id).len() > 0,
        !mention(id).contains(' '),
        !mention(id).contains('"'),
        nickname_mention(id).len() > 0,
        !nickname_mention(id).contains(' '),
        !nickname_mention(id).contains('"'),
{
    lemma_decimal_digits(id as nat);
    let d = decimal(id as nat);
    let m = mention(id);
    let k = nickname_mention(id);
    assert forall|i: int| 0 <= i < m.len() implies m[i] != ' ' && m[i] != '"' by {
        if 2 <= i < 2 + d.len() {
            assert(m[i] == d[i - 2]);
            assert(is_digit(d[i - 2]));
        }
    }
    assert forall|i: int| 0 <= i < k.len() implies k[i] != ' ' && k[i] != '"' by {
        if 3 <= i < 3 + d.len() {
            assert(k[i] == d[i - 3]);
            assert(is_digit(d[i - 3]));
        }
    }
}

/// Law: the id written into a mention is the id read back from it, in the
/// plain form `<@id>` and in the nickname form `<@!id>`.
pub proof fn lemma_mention_round_trip(id: u64)
    ensures
        mentioned_id(mention(id)) == Some(id),
        mentioned_id(nickname_mention(id)) == Some(id),
{
    let d = decimal(id as nat);
    lemma_parse_decimal(id);
    let open2 = seq!['<', '@'];
    let open3 = seq!['<', '@', '!'];
    let close = seq!['>'];
    assert(('<' as u32) == 60 && ('@' as u32) == 64 && ('!' as u32) == 33 && ('>' as u32) == 62);
    let one = seq!['<'];
    let none = Seq::<char>::empty();
    assert(keep_digits(none) =~= none);
    assert(one.drop_last() =~= none && one.last() == '<');
    assert(keep_digits(one) =~= none);
    assert(open2.drop_last() =~= one && open2.last() == '@');
    assert(keep_digits(open2) =~= none);
    assert(open3.drop_last() =~= open2 && open3.last() == '!');
    assert(keep_digits(open3) =~= none);
    assert(close.drop_last() =~= none && close.last() == '>');
    assert(keep_digits(close) =~= none);
    lemma_keep_digits_concat(open2, d);
    lemma_keep_digits_concat(open2 + d, close);
    lemma_keep_digits_concat(open3, d);
    lemma_keep_digits_concat(open3 + d, close);
    assert(keep_digits(mention(id)) =~= d);
    assert(keep_digits(nickname_mention(id)) =~= d);
}

/// Appends the mention of `id`, `<@id>`, to `out`.
pub fn push_mention(out: &mut String, id: u64)
    ensures
        final(out)@ == old(out)@ + mention(id),
{
    let ghost start = out@;
    push_char(out, '<');
    push_char(out, '@');
    push_decimal(out, id);
    push_char(out, '>');
    assert(out@ =~= start + mention(id));
}

} // verus!
