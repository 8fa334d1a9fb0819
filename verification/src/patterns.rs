//! The two text patterns a contact's optional fields are held to, and the
//! regular-expression engine that decides them.

use vstd::prelude::*;

verus! {

/// Regular expression for a phone number: an optional leading `+`, then one
/// or more digits or spaces, and nothing else.
pub const PHONE_PATTERN: &'static str = "^\\+?[0-9 ]+$";

/// Regular expression for an email address: one `@` with at least one other
/// character on each side of it, and no second `@`.
pub const EMAIL_PATTERN: &'static str = "^[^@]+@[^@]+$";

/// A character that may follow the optional `+` of a phone number.
pub open spec fn is_phone_char(c: char) -> bool {
    c == ' ' || ('0' <= c && c <= '9')
}

/// One or more characters, each of them a digit or a space.
pub open spec fn is_digits_and_spaces(text: Seq<char>) -> bool {
    &&& text.len() > 0
    &&& forall|i: int| 0 <= i < text.len() ==> is_phone_char(#[trigger] text[i])
}

/// The texts that `PHONE_PATTERN` describes: digits and spaces, after a `+`
/// or without one.
pub open spec fn is_phone_number(text: Seq<char>) -> bool {
    if text.len() > 0 && text[0] == '+' {
        is_digits_and_spaces(text.skip(1))
    } else {
        is_digits_and_spaces(text)
    }
}

/// A phone number is one or more digits or spaces, or a `+` and then one or
/// more digits or spaces.
pub proof fn lemma_phone_number_is_digits_after_optional_plus(text: Seq<char>)
    ensures
        is_phone_number(text) <==> {
            ||| is_digits_and_spaces(text)
            ||| exists|digits: Seq<char>|
                #[trigger] is_digits_and_spaces(digits) && text == seq!['+'] + digits
        },
{
    if text.len() > 0 && text[0] == '+' {
        assert(!is_phone_char(text[0]));
        assert(text =~= seq!['+'] + text.skip(1));
    }
    if exists|digits: Seq<char>| #[trigger] is_digits_and_spaces(digits) && text == seq!['+'] + digits {
        let digits = choose|digits: Seq<char>|
            #[trigger] is_digits_and_spaces(digits) && text == seq!['+'] + digits;
        assert(text[0] == '+');
        assert(text.skip(1) =~= digits);
    }
}

/// `at` is a place in `text`, and the only one that holds an `@`.
pub open spec fn is_lone_at_sign(text: Seq<char>, at: int) -> bool {
    &&& 0 <= at < text.len()
    &&& forall|i: int| 0 <= i < text.len() ==> (#[trigger] text[i] == '@' <==> i == at)
}

/// The texts that `EMAIL_PATTERN` describes: one `@` and no other, with at
/// least one character before it and at least one after it.
pub open spec fn is_email_address(text: Seq<char>) -> bool {
    exists|at: int| 0 < at < text.len() - 1 && #[trigger] is_lone_at_sign(text, at)
}

/// How many `@` a text holds.
pub open spec fn count_at_signs(text: Seq<char>) -> nat
    decreases text.len(),
{
    if text.len() == 0 {
        0
    } else if text.last() == '@' {
        count_at_signs(text.drop_last()) + 1
    } else {
        count_at_signs(text.drop_last())
    }
}

/// A text counts no `@` exactly when none of its characters is one.
pub proof fn lemma_no_at_sign(text: Seq<char>)
    ensures
        count_at_signs(text) == 0 <==> forall|i: int| 0 <= i < text.len() ==> text[i] != '@',
    decreases text.len(),
{
    if text.len() > 0 {
        let front = text.drop_last();
        lemma_no_at_sign(front);
        assert(forall|i: int| 0 <= i < front.len() ==> front[i] == text[i]);
        if count_at_signs(text) == 0 {
            assert(text.last() != '@');
        }
    }
}

/// A text counts one `@` exactly when one of its places is the only one that
/// holds an `@`.
pub proof fn lemma_one_at_sign(text: Seq<char>)
    ensures
        count_at_signs(text) == 1 <==> exists|at: int| is_lone_at_sign(text, at),
    decreases text.len(),
{
    if text.len() > 0 {
        let front = text.drop_last();
        let end = text.len() - 1;
        lemma_no_at_sign(front);
        lemma_one_at_sign(front);
        assert(forall|i: int| 0 <= i < front.len() ==> front[i] == text[i]);
        if text.last() == '@' {
            if count_at_signs(text) == 1 {
                assert(is_lone_at_sign(text, end));
            }
            if exists|at: int| is_lone_at_sign(text, at) {
                let at = choose|at: int| is_lone_at_sign(text, at);
                assert(text[end] == '@');
                assert(at == end);
            }
        } else {
            if count_at_signs(text) == 1 {
                let at = choose|at: int| is_lone_at_sign(front, at);
                assert(is_lone_at_sign(text, at));
            }
            if exists|at: int| is_lone_at_sign(text, at) {
                let at = choose|at: int| is_lone_at_sign(text, at);
                assert(text[at] == '@');
                assert(is_lone_at_sign(front, at));
            }
        }
    } else {
        assert(forall|at: int| !is_lone_at_sign(text, at));
    }
}

/// An email address is a text with exactly one `@` that neither begins nor
/// ends with it: there is something on each side of the `@`. A text with no
/// `@`, with more than one, or with nothing on one side is none.
pub proof fn lemma_email_address_has_one_at_sign_between_two_parts(text: Seq<char>)
    ensures
        is_email_address(text) <==> {
            &&& count_at_signs(text) == 1
            &&& text.first() != '@'
            &&& text.last() != '@'
        },
{
    lemma_one_at_sign(text);
    if is_email_address(text) {
        let at = choose|at: int| 0 < at < text.len() - 1 && #[trigger] is_lone_at_sign(text, at);
        assert(text[0] != '@');
        assert(text[text.len() - 1] != '@');
    }
    if count_at_signs(text) == 1 && text.first() != '@' && text.last() != '@' {
        let at = choose|at: int| is_lone_at_sign(text, at);
        assert(text[at] == '@');
        assert(0 < at < text.len() - 1);
    }
}

/// A part without an `@`, an `@` and another part without one make an email
/// address exactly when neither part is empty.
pub proof fn lemma_email_address_of_parts(local: Seq<char>, domain: Seq<char>)
    requires
        count_at_signs(local) == 0,
        count_at_signs(domain) == 0,
    ensures
        is_email_address(local + seq!['@'] + domain) <==> local.len() > 0 && domain.len() > 0,
{
    let text = local + seq!['@'] + domain;
    let at = local.len() as int;
    lemma_no_at_sign(local);
    lemma_no_at_sign(domain);
    assert(text[at] == '@');
    assert forall|i: int| 0 <= i < text.len() implies (#[trigger] text[i] == '@' <==> i == at) by {
        if i < at {
            assert(text[i] == local[i]);
        } else if i > at {
            assert(text[i] == domain[i - at - 1]);
        }
    }
    assert(is_lone_at_sign(text, at));
    if is_email_address(text) {
        let found = choose|found: int| 0 < found < text.len() - 1 && #[trigger] is_lone_at_sign(text, found);
        assert(text[found] == '@');
        assert(found == at);
    }
}

/// Whether `pattern` is one of the two patterns of this module.
pub open spec fn is_known_pattern(pattern: Seq<char>) -> bool {
    pattern == PHONE_PATTERN@ || pattern == EMAIL_PATTERN@
}

/// Searches `text` for `pattern` with the `regex` crate: `regex::Regex::new`
/// compiles the pattern and `regex::Regex::is_match` runs it.
///
/// Not proved: that `Regex::new` accepts each of the two patterns of this
/// module, and that the compiled expression matches exactly the texts that
/// `is_phone_number` and `is_email_address` describe. Both patterns are
/// anchored at `^` and `$`, so a match anywhere is a match of the whole text.
#[verifier::external_body]
fn regex_is_match(pattern: &str, text: &str) -> (found: bool)
    requires
        is_known_pattern(pattern@),
    ensures
        pattern@ == PHONE_PATTERN@ ==> found == is_phone_number(text@),
        pattern@ == EMAIL_PATTERN@ ==> found == is_email_address(text@),
{
    regex::Regex::new(pattern).unwrap().is_match(text)
}

/// Whether `text` is a phone number, as `PHONE_PATTERN` has it.
pub fn matches_phone_pattern(text: &str) -> (found: bool)
    ensures
        found == is_phone_number(text@),
{
    regex_is_match(PHONE_PATTERN, text)
}

/// Whether `text` is an email address, as `EMAIL_PATTERN` has it.
pub fn matches_email_pattern(text: &str) -> (found: bool)
    ensures
        found == is_email_address(text@),
{
    regex_is_match(EMAIL_PATTERN, text)
}

} // verus!
