//! Identifier formatting for generated output: turn a snake case name into
//! an upper camel case one by dropping the underscores and uppercasing the
//! first letter of every word.

use vstd::prelude::*;

verus! {

/// The ASCII uppercase form of a character: a lowercase ASCII letter loses
/// the case bit, anything else stays as it is.
pub open spec fn upper(c: char) -> char {
    if 'a' <= c && c <= 'z' {
        ((c as u8) - 0x20) as char
    } else {
        c
    }
}

/// The characters of `s` from position `i` on, converted to upper camel
/// case: underscores are dropped, and a character standing at the start of
/// a word (`start` says whether position `i` does) is uppercased.
pub open spec fn ucc_from(s: Seq<char>, i: int, start: bool) -> Seq<char>
    decreases s.len() - i,
{
    if i < 0 || i >= s.len() {
        Seq::empty()
    } else if s[i] == '_' {
        ucc_from(s, i + 1, true)
    } else {
        seq![if start { upper(s[i]) } else { s[i] }] + ucc_from(s, i + 1, false)
    }
}

/// The upper camel case form of a whole snake case string.
pub open spec fn ucc_of(s: Seq<char>) -> Seq<char> {
    ucc_from(s, 0, true)
}

/// Appends one character.
///
/// Relies on `String::push`: the character is appended at the end and the
/// rest of the string is untouched.
#[verifier::external_body]
fn push_char(s: &mut String, c: char)
    ensures
        final (s)@ == old(s)@.push(c),
{
    s.push(c);
}

/// The ASCII uppercase form of a character.
fn upper_char(c: char) -> (r: char)
    ensures
        r == upper(c),
{
    if 'a' <= c && c <= 'z' {
        ((c as u8) - 0x20) as char
    } else {
        c
    }
}

/// Converts a snake case string to an upper camel case string: underscores
/// are dropped and the first letter of each word is uppercased.
pub fn sc_to_ucc(string: &str) -> (r: String)
    ensures
        r@ == ucc_of(string@),
{
    let mut result = String::new();
    let n: usize = string.unicode_len();
    let mut i: usize = 0;
    let mut start = true;
    while i < n
        invariant
            i <= n,
            n == string@.len(),
            result@ + ucc_from(string@, i as int, start) == ucc_of(string@),
        decreases n - i,
    {
        let c = string.get_char(i);
        if c == '_' {
            start = true;
        } else {
            let converted = if start {
                upper_char(c)
            } else {
                c
            };
            proof {
                assert(result@.push(converted) + ucc_from(string@, i + 1, false) =~= result@ + (
                seq![converted] + ucc_from(string@, i + 1, false)));
            }
            push_char(&mut result, converted);
            start = false;
        }
        i += 1;
    }
    proof {
        assert(result@ + ucc_from(string@, i as int, start) =~= result@);
    }
    result
}

} // verus!
