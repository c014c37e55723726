//! The letter shown on a general's placeholder portrait.
use vstd::prelude::*;
use crate::text::{chars_of, is_whitespace, string_push, trim, trim_chars, trim_end, trim_start};

verus! {

/// The three portrait sizes.
#[derive(Clone, Copy, Debug, PartialEq, Eq, Structural)]
pub enum PortraitStyle {
    Small,
    Medium,
    Large,
}

/// The text on a portrait: the first character of the trimmed name, or `?`
/// when there is no name or it is blank.
pub open spec fn initial_spec(name: Option<Seq<char>>) -> Seq<char> {
    match name {
        Some(s) => if trim(s).len() > 0 {
            seq![trim(s)[0]]
        } else {
            seq!['?']
        },
        None => seq!['?'],
    }
}

/// A text without leading white space that is not empty starts with a
/// character that is not white space.
proof fn lemma_trim_start_head(s: Seq<char>)
    ensures
        trim_start(s).len() > 0 ==> !is_whitespace(trim_start(s)[0]),
    decreases s.len(),
{
    if s.len() > 0 && is_whitespace(s[0]) {
        lemma_trim_start_head(s.drop_first());
    }
}

/// Removing trailing white space keeps a prefix of the text.
proof fn lemma_trim_end_prefix(s: Seq<char>)
    ensures
        trim_end(s).len() <= s.len(),
        trim_end(s) == s.subrange(0, trim_end(s).len() as int),
    decreases s.len(),
{
    if s.len() > 0 && is_whitespace(s.last()) {
        lemma_trim_end_prefix(s.drop_last());
        assert(s.drop_last().subrange(0, trim_end(s).len() as int) =~= s.subrange(
            0,
            trim_end(s).len() as int,
        ));
    } else {
        assert(s.subrange(0, s.len() as int) =~= s);
    }
}

/// A trimmed text that is not empty starts with a character that is not white
/// space.
pub proof fn lemma_trim_head_not_whitespace(s: Seq<char>)
    ensures
        trim(s).len() > 0 ==> !is_whitespace(trim(s)[0]),
{
    lemma_trim_start_head(s);
    lemma_trim_end_prefix(trim_start(s));
    if trim(s).len() > 0 {
        assert(trim(s)[0] == trim_start(s).subrange(0, trim(s).len() as int)[0]);
    }
}

/// The letter drawn on a general's portrait.
pub fn portrait_initial(name: Option<&str>) -> (r: String)
    ensures
        r@ == initial_spec(match name {
            Some(s) => Some(s@),
            None => None,
        }),
        r@.len() == 1,
        !is_whitespace(r@[0]),
{
    let mut out = String::new();
    match name {
        Some(s) => {
            let cs = chars_of(s);
            let t = trim_chars(cs.as_slice());
            proof {
                lemma_trim_head_not_whitespace(s@);
            }
            if t.len() > 0 {
                string_push(&mut out, t[0]);
            } else {
                string_push(&mut out, '?');
            }
        },
        None => {
            string_push(&mut out, '?');
        },
    }
    assert(out@ =~= initial_spec(
        match name {
            Some(s) => Some(s@),
            None => None,
        },
    ));
    out
}

} // verus!
