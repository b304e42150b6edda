//! Display names for variants.
//!
//! The generator supports one naming policy, chosen explicitly: a variant's
//! display name is its identifier with a space inserted before every
//! uppercase character that is not the first character, turning a camel-case
//! identifier into space-separated words (`RunningFast` into `Running Fast`).

use vstd::prelude::*;

verus! {

/// Whether a character is uppercase, as `char::is_uppercase` decides it.
/// The result is a function of the character alone.
pub uninterp spec fn is_uppercase_char(c: char) -> bool;

/// Relies on char::is_uppercase: true exactly when the character has the
/// Unicode uppercase property; the result depends on the character alone.
pub assume_specification[ char::is_uppercase ](c: char) -> (r: bool)
    ensures
        r == is_uppercase_char(c),
;

/// The naming policy applied to one identifier: a space before every
/// uppercase character that is not the first character.
pub open spec fn spaced_name(s: Seq<char>) -> Seq<char>
    decreases s.len(),
{
    if s.len() == 0 {
        Seq::empty()
    } else if s.len() > 1 && is_uppercase_char(s.last()) {
        spaced_name(s.drop_last()) + seq![' ', s.last()]
    } else {
        spaced_name(s.drop_last()) + seq![s.last()]
    }
}

/// Relies on String::push: appends the given character to the end.
#[verifier::external_body]
pub(crate) fn push_char(s: &mut String, c: char)
    ensures
        final(s)@ == old(s)@.push(c),
{
    s.push(c)
}

/// Turns a variant identifier into its display name under the naming policy.
pub fn display_name(name: &str) -> (r: String)
    ensures
        r@ == spaced_name(name@),
{
    let n = name.unicode_len();
    let mut r = String::new();
    let mut i: usize = 0;
    while i < n
        invariant
            i <= n,
            n == name@.len(),
            r@ == spaced_name(name@.subrange(0, i as int)),
        decreases n - i,
    {
        let c = name.get_char(i);
        if i > 0 && c.is_uppercase() {
            push_char(&mut r, ' ');
        }
        push_char(&mut r, c);
        proof {
            let pre = name@.subrange(0, i as int);
            let cur = name@.subrange(0, i as int + 1);
            assert(cur.drop_last() =~= pre);
            assert(cur.last() == c);
            if i > 0 && is_uppercase_char(c) {
                assert(r@ =~= spaced_name(pre) + seq![' ', c]);
            } else {
                assert(r@ =~= spaced_name(pre) + seq![c]);
            }
        }
        i = i + 1;
    }
    proof {
        assert(name@.subrange(0, n as int) =~= name@);
    }
    r
}

} // verus!
