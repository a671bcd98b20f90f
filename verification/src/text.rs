//! Checks on text before it crosses into the terminal's C API, which takes
//! NUL-terminated strings: a string with an interior NUL cannot be passed.

use vstd::prelude::*;

verus! {

/// The text can be handed over as a NUL-terminated C string: no character
/// of it is NUL (in UTF-8 a zero byte occurs exactly where `'\0'` does).
pub open spec fn is_c_compatible(text: Seq<char>) -> bool {
    !text.contains('\0')
}

/// Returns whether `text` holds no NUL character, i.e. whether it can be
/// converted to a C string.
pub fn text_is_c_compatible(text: &str) -> (r: bool)
    ensures
        r == is_c_compatible(text@),
        r == (forall|i: int| 0 <= i < text@.len() ==> text@[i] != '\0'),
{
    broadcast use vstd::string::axiom_spec_iter;
    let mut ok: bool = true;
    for c in it: text.chars()
        invariant
            it.seq() == text@,
            ok <==> (forall|j: int| 0 <= j < it.index() ==> text@[j] != '\0'),
    {
        if c == '\0' {
            ok = false;
        }
    }
    proof {
        if !ok {
            let j = choose|j: int| 0 <= j < text@.len() && text@[j] == '\0';
            assert(text@.contains('\0'));
        }
    }
    ok
}

/// A text can become a C string exactly when none of its characters is NUL:
/// every other character, of any code point, is accepted.
pub proof fn lemma_c_compatible_iff_no_nul(text: Seq<char>)
    ensures
        is_c_compatible(text) == (forall|i: int| 0 <= i < text.len() ==> text[i] != '\0'),
{
    if !is_c_compatible(text) {
        let j = choose|j: int| 0 <= j < text.len() && text[j] == '\0';
        assert(text[j] == '\0');
    }
}

} // verus!
