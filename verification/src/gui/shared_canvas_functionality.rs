//! What the canvases share: which names are written beside the bodies.

use vstd::prelude::*;
use vstd::string::StrSliceExecFns;

verus! {

/// Whether a character is a numeral of any script: a digit, a letter that
/// stands for a number, or another numeric sign.
pub uninterp spec fn is_numeric(c: char) -> bool;

/// Calls `char::is_numeric`, by which the standard library tells whether a
/// character belongs to one of the numeric classes of Unicode. The answer is
/// a matter of the character alone and is given the name `is_numeric`.
#[verifier::external_body]
fn char_is_numeric(c: char) -> (numeric: bool)
    ensures
        numeric == is_numeric(c),
{
    c.is_numeric()
}

/// Whether `name` begins with the word by which stars of the Gaia catalogue
/// are called.
pub open spec fn is_catalogue_name(name: Seq<char>) -> bool {
    name.len() >= 4 && name[0] == 'G' && name[1] == 'a' && name[2] == 'i' && name[3] == 'a'
}

/// Whether `name` is made of numerals alone.
pub open spec fn is_number(name: Seq<char>) -> bool {
    forall|i: int| 0 <= i < name.len() ==> is_numeric(#[trigger] name[i])
}

/// Whether a name is written beside its body: one that says something. An
/// empty name, the name of a star of the Gaia catalogue and a bare number
/// are not written.
pub open spec fn is_name_drawn(name: Seq<char>) -> bool {
    !(name.len() == 0 || is_catalogue_name(name) || is_number(name))
}

/// Whether `name` is written beside its body.
pub fn name_is_drawn(name: &str) -> (drawn: bool)
    ensures
        drawn == is_name_drawn(name@),
{
    let length = name.unicode_len();
    if length == 0 {
        return false;
    }
    if length >= 4 && name.get_char(0) == 'G' && name.get_char(1) == 'a' && name.get_char(2)
        == 'i' && name.get_char(3) == 'a' {
        return false;
    }
    let mut i: usize = 0;
    while i < length
        invariant
            i <= length,
            length == name@.len(),
            length > 0,
            !is_catalogue_name(name@),
            forall|j: int| 0 <= j < i ==> is_numeric(#[trigger] name@[j]),
        decreases length - i,
    {
        if !char_is_numeric(name.get_char(i)) {
            assert(!is_numeric(name@[i as int]));
            return true;
        }
        i += 1;
    }
    false
}

} // verus!
