//! Space names and their canonical form.

use vstd::prelude::*;

verus! {

/// The reserved sigil that opens every canonical space name.
pub const SIGIL: char = '@';

/// The ASCII lower-case form of a character; characters outside `A..=Z` are unchanged.
pub open spec fn lower_ascii(c: char) -> char {
    if 'A' <= c && c <= 'Z' {
        ((c as u8) + 32u8) as char
    } else {
        c
    }
}

/// A name with every character brought to ASCII lower case.
pub open spec fn lowered(name: Seq<char>) -> Seq<char> {
    name.map_values(|c: char| lower_ascii(c))
}

/// Whether a name opens with the sigil.
pub open spec fn has_sigil(name: Seq<char>) -> bool {
    name.len() > 0 && name[0] == SIGIL
}

/// The canonical form of a space name: lower-cased, then prefixed with the sigil
/// unless the lower-cased name already opens with it.
pub open spec fn normalized(name: Seq<char>) -> Seq<char> {
    if has_sigil(lowered(name)) {
        lowered(name)
    } else {
        seq![SIGIL] + lowered(name)
    }
}

/// Whether a name is already in canonical form.
pub open spec fn is_normalized(name: Seq<char>) -> bool {
    normalized(name) == name
}

/// Executable counterpart of [`lower_ascii`].
pub fn to_lower_ascii(c: char) -> (r: char)
    ensures
        r == lower_ascii(c),
{
    if 'A' <= c && c <= 'Z' {
        ((c as u8) + 32u8) as char
    } else {
        c
    }
}

/// Brings a space name to its canonical form.
pub fn normalize_space(space: &str) -> (r: String)
    ensures
        r@ == normalized(space@),
        has_sigil(r@),
        is_normalized(r@),
{
    let mut out = String::new();
    let mut first = true;
    for c in it: space.chars()
        invariant
            it.seq() == space@,
            first <==> it.index() == 0,
            out@ == (if has_sigil(lowered(space@.subrange(0, it.index() as int))) || first {
                Seq::<char>::empty()
            } else {
                seq![SIGIL]
            }) + lowered(space@.subrange(0, it.index() as int)),
    {
        let low = to_lower_ascii(c);
        if first && low != SIGIL {
            out.push(SIGIL);
        }
        out.push(low);
        first = false;
    }
    if first {
        out.push(SIGIL);
    }
    proof {
        assert(space@.subrange(0, space@.len() as int) == space@);
        law_normalize_idempotent(space@);
    }
    out
}

/// Normalizing is idempotent: a canonical name is left as it is.
pub proof fn law_normalize_idempotent(name: Seq<char>)
    ensures
        normalized(normalized(name)) == normalized(name),
{
    let once = normalized(name);
    assert forall|i: int| 0 <= i < once.len() implies lower_ascii(#[trigger] once[i]) == once[i] by {
        if has_sigil(lowered(name)) {
            assert(once[i] == lower_ascii(name[i]));
        } else if i > 0 {
            assert(once[i] == lower_ascii(name[i - 1]));
        }
    }
    assert(lowered(once) == once);
}

/// A canonical name always opens with the sigil.
pub proof fn law_normalize_sigil(name: Seq<char>)
    ensures
        has_sigil(normalized(name)),
{
}

} // verus!
