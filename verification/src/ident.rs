//! The identifier scheme: 10 characters drawn from the 52-letter
//! alphabet `a-z`, `A-Z`, generated at upload time and never reassigned.
use vstd::prelude::*;

verus! {

/// A character the identifier alphabet draws from: an ASCII letter.
pub open spec fn id_char(c: char) -> bool {
    ('a' <= c && c <= 'z') || ('A' <= c && c <= 'Z')
}

/// A well-formed image identifier: exactly 10 ASCII letters.
pub open spec fn valid_id(s: Seq<char>) -> bool {
    &&& s.len() == 10
    &&& forall|i: int| 0 <= i < s.len() ==> id_char(#[trigger] s[i])
}

/// Relies on nanoid::format, drawing bytes from nanoid::rngs::default: the
/// result has exactly `size` characters, each taken from `alphabet`.
/// nanoid::format panics on an alphabet of more than 255 symbols, loops
/// looking for usable bytes on an empty one or when `size` is zero, and
/// counts length in bytes, so only ASCII alphabets are admitted here.
#[verifier::external_body]
fn random_string(alphabet: &[char], size: usize) -> (r: String)
    requires
        1 <= alphabet@.len() <= 255,
        size >= 1,
        forall|i: int| 0 <= i < alphabet@.len() ==> (#[trigger] alphabet@[i]) < '\u{80}',
    ensures
        r@.len() == size,
        forall|i: int| 0 <= i < r@.len() ==> alphabet@.contains(#[trigger] r@[i]),
{
    nanoid::format(nanoid::rngs::default, alphabet, size)
}

/// The 52-letter alphabet, lower case first, as the generator hands it out.
fn letters() -> (v: Vec<char>)
    ensures
        v@.len() == 52,
        forall|i: int| 0 <= i < v@.len() ==> id_char(#[trigger] v@[i]),
{
    let mut v: Vec<char> = Vec::new();
    let mut b: u8 = 97;
    while b <= 122
        invariant
            97 <= b <= 123,
            v@.len() == b - 97,
            forall|i: int| 0 <= i < v@.len() ==> id_char(#[trigger] v@[i]),
        decreases 123 - b,
    {
        v.push(b as char);
        b = b + 1;
    }
    let mut b: u8 = 65;
    while b <= 90
        invariant
            65 <= b <= 91,
            v@.len() == 26 + (b - 65),
            forall|i: int| 0 <= i < v@.len() ==> id_char(#[trigger] v@[i]),
        decreases 91 - b,
    {
        v.push(b as char);
        b = b + 1;
    }
    v
}

/// A fresh image identifier: 10 characters, each an ASCII letter, drawn
/// from entropy alone — no persisted state is consulted or updated.
pub fn get_id() -> (r: String)
    ensures
        valid_id(r@),
{
    let alphabet = letters();
    let id = random_string(alphabet.as_slice(), 10);
    proof {
        assert forall|i: int| 0 <= i < id@.len() implies id_char(#[trigger] id@[i]) by {
            let j = choose|j: int| 0 <= j < alphabet@.len() && alphabet@[j] == id@[i];
            assert(id_char(alphabet@[j]));
        }
    }
    id
}

} // verus!
