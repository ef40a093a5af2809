//! Random identifiers: twelve characters drawn from lower-case letters and
//! digits.

use vstd::prelude::*;

verus! {

/// The characters an identifier draws from.
pub open spec fn id_charset() -> Seq<char> {
    "abcdefghijklmnopqrstuvwxyz0123456789"@
}

/// Relies on `rand::random_range`: a sample from `0..bound` lies below
/// `bound`. The call panics only on an empty range, which `bound > 0` rules
/// out. Nothing more is assumed of which value comes back.
#[verifier::external_body]
fn random_below(bound: usize) -> (r: usize)
    requires
        bound > 0,
    ensures
        r < bound,
{
    rand::random_range(0..bound)
}

/// Draws a fresh twelve-character identifier. Which characters come out is
/// up to the generator; that there are twelve and that each is a lower-case
/// letter or a digit is not.
pub fn generate_random_id() -> (r: String)
    ensures
        r@.len() == 12,
        forall|k: int| 0 <= k < r@.len() ==> id_charset().contains(#[trigger] r@[k]),
{
    let charset = "abcdefghijklmnopqrstuvwxyz0123456789";
    proof {
        reveal_strlit("abcdefghijklmnopqrstuvwxyz0123456789");
    }
    let charset_len = charset.unicode_len();
    let mut id = String::new();
    let mut i: usize = 0;
    while i < 12
        invariant
            i <= 12,
            id@.len() == i,
            charset@ == id_charset(),
            charset_len == charset@.len(),
            charset_len == 36,
            forall|k: int| 0 <= k < id@.len() ==> id_charset().contains(#[trigger] id@[k]),
        decreases 12 - i,
    {
        let idx = random_below(charset_len);
        let c = charset.substring_char(idx, idx + 1);
        id.append(c);
        proof {
            assert(c@ =~= seq![charset@[idx as int]]);
            assert(id_charset()[idx as int] == charset@[idx as int]);
            assert(id_charset().contains(charset@[idx as int]));
        }
        i = i + 1;
    }
    id
}

} // verus!
