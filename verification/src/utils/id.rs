//! Random ids: letters and digits, 32 characters unless another size is asked for.

use vstd::prelude::*;
use crate::text::push_char;

verus! {

/// Whether a character may appear in an id: an ASCII letter or digit.
pub open spec fn is_id_char(c: char) -> bool {
    (97 <= c as int && c as int <= 122) || (65 <= c as int && c as int <= 90) || (48 <= c as int && c as int <= 57)
}

/// A uniformly random number below `n` (`rand::random_range(0..n)`, which panics on an empty
/// range, hence `n > 0`). The contract claims only the range: the number is random.
#[verifier::external_body]
fn random_below(n: u32) -> (r: u32)
    requires
        n > 0,
    ensures
        r < n,
{
    rand::random_range(0..n)
}

/// The `k`-th character of the id alphabet `a-z A-Z 0-9`.
pub fn id_char(k: u32) -> (c: char)
    requires
        k < 62,
    ensures
        is_id_char(c),
        k < 26 ==> c as int == 97 + k,
        26 <= k < 52 ==> c as int == 65 + (k - 26),
        52 <= k ==> c as int == 48 + (k - 52),
{
    if k < 26 {
        ((97 + k) as u8) as char
    } else if k < 52 {
        ((65 + (k - 26)) as u8) as char
    } else {
        ((48 + (k - 52)) as u8) as char
    }
}

/// A random id of `size` characters (32 by default), each drawn from `a-z A-Z 0-9`.
pub fn generate_id(size: Option<usize>) -> (r: String)
    ensures
        r@.len() == (match size {
            Some(n) => n,
            None => 32,
        }),
        forall|i: int| 0 <= i < r@.len() ==> is_id_char(#[trigger] r@[i]),
{
    let n: usize = match size {
        Some(n) => n,
        None => 32,
    };
    let mut r = String::new();
    let mut i: usize = 0;
    while i < n
        invariant
            i <= n,
            r@.len() == i,
            forall|j: int| 0 <= j < r@.len() ==> is_id_char(#[trigger] r@[j]),
        decreases n - i,
    {
        let k = random_below(62);
        push_char(&mut r, id_char(k));
        i += 1;
    }
    r
}

} // verus!
