//! Text helpers for fixed-width hexadecimal renderings.

use vstd::prelude::*;
use vstd::string::StringSliceAdditionalSpecFns;

verus! {

/// `n` zero characters.
pub open spec fn zeros(n: nat) -> Seq<char> {
    Seq::new(n, |_i: int| '0')
}

/// `s` preceded by zeros up to `n` characters; unchanged when already that long.
pub open spec fn left_pad(s: Seq<char>, n: nat) -> Seq<char> {
    if s.len() >= n {
        s
    } else {
        zeros((n - s.len()) as nat) + s
    }
}

/// Pads `input_string` on the left with '0' until it is `n` bytes long; an input of
/// at least `n` bytes comes back unchanged.
pub fn left_pad_with_zeros(input_string: &str, n: usize) -> (r: String)
    ensures
        r@ == (if input_string.spec_bytes().len() >= n {
            input_string@
        } else {
            zeros((n - input_string.spec_bytes().len()) as nat) + input_string@
        }),
{
    let len = input_string.as_bytes().len();
    if len >= n {
        String::from_str(input_string)
    } else {
        let zeros_to_pad = n - len;
        let mut padded_string = String::new();
        let mut i: usize = 0;
        while i < zeros_to_pad
            invariant
                i <= zeros_to_pad,
                padded_string@ =~= zeros(i as nat),
            decreases zeros_to_pad - i,
        {
            proof {
                reveal_strlit("0");
            }
            padded_string.append("0");
            i = i + 1;
        }
        padded_string.append(input_string);
        padded_string
    }
}

/// Whether `s` begins with `prefix`.
pub fn starts_with(s: &str, prefix: &str) -> (r: bool)
    ensures
        r == prefix@.is_prefix_of(s@),
{
    let n = prefix.unicode_len();
    let m = s.unicode_len();
    if n > m {
        return false;
    }
    let mut i: usize = 0;
    while i < n
        invariant
            n == prefix@.len(),
            n <= m == s@.len(),
            i <= n,
            forall|j: int| 0 <= j < i ==> prefix@[j] == s@[j],
        decreases n - i,
    {
        if prefix.get_char(i) != s.get_char(i) {
            return false;
        }
        i = i + 1;
    }
    assert(prefix@ =~= s@.subrange(0, n as int));
    true
}

} // verus!
