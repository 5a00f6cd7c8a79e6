//! Search for the first salt whose derived address begins with a hexadecimal prefix.

use vstd::prelude::*;
use crate::address::derive_address;
use crate::address::all_wf;
use crate::address::felt_values;
use crate::address::udc_address;
use crate::address::Uniqueness;
use crate::felt::hex_digits;
use crate::felt::Felt;
use crate::text::left_pad;
use crate::text::starts_with;

verus! {

/// The address's 64-digit, zero-padded hexadecimal rendering begins with `prefix`.
pub open spec fn matches_prefix(address: nat, prefix: Seq<char>) -> bool {
    prefix.is_prefix_of(left_pad(hex_digits(address), 64))
}

/// The address derived with salt `salt` matches the prefix.
pub open spec fn salt_hits(
    salt: nat,
    class_hash: nat,
    unique: Option<(nat, nat)>,
    ctor_args: Seq<nat>,
    prefix: Seq<char>,
) -> bool {
    matches_prefix(udc_address(salt, class_hash, unique, ctor_args), prefix)
}

/// `salt` is the first salt from `start` on, in increasing order, that hits.
pub open spec fn is_first_hit(
    salt: nat,
    start: nat,
    class_hash: nat,
    unique: Option<(nat, nat)>,
    ctor_args: Seq<nat>,
    prefix: Seq<char>,
) -> bool {
    &&& start <= salt
    &&& salt_hits(salt, class_hash, unique, ctor_args, prefix)
    &&& forall|k: nat|
        start <= k < salt ==> !#[trigger] salt_hits(k, class_hash, unique, ctor_args, prefix)
}

/// One past the last salt tried: `start + max_tries`, and never beyond the 64-bit salts.
pub open spec fn search_end(start: u64, max_tries: Option<u64>) -> nat {
    let all = (u64::MAX as nat + 1) as nat;
    match max_tries {
        Some(m) => if start as nat + m as nat <= all {
            (start as nat + m as nat) as nat
        } else {
            all
        },
        None => all,
    }
}

/// The search tried every salt it was allowed and none matched.
#[derive(Debug, Clone, Copy, PartialEq, Eq, Structural)]
pub enum SearchError {
    Exhausted,
}

/// Tries the salts `start`, `start + 1`, ... and returns the first with its derived
/// address, whose padded hexadecimal rendering begins with `prefix`. At most
/// `max_tries` salts are tried (`None`: every salt up to the 64-bit limit).
pub fn search_salt(
    class_hash: Felt,
    mode: &Uniqueness,
    ctor_args: &Vec<Felt>,
    prefix: &str,
    start: u64,
    max_tries: Option<u64>,
) -> (r: Result<(Felt, Felt), SearchError>)
    requires
        class_hash.wf(),
        mode.wf(),
        all_wf(ctor_args@),
    ensures
        r matches Ok((salt, address)) ==> {
            &&& salt.value() < search_end(start, max_tries)
            &&& is_first_hit(
                salt.value(),
                start as nat,
                class_hash.value(),
                mode@,
                felt_values(ctor_args@),
                prefix@,
            )
            &&& address.value() == udc_address(
                salt.value(),
                class_hash.value(),
                mode@,
                felt_values(ctor_args@),
            )
            &&& salt.wf() && address.wf()
        },
        r is Err <==> forall|k: nat|
            start <= k < search_end(start, max_tries) ==> !#[trigger] salt_hits(
                k,
                class_hash.value(),
                mode@,
                felt_values(ctor_args@),
                prefix@,
            ),
{
    let all: u128 = u64::MAX as u128 + 1;
    let end: u128 = match max_tries {
        Some(m) => if start as u128 + m as u128 <= all {
            start as u128 + m as u128
        } else {
            all
        },
        None => all,
    };
    let mut next: u128 = start as u128;
    while next < end
        invariant
            start <= next <= end,
            end == search_end(start, max_tries),
            end <= all == u64::MAX as nat + 1,
            class_hash.wf(),
            mode.wf(),
            all_wf(ctor_args@),
            forall|k: nat|
                start <= k < next ==> !#[trigger] salt_hits(
                k,
                class_hash.value(),
                mode@,
                felt_values(ctor_args@),
                prefix@,
            ),
        decreases end - next,
    {
        let salt = Felt::from_u64(next as u64);
        let address = derive_address(salt, class_hash, mode, ctor_args);
        let rendered = address.padded_hex();
        if starts_with(rendered.as_str(), prefix) {
            assert(salt_hits(
                next as nat,
                class_hash.value(),
                mode@,
                felt_values(ctor_args@),
                prefix@,
            ));
            return Ok((salt, address));
        }
        next = next + 1;
    }
    Err(SearchError::Exhausted)
}

/// A search from a given start has a single answer: two salts that are both the first
/// hit from the same start, for the same inputs and prefix, are the same salt, so a
/// repeated search finds the same salt and the same address.
pub proof fn lemma_first_hit_unique(
    a: nat,
    b: nat,
    start: nat,
    class_hash: nat,
    unique: Option<(nat, nat)>,
    ctor_args: Seq<nat>,
    prefix: Seq<char>,
)
    requires
        is_first_hit(a, start, class_hash, unique, ctor_args, prefix),
        is_first_hit(b, start, class_hash, unique, ctor_args, prefix),
    ensures
        a == b,
        udc_address(a, class_hash, unique, ctor_args) == udc_address(
            b,
            class_hash,
            unique,
            ctor_args,
        ),
{
    if a < b {
        assert(!salt_hits(a, class_hash, unique, ctor_args, prefix));
    } else if b < a {
        assert(!salt_hits(b, class_hash, unique, ctor_args, prefix));
    }
}

} // verus!
