//! Preparing a deployment: the class hash, the salt (given, or searched for) and the
//! address the contract will land at.

use vstd::prelude::*;
use crate::address::all_wf;
use crate::address::derive_address;
use crate::address::derived;
use crate::address::felt_values;
use crate::address::Uniqueness;
use crate::fee::FeeSetting;
use crate::felt::be_value;
use crate::felt::dec_parses;
use crate::felt::dec_value;
use crate::felt::field_prime;
use crate::felt::hex_parses;
use crate::felt::hex_value;
use crate::felt::trim_hex_prefix;
use crate::felt::Felt;
use crate::felt::FeltParseError;
use crate::search::is_first_hit;
use crate::search::salt_hits;
use crate::search::search_end;
use crate::search::search_salt;
use crate::search::SearchError;
use crate::workflow::DeployPlan;

verus! {

/// What the operator asks for: how to derive the address, which fee policy to use,
/// and which class to deploy with which constructor arguments.
#[derive(Debug, Clone, PartialEq, Eq)]
pub struct Deploy {
    /// Do not derive the address from the deployer's address.
    pub not_unique: bool,
    pub fee: FeeSetting,
    /// A decimal salt to use instead of searching for one.
    pub salt: Option<String>,
    /// Wait for the transaction to confirm.
    pub watch: bool,
    /// The class hash, in hexadecimal.
    pub class_hash: String,
    /// The operator's raw constructor arguments. `plan` does not read them: the caller
    /// decodes each token (one token may stand for several elements, or name an entry of
    /// an address book) and hands the decoded elements to `plan`.
    pub ctor_args: Vec<String>,
    /// The searched salt's address, padded to 64 hexadecimal digits, begins with this.
    pub prefix: String,
    /// How many salts the search tries at most, from zero on.
    pub max_tries: Option<u64>,
}

/// Why a deployment could not be prepared.
#[derive(Debug, Clone, Copy, PartialEq, Eq, Structural)]
pub enum DeployError {
    /// The class hash is not a field element in hexadecimal.
    InvalidClassHash(FeltParseError),
    /// The given salt is not a field element in decimal.
    InvalidSalt(FeltParseError),
    /// No salt in the search's range gives a matching address.
    SearchExhausted,
}

/// The mode a deployment uses: unique unless asked otherwise.
pub open spec fn mode_for(not_unique: bool, account_address: Felt, udc_address: Felt) -> Uniqueness {
    if not_unique {
        Uniqueness::NotUnique
    } else {
        Uniqueness::Unique { deployer_address: account_address, udc_address }
    }
}

/// 256 raised to the power `n`.
pub open spec fn pow256(n: nat) -> nat
    decreases n,
{
    if n == 0 {
        1
    } else {
        256 * pow256((n - 1) as nat)
    }
}

/// A big-endian number is below its first byte plus one, times the weight of that byte.
pub proof fn lemma_be_value_bound(s: Seq<u8>)
    requires
        s.len() >= 1,
    ensures
        be_value(s) < (s[0] as nat + 1) * pow256((s.len() - 1) as nat),
    decreases s.len(),
{
    let t = s.drop_last();
    if s.len() == 1 {
        assert(be_value(t) == 0);
        assert(be_value(s) == be_value(t) * 256 + s.last() as nat);
        assert(pow256(0) == 1);
        assert(s.last() == s[0]);
        assert((s[0] as nat + 1) * pow256(0) == s[0] as nat + 1);
    } else {
        lemma_be_value_bound(t);
        assert(t[0] == s[0]);
        let b = be_value(t);
        let w = (s[0] as nat + 1) * pow256((t.len() - 1) as nat);
        assert(pow256((s.len() - 1) as nat) == 256 * pow256((t.len() - 1) as nat));
        assert(b < w);
        assert(be_value(s) == b * 256 + s.last() as nat);
        assert(b * 256 + (s.last() as nat) < w * 256) by (nonlinear_arith)
            requires
                b < w,
                s.last() < 256,
        ;
        assert(w * 256 == (s[0] as nat + 1) * pow256((s.len() - 1) as nat)) by (nonlinear_arith)
            requires
                w == (s[0] as nat + 1) * pow256((t.len() - 1) as nat),
                pow256((s.len() - 1) as nat) == 256 * pow256((t.len() - 1) as nat),
        ;
    }
}

/// The address of the widely deployed Universal Deployer Contract:
/// 0x041a78e741e5af2fec34b695679bc6891742439f7afb8484ecd7766661ad02bf.
pub fn default_udc_address() -> (r: Felt)
    ensures
        r.bytes@ == seq![
            0x04u8, 0x1a, 0x78, 0xe7, 0x41, 0xe5, 0xaf, 0x2f, 0xec, 0x34, 0xb6, 0x95, 0x67,
            0x9b, 0xc6, 0x89, 0x17, 0x42, 0x43, 0x9f, 0x7a, 0xfb, 0x84, 0x84, 0xec, 0xd7,
            0x76, 0x66, 0x61, 0xad, 0x02, 0xbf,
        ],
        r.wf(),
{
    let bytes: [u8; 32] = [
        0x04, 0x1a, 0x78, 0xe7, 0x41, 0xe5, 0xaf, 0x2f, 0xec, 0x34, 0xb6, 0x95, 0x67, 0x9b,
        0xc6, 0x89, 0x17, 0x42, 0x43, 0x9f, 0x7a, 0xfb, 0x84, 0x84, 0xec, 0xd7, 0x76, 0x66,
        0x61, 0xad, 0x02, 0xbf,
    ];
    let r = Felt { bytes };
    proof {
        assert(r.bytes@ =~= seq![
            0x04u8, 0x1a, 0x78, 0xe7, 0x41, 0xe5, 0xaf, 0x2f, 0xec, 0x34, 0xb6, 0x95, 0x67,
            0x9b, 0xc6, 0x89, 0x17, 0x42, 0x43, 0x9f, 0x7a, 0xfb, 0x84, 0x84, 0xec, 0xd7,
            0x76, 0x66, 0x61, 0xad, 0x02, 0xbf,
        ]);
        lemma_be_value_bound(r.bytes@);
        reveal_with_fuel(pow256, 32);
        assert(pow256(31) == (340282366920938463463374607431768211455 + 1)
            * 1329227995784915872903807060280344576);
        assert(r.bytes@[0] == 4);
        assert(r.value() < 5 * pow256(31));
        assert(5 * pow256(31) < field_prime()) by (nonlinear_arith)
            requires
                pow256(31) == (340282366920938463463374607431768211455 + 1)
                    * 1329227995784915872903807060280344576,
                field_prime() == 10633823966279327296825105735305134080 * (
                340282366920938463463374607431768211455 + 1) + 1,
        ;
    }
    r
}

impl Deploy {
    /// Prepares the deployment: parses the class hash, takes the given salt or searches
    /// from zero for the first salt whose address matches `prefix`, and derives the
    /// address. `ctor_args` are the decoded constructor arguments; in unique mode the
    /// address is bound to `account_address` and the deployer contract at `udc_address`.
    pub fn plan(&self, account_address: Felt, udc_address: Felt, ctor_args: Vec<Felt>) -> (r: Result<
        DeployPlan,
        DeployError,
    >)
        requires
            account_address.wf(),
            udc_address.wf(),
            all_wf(ctor_args@),
            self.fee.wf(),
        ensures
            !hex_parses(self.class_hash@) <==> r matches Err(DeployError::InvalidClassHash(_)),
            (hex_parses(self.class_hash@) && (self.salt matches Some(s) && !dec_parses(s@)))
                <==> r matches Err(DeployError::InvalidSalt(_)),
            r matches Ok(p) ==> {
                &&& p.wf()
                &&& hex_parses(self.class_hash@)
                &&& p.class_hash.value() == hex_value(trim_hex_prefix(self.class_hash@))
                &&& p.mode == mode_for(self.not_unique, account_address, udc_address)
                &&& p.ctor_args@ == ctor_args@
                &&& p.fee == self.fee
                &&& p.watch == self.watch
                &&& p.address.value() == derived(p.salt, p.class_hash, p.mode, p.ctor_args@)
                &&& match self.salt {
                    Some(s) => dec_parses(s@) && p.salt.value() == dec_value(s@),
                    None => p.salt.value() < search_end(0, self.max_tries) && is_first_hit(
                        p.salt.value(),
                        0,
                        p.class_hash.value(),
                        p.mode@,
                        felt_values(p.ctor_args@),
                        self.prefix@,
                    ),
                }
            },
            r matches Err(DeployError::SearchExhausted) <==> ({
                &&& hex_parses(self.class_hash@)
                &&& self.salt is None
                &&& forall|k: nat|
                    k < search_end(0, self.max_tries) ==> !#[trigger] salt_hits(
                        k,
                        hex_value(trim_hex_prefix(self.class_hash@)),
                        mode_for(self.not_unique, account_address, udc_address)@,
                        felt_values(ctor_args@),
                        self.prefix@,
                    )
            }),
            (hex_parses(self.class_hash@) && (self.salt matches Some(s) && dec_parses(s@)))
                ==> r is Ok,
    {
        let class_hash = match Felt::from_hex_be(self.class_hash.as_str()) {
            Ok(f) => f,
            Err(e) => return Err(DeployError::InvalidClassHash(e)),
        };
        let mode = if self.not_unique {
            Uniqueness::NotUnique
        } else {
            Uniqueness::Unique { deployer_address: account_address, udc_address }
        };
        let (salt, address) = match &self.salt {
            Some(text) => {
                let salt = match Felt::from_dec_str(text.as_str()) {
                    Ok(f) => f,
                    Err(e) => return Err(DeployError::InvalidSalt(e)),
                };
                (salt, derive_address(salt, class_hash, &mode, &ctor_args))
            },
            None => match search_salt(
                class_hash,
                &mode,
                &ctor_args,
                self.prefix.as_str(),
                0,
                self.max_tries,
            ) {
                Ok(found) => found,
                Err(SearchError::Exhausted) => return Err(DeployError::SearchExhausted),
            },
        };
        Ok(DeployPlan { class_hash, salt, mode, ctor_args, address, fee: self.fee, watch: self.watch })
    }
}

} // verus!
