//! Deterministic contract addresses of deployments through the Universal Deployer Contract.

use vstd::prelude::*;
use crate::felt::Felt;

verus! {

/// The address that the network assigns to a deployment through the deployer contract
/// at `udc` (when `unique` holds `(deployer, udc)`), from the salt, the class hash and
/// the constructor arguments, all as field values.
pub uninterp spec fn udc_address(
    salt: nat,
    class_hash: nat,
    unique: Option<(nat, nat)>,
    ctor_args: Seq<nat>,
) -> nat;

/// Whether the address is bound to the deploying account and deployer contract.
#[derive(Debug, Clone, Copy, PartialEq, Eq)]
pub enum Uniqueness {
    /// The deployer's address and the deployer contract's address are folded into the salt.
    Unique { deployer_address: Felt, udc_address: Felt },
    /// Anyone deploying the same class with the same salt and arguments gets the same address.
    NotUnique,
}

impl Uniqueness {
    /// The deployer and deployer-contract values, in unique mode.
    pub open spec fn view(self) -> Option<(nat, nat)> {
        match self {
            Uniqueness::Unique { deployer_address, udc_address } => Some(
                (deployer_address.value(), udc_address.value()),
            ),
            Uniqueness::NotUnique => None,
        }
    }

    pub open spec fn wf(self) -> bool {
        match self {
            Uniqueness::Unique { deployer_address, udc_address } => deployer_address.wf()
                && udc_address.wf(),
            Uniqueness::NotUnique => true,
        }
    }
}

/// Field values of a sequence of elements.
pub open spec fn felt_values(s: Seq<Felt>) -> Seq<nat> {
    s.map_values(|f: Felt| f.value())
}

/// Every element is reduced.
pub open spec fn all_wf(s: Seq<Felt>) -> bool {
    forall|i: int| 0 <= i < s.len() ==> (#[trigger] s[i]).wf()
}

/// The address that a deployment with these inputs lands at.
pub open spec fn derived(salt: Felt, class_hash: Felt, mode: Uniqueness, ctor_args: Seq<Felt>) -> nat {
    udc_address(salt.value(), class_hash.value(), mode@, felt_values(ctor_args))
}

/// Derivation is deterministic: inputs with the same field values give the same address.
pub proof fn lemma_derive_deterministic(
    salt1: Felt,
    salt2: Felt,
    class_hash1: Felt,
    class_hash2: Felt,
    mode1: Uniqueness,
    mode2: Uniqueness,
    ctor_args1: Seq<Felt>,
    ctor_args2: Seq<Felt>,
)
    requires
        salt1.value() == salt2.value(),
        class_hash1.value() == class_hash2.value(),
        mode1@ == mode2@,
        felt_values(ctor_args1) == felt_values(ctor_args2),
    ensures
        derived(salt1, class_hash1, mode1, ctor_args1) == derived(salt2, class_hash2, mode2, ctor_args2),
{
}

/// Computes the address at which the deployer contract places a contract of class
/// `class_hash`, deployed with `salt` and `ctor_args` in the given mode.
pub fn derive_address(salt: Felt, class_hash: Felt, mode: &Uniqueness, ctor_args: &Vec<Felt>) -> (r: Felt)
    requires
        salt.wf(),
        class_hash.wf(),
        mode.wf(),
        all_wf(ctor_args@),
    ensures
        r.value() == derived(salt, class_hash, *mode, ctor_args@),
        r.wf(),
{
    udc_deployed_address(salt, class_hash, mode, ctor_args)
}

/// Relies on `starknet::core::utils::get_udc_deployed_address`: a function of its
/// arguments alone, returning a field element.
#[verifier::external_body]
fn udc_deployed_address(salt: Felt, class_hash: Felt, mode: &Uniqueness, ctor_args: &Vec<Felt>) -> (r: Felt)
    requires
        salt.wf(),
        class_hash.wf(),
        mode.wf(),
        all_wf(ctor_args@),
    ensures
        r.value() == udc_address(salt.value(), class_hash.value(), mode@, felt_values(ctor_args@)),
        r.wf(),
{
    let e = |f: &Felt| starknet::core::types::FieldElement::from_bytes_be(&f.bytes).unwrap();
    let uniqueness = match mode {
        Uniqueness::Unique { deployer_address, udc_address } => starknet::core::utils::UdcUniqueness::Unique(
            starknet::core::utils::UdcUniqueSettings {
                deployer_address: e(deployer_address),
                udc_contract_address: e(udc_address),
            },
        ),
        Uniqueness::NotUnique => starknet::core::utils::UdcUniqueness::NotUnique,
    };
    let args: Vec<_> = ctor_args.iter().map(e).collect();
    let address = starknet::core::utils::get_udc_deployed_address(e(&salt), e(&class_hash), &uniqueness, &args);
    Felt { bytes: address.to_bytes_be() }
}

} // verus!
