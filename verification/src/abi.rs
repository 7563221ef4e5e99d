//! Contract-call descriptors.
//!
//! Plain-data descriptions of the on-chain functions this project calls.
//! Encoding a call and decoding its return belong to the ABI collaborator;
//! converting these descriptors into its types is glue outside this crate.

use vstd::prelude::*;

verus! {

/// An ABI parameter type. Sized variants carry their size: the number of
/// bytes of a fixed-bytes parameter, the bit width of an integer one.
#[derive(Clone, Copy, PartialEq, Eq, Structural, Debug)]
pub enum AbiParam {
    Address,
    Bool,
    Bytes,
    FixedBytes(usize),
    Uint(usize),
    Int(usize),
}

/// The state mutability of an on-chain function.
#[derive(Clone, Copy, PartialEq, Eq, Structural, Debug)]
pub enum StateMutability {
    Pure,
    View,
    NonPayable,
    Payable,
}

/// An on-chain function descriptor.
pub struct AbiFunction {
    pub name: String,
    pub inputs: Vec<AbiParam>,
    pub outputs: Vec<AbiParam>,
    pub constant: Option<bool>,
    pub state_mutability: StateMutability,
}

/// `function difficulty() external view returns (bytes32);`
pub struct DifficultyFunction;

impl DifficultyFunction {
    /// The call descriptor: named `difficulty`, no inputs, no declared
    /// outputs, a view call.
    pub fn function() -> (f: AbiFunction)
        ensures
            f.name@ == "difficulty"@,
            f.inputs@.len() == 0,
            f.outputs@.len() == 0,
            f.constant is None,
            f.state_mutability == StateMutability::View,
    {
        AbiFunction {
            name: "difficulty".to_owned(),
            inputs: Vec::new(),
            outputs: Vec::new(),
            constant: None,
            state_mutability: StateMutability::View,
        }
    }

    /// The return signature: one 32-byte word.
    pub fn signature() -> (s: Vec<AbiParam>)
        ensures
            s@ == seq![AbiParam::FixedBytes(32usize)],
    {
        let mut s: Vec<AbiParam> = Vec::new();
        s.push(AbiParam::FixedBytes(32));
        proof {
            assert(s@ =~= seq![AbiParam::FixedBytes(32usize)]);
        }
        s
    }
}

} // verus!
