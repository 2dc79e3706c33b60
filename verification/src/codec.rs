//! Packaging the operands of a computation for the cluster.
//!
//! The cluster takes an ordered list of arguments that must match the
//! parameters of the circuit: the requester's public key and nonce in the
//! clear, then the encrypted salary, tax rate and deductions. An encrypted
//! scalar is a ciphertext of exactly 32 bytes.

use vstd::prelude::*;
use crate::errors::ErrorCode;

verus! {

/// The width of an encrypted scalar, in bytes.
pub const CIPHERTEXT_BYTES: usize = 32;

/// One encrypted scalar.
pub type Ciphertext = [u8; 32];

/// One argument of a computation.
#[derive(Clone, Copy, Debug, PartialEq, Eq)]
pub enum Argument {
    /// The public key to which the result is encrypted.
    ArcisPubkey([u8; 32]),
    /// A 128-bit number in the clear.
    PlaintextU128(u128),
    /// An encrypted 64-bit number.
    EncryptedU64(Ciphertext),
    /// An encrypted 16-bit number.
    EncryptedU16(Ciphertext),
}

/// The operands of one net-pay computation, each of the right width.
#[derive(Clone, Copy, Debug, PartialEq, Eq)]
pub struct EncryptedInputs {
    /// The requester's public key.
    pub requester_pubkey: [u8; 32],
    /// The nonce under which the operands were encrypted.
    pub nonce: u128,
    /// The encrypted gross salary.
    pub encrypted_salary: Ciphertext,
    /// The encrypted tax rate.
    pub encrypted_tax_rate: Ciphertext,
    /// The encrypted deductions.
    pub encrypted_deductions: Ciphertext,
}

impl EncryptedInputs {
    /// The arguments in the order of the circuit's parameters.
    pub open spec fn argument_list(self) -> Seq<Argument> {
        seq![
            Argument::ArcisPubkey(self.requester_pubkey),
            Argument::PlaintextU128(self.nonce),
            Argument::EncryptedU64(self.encrypted_salary),
            Argument::EncryptedU16(self.encrypted_tax_rate),
            Argument::EncryptedU64(self.encrypted_deductions),
        ]
    }

    /// Whether these operands hold exactly the given bytes.
    pub open spec fn holds(
        self,
        pub_key: [u8; 32],
        nonce: u128,
        encrypted_salary: Seq<u8>,
        encrypted_tax_rate: Seq<u8>,
        encrypted_deductions: Seq<u8>,
    ) -> bool {
        &&& self.requester_pubkey == pub_key
        &&& self.nonce == nonce
        &&& self.encrypted_salary@ == encrypted_salary
        &&& self.encrypted_tax_rate@ == encrypted_tax_rate
        &&& self.encrypted_deductions@ == encrypted_deductions
    }

    /// Takes the operands as they arrive. Fails with
    /// `InvalidArgumentEncoding` unless each encrypted scalar has exactly 32
    /// bytes.
    pub fn decode(
        pub_key: [u8; 32],
        nonce: u128,
        encrypted_salary: &[u8],
        encrypted_tax_rate: &[u8],
        encrypted_deductions: &[u8],
    ) -> (result: Result<EncryptedInputs, ErrorCode>)
        ensures
            result is Ok <==> widths_valid(
                encrypted_salary@,
                encrypted_tax_rate@,
                encrypted_deductions@,
            ),
            result matches Ok(inputs) ==> inputs.holds(
                pub_key,
                nonce,
                encrypted_salary@,
                encrypted_tax_rate@,
                encrypted_deductions@,
            ),
            result matches Err(error) ==> error == ErrorCode::InvalidArgumentEncoding,
    {
        let salary = match to_ciphertext(encrypted_salary) {
            Some(word) => word,
            None => {
                return Err(ErrorCode::InvalidArgumentEncoding);
            },
        };
        let tax_rate = match to_ciphertext(encrypted_tax_rate) {
            Some(word) => word,
            None => {
                return Err(ErrorCode::InvalidArgumentEncoding);
            },
        };
        let deductions = match to_ciphertext(encrypted_deductions) {
            Some(word) => word,
            None => {
                return Err(ErrorCode::InvalidArgumentEncoding);
            },
        };
        Ok(
            EncryptedInputs {
                requester_pubkey: pub_key,
                nonce,
                encrypted_salary: salary,
                encrypted_tax_rate: tax_rate,
                encrypted_deductions: deductions,
            },
        )
    }

    /// Lists the arguments in the order of the circuit's parameters.
    pub fn arguments(&self) -> (args: Vec<Argument>)
        ensures
            args@ == self.argument_list(),
    {
        let mut args: Vec<Argument> = Vec::new();
        args.push(Argument::ArcisPubkey(self.requester_pubkey));
        args.push(Argument::PlaintextU128(self.nonce));
        args.push(Argument::EncryptedU64(self.encrypted_salary));
        args.push(Argument::EncryptedU16(self.encrypted_tax_rate));
        args.push(Argument::EncryptedU64(self.encrypted_deductions));
        args
    }
}

/// Whether each of the three encrypted scalars has the fixed width.
pub open spec fn widths_valid(
    encrypted_salary: Seq<u8>,
    encrypted_tax_rate: Seq<u8>,
    encrypted_deductions: Seq<u8>,
) -> bool {
    &&& encrypted_salary.len() == CIPHERTEXT_BYTES
    &&& encrypted_tax_rate.len() == CIPHERTEXT_BYTES
    &&& encrypted_deductions.len() == CIPHERTEXT_BYTES
}

/// Reads one encrypted scalar: the bytes themselves if there are exactly 32
/// of them, and nothing otherwise.
pub fn to_ciphertext(bytes: &[u8]) -> (word: Option<Ciphertext>)
    ensures
        word is Some <==> bytes@.len() == CIPHERTEXT_BYTES,
        word matches Some(w) ==> w@ == bytes@,
{
    if bytes.len() != CIPHERTEXT_BYTES {
        return None;
    }
    let mut word: Ciphertext = [0u8;32];
    let mut i: usize = 0;
    while i < CIPHERTEXT_BYTES
        invariant
            i <= CIPHERTEXT_BYTES,
            bytes@.len() == CIPHERTEXT_BYTES,
            forall|j: int| 0 <= j < i ==> word@[j] == bytes@[j],
        decreases CIPHERTEXT_BYTES - i,
    {
        word[i] = bytes[i];
        i = i + 1;
    }
    assert(word@ =~= bytes@);
    Some(word)
}

/// Packages the operands of a net-pay computation: the public key, the
/// nonce, then the encrypted salary, tax rate and deductions. Fails with
/// `InvalidArgumentEncoding` unless each encrypted scalar has exactly 32
/// bytes.
pub fn encode_arguments(
    pub_key: [u8; 32],
    nonce: u128,
    encrypted_salary: &[u8],
    encrypted_tax_rate: &[u8],
    encrypted_deductions: &[u8],
) -> (result: Result<Vec<Argument>, ErrorCode>)
    ensures
        result is Ok <==> widths_valid(
            encrypted_salary@,
            encrypted_tax_rate@,
            encrypted_deductions@,
        ),
        result matches Ok(args) ==> {
            &&& args@.len() == 5
            &&& args@[0] == Argument::ArcisPubkey(pub_key)
            &&& args@[1] == Argument::PlaintextU128(nonce)
            &&& args@[2] matches Argument::EncryptedU64(word) && word@ == encrypted_salary@
            &&& args@[3] matches Argument::EncryptedU16(word) && word@ == encrypted_tax_rate@
            &&& args@[4] matches Argument::EncryptedU64(word) && word@ == encrypted_deductions@
        },
        result matches Err(error) ==> error == ErrorCode::InvalidArgumentEncoding,
{
    match EncryptedInputs::decode(
        pub_key,
        nonce,
        encrypted_salary,
        encrypted_tax_rate,
        encrypted_deductions,
    ) {
        Ok(inputs) => Ok(inputs.arguments()),
        Err(error) => Err(error),
    }
}

} // verus!
