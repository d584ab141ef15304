//! The signing identity: the private key, decoded from hex, and the account
//! address that belongs to it. Decoding and derivation are alloy's.

use crate::client::BootstrapError;
use alloy::hex::{FromHex, FromHexError};
use alloy::primitives::FixedBytes;
use alloy::signers::local::PrivateKeySigner;
use vstd::prelude::*;

verus! {

/// alloy's error for text that is no hex of the length asked for. Nothing
/// is read from it.
#[verifier::external_type_specification]
#[verifier::external_body]
pub struct ExFromHexError(alloy::hex::FromHexError);

/// The error that alloy's signer hands on from the curve's crate. Nothing
/// is read from it.
#[verifier::external_type_specification]
#[verifier::external_body]
pub struct ExSignatureError(alloy::signers::k256::ecdsa::Error);

/// The length of a private key, in bytes.
pub const KEY_LEN: usize = 32;

/// The value of a hex digit, of either case.
pub open spec fn hex_value(c: char) -> Option<int> {
    if '0' <= c <= '9' {
        Some(c as int - '0' as int)
    } else if 'a' <= c <= 'f' {
        Some(c as int - 'a' as int + 10)
    } else if 'A' <= c <= 'F' {
        Some(c as int - 'A' as int + 10)
    } else {
        None
    }
}

/// The text without a leading `0x` or `0X`, if it has one.
pub open spec fn without_prefix(text: Seq<char>) -> Seq<char> {
    if text.len() >= 2 && text[0] == '0' && (text[1] == 'x' || text[1] == 'X') {
        text.skip(2)
    } else {
        text
    }
}

/// Whether the text spells a private key: after the optional prefix, two hex
/// digits for each of the key's bytes, and nothing else.
pub open spec fn is_key_hex(text: Seq<char>) -> bool {
    let digits = without_prefix(text);
    &&& digits.len() == 2 * KEY_LEN
    &&& forall|i: int| 0 <= i < digits.len() ==> hex_value(#[trigger] digits[i]) is Some
}

/// The bytes that the text spells, the high digit of each byte first.
pub open spec fn key_bytes(text: Seq<char>) -> Seq<u8> {
    let digits = without_prefix(text);
    Seq::new(
        KEY_LEN as nat,
        |i: int| (16 * hex_value(digits[2 * i])->0 + hex_value(digits[2 * i + 1])->0) as u8,
    )
}

/// The number that the bytes spell, the most significant byte first.
pub open spec fn big_endian(bytes: Seq<u8>) -> nat
    decreases bytes.len(),
{
    if bytes.len() == 0 {
        0
    } else {
        256 * big_endian(bytes.drop_last()) + bytes.last() as nat
    }
}

/// The order of the group of secp256k1.
pub open spec fn curve_order() -> nat {
    0xFFFFFFFFFFFFFFFFFFFFFFFFFFFFFFFEBAAEDCE6AF48A03BBFD25E8CD0364141nat
}

/// Whether the bytes are a private key of the curve: a number that is not
/// zero and lies below the group's order.
pub open spec fn is_signing_scalar(key: Seq<u8>) -> bool {
    0 < big_endian(key) < curve_order()
}

/// The account address of a private key, as alloy derives it: the last 20
/// bytes of the Keccak-256 hash of the key's public point.
pub uninterp spec fn address_of_key(key: Seq<u8>) -> Seq<u8>;

/// `FixedBytes::<32>::from_hex` (const-hex's `decode_to_array`): accepts an
/// optional `0x` or `0X` followed by exactly 64 hex digits of either case,
/// and returns the 32 bytes they spell. Everything else is an error.
#[verifier::external_body]
pub(crate) fn decode_key(text: &str) -> (res: Result<[u8; 32], FromHexError>)
    ensures
        res is Ok <==> is_key_hex(text@),
        res matches Ok(bytes) ==> bytes@ == key_bytes(text@),
{
    FixedBytes::<32>::from_hex(text).map(|bytes| bytes.0)
}

/// `PrivateKeySigner::from_bytes`, with the signer handed out as the address
/// that the call computed for it (the signer's `address` field). The call
/// succeeds exactly on the scalars between 1 and the group's order less 1.
#[verifier::external_body]
pub(crate) fn derive_address(key: &[u8; 32]) -> (res: Result<
    [u8; 20],
    alloy::signers::k256::ecdsa::Error,
>)
    ensures
        res is Ok <==> is_signing_scalar(key@),
        res matches Ok(address) ==> address@ == address_of_key(key@),
{
    PrivateKeySigner::from_bytes(&FixedBytes(*key)).map(|signer| signer.address().0.0)
}

/// A private key together with its address. There is no identity without
/// both: a key that does not decode, or is no scalar of the curve, yields
/// none.
pub struct SigningIdentity {
    key: [u8; 32],
    address: [u8; 20],
}

pub struct SigningIdentityView {
    pub key: Seq<u8>,
    pub address: Seq<u8>,
}

impl View for SigningIdentity {
    type V = SigningIdentityView;

    closed spec fn view(&self) -> SigningIdentityView {
        SigningIdentityView { key: self.key@, address: self.address@ }
    }
}

/// The identity that a private key in hex yields.
pub open spec fn identity_spec(private_key: Seq<char>) -> Result<
    SigningIdentityView,
    BootstrapError,
> {
    if !is_key_hex(private_key) {
        Err(BootstrapError::InvalidKeyEncoding)
    } else if !is_signing_scalar(key_bytes(private_key)) {
        Err(BootstrapError::SignerConstructionError)
    } else {
        Ok(
            SigningIdentityView {
                key: key_bytes(private_key),
                address: address_of_key(key_bytes(private_key)),
            },
        )
    }
}

pub open spec fn identity_result_view(res: Result<SigningIdentity, BootstrapError>) -> Result<
    SigningIdentityView,
    BootstrapError,
> {
    match res {
        Ok(identity) => Ok(identity@),
        Err(e) => Err(e),
    }
}

/// Decodes a private key from hex.
pub fn decode_private_key(private_key: &str) -> (res: Result<[u8; 32], BootstrapError>)
    ensures
        match res {
            Ok(key) => is_key_hex(private_key@) && key@ == key_bytes(private_key@),
            Err(e) => e == BootstrapError::InvalidKeyEncoding && !is_key_hex(private_key@),
        },
{
    match decode_key(private_key) {
        Ok(key) => Ok(key),
        Err(_) => Err(BootstrapError::InvalidKeyEncoding),
    }
}

impl SigningIdentity {
    #[verifier::type_invariant]
    spec fn well_formed(self) -> bool {
        &&& is_signing_scalar(self.key@)
        &&& self.address@ == address_of_key(self.key@)
    }

    /// Derives the identity of a key.
    pub fn from_key(key: [u8; 32]) -> (res: Result<SigningIdentity, BootstrapError>)
        ensures
            match res {
                Ok(identity) => is_signing_scalar(key@) && identity@ == (SigningIdentityView {
                    key: key@,
                    address: address_of_key(key@),
                }),
                Err(e) => e == BootstrapError::SignerConstructionError && !is_signing_scalar(
                    key@,
                ),
            },
    {
        match derive_address(&key) {
            Ok(address) => Ok(SigningIdentity { key, address }),
            Err(_) => Err(BootstrapError::SignerConstructionError),
        }
    }

    /// Decodes the key and derives its identity. Fails closed: on any doubt
    /// about the key there is no identity.
    pub fn from_private_key(private_key: &str) -> (res: Result<SigningIdentity, BootstrapError>)
        ensures
            identity_result_view(res) == identity_spec(private_key@),
    {
        match decode_private_key(private_key) {
            Ok(key) => SigningIdentity::from_key(key),
            Err(e) => Err(e),
        }
    }

    /// The key's bytes.
    pub fn key(&self) -> (key: [u8; 32])
        ensures
            key@ == self@.key,
            is_signing_scalar(key@),
    {
        proof {
            use_type_invariant(self);
        }
        self.key
    }

    /// The account that signs.
    pub fn address(&self) -> (address: [u8; 20])
        ensures
            address@ == self@.address,
            address@ == address_of_key(self@.key),
    {
        proof {
            use_type_invariant(self);
        }
        self.address
    }
}

/// Derivation is a function of the key: two identities derived from one
/// private key are the same, address and all.
pub proof fn law_derivation_is_deterministic(
    private_key: Seq<char>,
    first: Result<SigningIdentity, BootstrapError>,
    second: Result<SigningIdentity, BootstrapError>,
)
    requires
        identity_result_view(first) == identity_spec(private_key),
        identity_result_view(second) == identity_spec(private_key),
    ensures
        first is Ok <==> second is Ok,
        first matches Ok(a) ==> second matches Ok(b) && a@.address == b@.address && a@ == b@,
{
}

/// Binds one identity to a client. It is made for the client and lives in
/// it.
pub struct SigningWallet {
    identity: SigningIdentity,
}

impl View for SigningWallet {
    type V = SigningIdentityView;

    closed spec fn view(&self) -> SigningIdentityView {
        self.identity@
    }
}

impl SigningWallet {
    pub fn new(identity: SigningIdentity) -> (wallet: SigningWallet)
        ensures
            wallet@ == identity@,
    {
        SigningWallet { identity }
    }

    /// The identity that signs for this wallet.
    pub fn identity(&self) -> (identity: &SigningIdentity)
        ensures
            identity@ == self@,
    {
        &self.identity
    }
}

} // verus!
