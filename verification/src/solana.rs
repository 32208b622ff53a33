//! The calls into the Solana SDK, bincode and base64 that the library makes, each with the
//! contract that the rest of the library relies on.
use crate::ledger::{
    CompiledInstruction, Digest, Message, MessageHeader, Pubkey, Signature, Transaction,
    TransactionView,
};
use vstd::prelude::*;

verus! {

/// The base58 text of a 32-byte hash.
pub uninterp spec fn hash_text(hash: Seq<u8>) -> Seq<char>;

/// The hash that a base58 text denotes, if it denotes one of 32 bytes.
pub uninterp spec fn hash_of_text(text: Seq<char>) -> Option<Seq<u8>>;

/// The public key that a base58 text denotes, if it denotes one of 32 bytes.
pub uninterp spec fn pubkey_of_text(text: Seq<char>) -> Option<Seq<u8>>;

/// The base58 text of a 64-byte signature.
pub uninterp spec fn signature_text(signature: Seq<u8>) -> Seq<char>;

/// The signature that a base58 text denotes, if it denotes one of 64 bytes.
pub uninterp spec fn signature_of_text(text: Seq<char>) -> Option<Seq<u8>>;

/// The Keccak-256 digest of a byte string.
pub uninterp spec fn keccak256(bytes: Seq<u8>) -> Seq<u8>;

/// The bytes that a standard base64 text with canonical padding encodes, or else the decoder's
/// description of what is wrong with it.
pub uninterp spec fn base64_decoded(text: Seq<char>) -> Result<Seq<u8>, Seq<char>>;

/// The legacy transaction at the start of a byte string in wire form, or else the decoder's
/// description of what is wrong with it.
pub uninterp spec fn transaction_of_bytes(bytes: Seq<u8>) -> Result<TransactionView, Seq<char>>;

/// `solana_sdk::hash::Hash`'s `Display`: the base58 text of the hash, which its `FromStr` reads
/// back as the same hash.
#[verifier::external_body]
pub(crate) fn hash_to_text(hash: &Digest) -> (text: String)
    ensures
        text@ == hash_text(hash@),
        hash_of_text(text@) == Some(hash@),
{
    solana_sdk::hash::Hash::new_from_array(hash.0).to_string()
}

/// `solana_sdk::hash::Hash`'s `FromStr`: base58 decoding, which fails unless the text is the
/// canonical encoding of exactly 32 bytes. Which of its two errors comes is not kept.
#[verifier::external_body]
pub(crate) fn hash_from_text(text: &str) -> (hash: Option<Digest>)
    ensures
        hash.deep_view() == hash_of_text(text@),
{
    text.parse::<solana_sdk::hash::Hash>().ok().map(|hash| Digest(hash.to_bytes()))
}

/// `solana_sdk::pubkey::Pubkey`'s `FromStr`: base58 decoding, which fails unless the text is the
/// canonical encoding of exactly 32 bytes. Which of its errors comes is not kept.
#[verifier::external_body]
pub(crate) fn pubkey_from_text(text: &str) -> (key: Option<Pubkey>)
    ensures
        key.deep_view() == pubkey_of_text(text@),
{
    text.parse::<solana_sdk::pubkey::Pubkey>().ok().map(|key| Pubkey(key.to_bytes()))
}

/// `solana_sdk::signature::Signature`'s `Display`: the base58 text of the signature, which its
/// `FromStr` reads back as the same signature.
#[verifier::external_body]
pub(crate) fn signature_to_text(signature: &Signature) -> (text: String)
    ensures
        text@ == signature_text(signature@),
        signature_of_text(text@) == Some(signature@),
{
    solana_sdk::signature::Signature::from(signature.0).to_string()
}

/// `solana_sdk::signature::Signature`'s `FromStr`: base58 decoding, which fails unless the text is
/// the canonical encoding of exactly 64 bytes. Which of its two errors comes is not kept.
#[verifier::external_body]
pub(crate) fn signature_from_text(text: &str) -> (signature: Option<Signature>)
    ensures
        signature.deep_view() == signature_of_text(text@),
{
    text.parse::<solana_sdk::signature::Signature>().ok().map(|found| Signature(found.into()))
}

/// `solana_sdk::keccak::hashv` on a single slice: its Keccak-256 digest.
#[verifier::external_body]
pub(crate) fn keccak_hash(bytes: &[u8]) -> (hash: Digest)
    ensures
        hash@ == keccak256(bytes@),
{
    Digest(solana_sdk::keccak::hashv(&[bytes]).to_bytes())
}

/// `base64::Engine::decode` with the engine `STANDARD`; an error comes as its `Display` text.
#[verifier::external_body]
pub(crate) fn base64_decode(text: &str) -> (decoded: Result<Vec<u8>, String>)
    ensures
        match decoded {
            Ok(bytes) => base64_decoded(text@) == Ok::<Seq<u8>, Seq<char>>(bytes@),
            Err(detail) => base64_decoded(text@) == Err::<Seq<u8>, Seq<char>>(detail@),
        },
{
    base64::Engine::decode(&base64::engine::general_purpose::STANDARD, text)
        .map_err(|error| error.to_string())
}

/// `bincode::deserialize` at `solana_sdk::transaction::Transaction`; an error comes as its
/// `Display` text.
#[verifier::external_body]
pub(crate) fn transaction_from_bytes(bytes: &[u8]) -> (decoded: Result<Transaction, String>)
    ensures
        match decoded {
            Ok(tx) => transaction_of_bytes(bytes@) == Ok::<TransactionView, Seq<char>>(tx@),
            Err(detail) => transaction_of_bytes(bytes@) == Err::<TransactionView, Seq<char>>(
                detail@,
            ),
        },
{
    let tx: solana_sdk::transaction::Transaction =
        bincode::deserialize(bytes).map_err(|e| e.to_string())?;
    let message = tx.message;
    let head = message.header;
    let header = MessageHeader {
        num_required_signatures: head.num_required_signatures,
        num_readonly_signed_accounts: head.num_readonly_signed_accounts,
        num_readonly_unsigned_accounts: head.num_readonly_unsigned_accounts };
    let account_keys = message.account_keys.iter().map(|k| Pubkey(k.to_bytes())).collect();
    let instructions = message.instructions.into_iter().map(|i| CompiledInstruction {
        program_id_index: i.program_id_index, accounts: i.accounts, data: i.data }).collect();
    let signatures = tx.signatures.into_iter().map(|s| Signature(s.into())).collect();
    Ok(Transaction { signatures, message: Message {
        header, account_keys, instructions,
        recent_blockhash: Digest(message.recent_blockhash.to_bytes()) } })
}

/// The hash under which a processed transaction with that first signature is filed: the Keccak-256
/// digest of the signature's base58 text.
pub open spec fn signature_hash(signature: Seq<u8>) -> Seq<u8> {
    keccak256(vstd::utf8::encode_utf8(signature_text(signature)))
}

/// The hash under which a processed transaction is filed: that of its first signature.
pub open spec fn transaction_hash(tx: TransactionView) -> Seq<u8> {
    signature_hash(tx.signatures[0])
}

/// The hash under which a processed transaction with that first signature is filed.
pub fn hash_signature(signature: &Signature) -> (hash: Digest)
    ensures
        hash@ == signature_hash(signature@),
{
    let text = signature_to_text(signature);
    keccak_hash(text.as_str().as_bytes())
}

/// The hash under which a processed transaction is filed.
pub fn hash_transaction(tx: &Transaction) -> (hash: Digest)
    requires
        tx@.signatures.len() > 0,
    ensures
        hash@ == transaction_hash(tx@),
{
    hash_signature(&tx.signatures[0])
}

} // verus!
