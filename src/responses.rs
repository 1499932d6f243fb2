use vstd::prelude::*;

verus! {

/// A successful reply: `success` is true and `data` holds the result.
pub struct SuccessResponse<T> {
    pub success: bool,
    pub data: T,
}

/// A refused request: `success` is false and `error` says why.
pub struct ErrorResponse {
    pub success: bool,
    pub error: String,
}

/// A fresh keypair: the public key's text and the base58 of the 64 keypair bytes.
pub struct KeypairResponse {
    pub pubkey: String,
    pub secret: String,
}

/// One account of an instruction, its address as text.
pub struct AccountMetaResponse {
    pub pubkey: String,
    pub is_signer: bool,
    pub is_writable: bool,
}

/// An instruction as text: program address, accounts, and base58 data.
pub struct InstructionResponse {
    pub program_id: String,
    pub accounts: Vec<AccountMetaResponse>,
    pub instruction_data: String,
}

/// A signature of a message, with the signer's public key.
pub struct SignatureResponse {
    pub signature: String,
    pub pubkey: String,
    pub message: String,
}

/// The outcome of checking a signature.
pub struct VerificationResponse {
    pub valid: bool,
    pub message: String,
    pub pubkey: String,
}

/// A request to sign `message` with the keypair whose base58 text is `secret`.
pub struct SignMessageRequest {
    pub message: String,
    pub secret: String,
}

/// A request to check a base58 `signature` of `message` under `pubkey`.
pub struct VerifyMessageRequest {
    pub message: String,
    pub signature: String,
    pub pubkey: String,
}

/// A request to build a transfer of `lamports` from `from` to `to`.
pub struct SendSolRequest {
    pub from: String,
    pub to: String,
    pub lamports: u64,
}

/// A system transfer as text: its accounts are addresses only.
pub struct SendSolInstructionResponse {
    pub program_id: String,
    pub accounts: Vec<String>,
    pub instruction_data: String,
}

/// A request to build the initialisation of token mint `mint`.
pub struct CreateTokenRequest {
    pub mint_authority: String,
    pub mint: String,
    pub decimals: u8,
}

/// A request to build the minting of `amount` tokens of `mint` into `destination`.
pub struct MintTokenRequest {
    pub mint: String,
    pub destination: String,
    pub authority: String,
    pub amount: u64,
}

/// A request to build a transfer of `amount` tokens of `mint` from the
/// associated account of `owner` to that of `destination`.
pub struct SendTokenRequest {
    pub destination: String,
    pub mint: String,
    pub owner: String,
    pub amount: u64,
}

/// One account of a token transfer, its address as text.
pub struct SendTokenAccountResponse {
    pub pubkey: String,
    pub is_signer: bool,
}

/// A token transfer as text.
pub struct SendTokenInstructionResponse {
    pub program_id: String,
    pub accounts: Vec<SendTokenAccountResponse>,
    pub instruction_data: String,
}

} // verus!
