use crate::instructions::{
    associated_address, associated_token_address, le_bytes, rent_sysvar_id,
    system_program_id, system_transfer, token_initialize_mint, token_mint_to, token_program,
    token_program_id, token_transfer, AccountRef, InstructionParts,
};
use crate::responses::{
    AccountMetaResponse, CreateTokenRequest, ErrorResponse, InstructionResponse, MintTokenRequest,
    SendSolInstructionResponse, SendSolRequest, SendTokenAccountResponse,
    SendTokenInstructionResponse, SendTokenRequest, SuccessResponse,
};
use crate::responses::{KeypairResponse, SignMessageRequest, SignatureResponse, VerificationResponse, VerifyMessageRequest};
use crate::solana::{
    address_parsed, address_text, address_to_string, base58_decoded, base58_encode, base58_text,
    decode_keypair, decode_pubkey, encode_keypair, keypair_accepts, keypair_text, sign_message, public_of, seed_of,
    ed25519_signature, KeypairBytes,
    signature_valid, verification, verify_signature,
};
use vstd::utf8::encode_utf8;
use vstd::prelude::*;

verus! {

/// The bytes of the address that `s` names (empty where it names none).
pub open spec fn address_of(s: Seq<char>) -> Seq<u8> {
    match address_parsed(s) {
        Some(b) => b,
        None => Seq::empty(),
    }
}

/// `s` names an address.
pub open spec fn is_address(s: Seq<char>) -> bool {
    address_parsed(s) is Some
}

/// `r` shows the account `key` with the given flags.
pub open spec fn entry_shows(r: AccountMetaResponse, key: Seq<u8>, is_signer: bool, is_writable: bool) -> bool {
    r.pubkey@ == address_text(key) && r.is_signer == is_signer && r.is_writable == is_writable
}

/// `r` shows the instruction `i` as text.
pub open spec fn shows_instruction(r: InstructionResponse, i: InstructionParts) -> bool {
    &&& r.program_id@ == address_text(i.program_id@)
    &&& r.accounts@.len() == i.accounts@.len()
    &&& forall|k: int|
        0 <= k < i.accounts@.len() ==> entry_shows(
            #[trigger] r.accounts@[k],
            i.accounts@[k].pubkey@,
            i.accounts@[k].is_signer,
            i.accounts@[k].is_writable,
        )
    &&& r.instruction_data@ == base58_text(i.data@)
}

/// A refusal with the given reason.
pub fn error_response(msg: &str) -> (r: ErrorResponse)
    ensures
        !r.success,
        r.error@ == msg@,
{
    ErrorResponse { success: false, error: msg.to_owned() }
}

impl AccountMetaResponse {
    /// Shows one account of an instruction, its address as text.
    pub fn from(account_meta: &AccountRef) -> (r: AccountMetaResponse)
        ensures
            entry_shows(r, account_meta.pubkey@, account_meta.is_signer, account_meta.is_writable),
    {
        AccountMetaResponse {
            pubkey: address_to_string(account_meta.pubkey),
            is_signer: account_meta.is_signer,
            is_writable: account_meta.is_writable,
        }
    }
}

/// Shows an instruction as text: every address as text, the data as base58.
pub fn instruction_response(i: &InstructionParts) -> (r: InstructionResponse)
    ensures
        shows_instruction(r, *i),
{
    let mut accounts: Vec<AccountMetaResponse> = Vec::new();
    let mut k: usize = 0;
    while k < i.accounts.len()
        invariant
            k <= i.accounts@.len(),
            accounts@.len() == k,
            forall|j: int|
                0 <= j < k ==> entry_shows(
                    #[trigger] accounts@[j],
                    i.accounts@[j].pubkey@,
                    i.accounts@[j].is_signer,
                    i.accounts@[j].is_writable,
                ),
        decreases i.accounts@.len() - k,
    {
        accounts.push(AccountMetaResponse::from(&i.accounts[k]));
        k = k + 1;
    }
    InstructionResponse {
        program_id: address_to_string(i.program_id),
        accounts,
        instruction_data: base58_encode(i.data.as_slice()),
    }
}

/// Why a token-creation request is refused, checked in order: the authority,
/// then the mint.
pub open spec fn create_token_refusal(req: CreateTokenRequest) -> Option<Seq<char>> {
    if !is_address(req.mint_authority@) {
        Some("Invalid mint authority pubkey"@)
    } else if !is_address(req.mint@) {
        Some("Invalid mint pubkey"@)
    } else {
        None
    }
}

/// Builds the token program's `InitializeMint` for `req.mint`, with
/// `req.mint_authority` as mint authority, no freeze authority and
/// `req.decimals` decimals.
pub fn process_create_token(req: &CreateTokenRequest) -> (r: Result<SuccessResponse<InstructionResponse>, ErrorResponse>)
    ensures
        r is Err <==> create_token_refusal(*req) is Some,
        r matches Err(e) ==> !e.success && create_token_refusal(*req) == Some(e.error@),
        r matches Ok(s) ==> {
            let d = s.data;
            &&& s.success
            &&& d.program_id@ == address_text(token_program_id())
            &&& d.accounts@.len() == 2
            &&& entry_shows(d.accounts@[0], address_of(req.mint@), false, true)
            &&& entry_shows(d.accounts@[1], rent_sysvar_id(), false, false)
            &&& d.instruction_data@ == base58_text(
                seq![0u8, req.decimals] + address_of(req.mint_authority@) + seq![0u8],
            )
        },
{
    let mint_authority = match decode_pubkey(req.mint_authority.as_str()) {
        Ok(b) => b,
        Err(_) => return Err(error_response("Invalid mint authority pubkey")),
    };
    let mint = match decode_pubkey(req.mint.as_str()) {
        Ok(b) => b,
        Err(_) => return Err(error_response("Invalid mint pubkey")),
    };
    let program = token_program();
    match token_initialize_mint(program, mint, mint_authority, req.decimals) {
        Some(i) => {
            let data = instruction_response(&i);
            assert(entry_shows(data.accounts@[0], i.accounts@[0].pubkey@, i.accounts@[0].is_signer, i.accounts@[0].is_writable));
            assert(entry_shows(data.accounts@[1], i.accounts@[1].pubkey@, i.accounts@[1].is_signer, i.accounts@[1].is_writable));
            Ok(SuccessResponse { success: true, data })
        },
        // The program passed is the token program, so this arm is never taken.
        None => Err(error_response("Invalid token program")),
    }
}

/// Why a mint request is refused, checked in order: mint, destination, authority.
pub open spec fn mint_token_refusal(req: MintTokenRequest) -> Option<Seq<char>> {
    if !is_address(req.mint@) {
        Some("Invalid mint pubkey"@)
    } else if !is_address(req.destination@) {
        Some("Invalid destination pubkey"@)
    } else if !is_address(req.authority@) {
        Some("Invalid authority pubkey"@)
    } else {
        None
    }
}

/// Builds the token program's `MintTo` of `req.amount` tokens of `req.mint`
/// into `req.destination`, signed by `req.authority`.
pub fn process_mint_token(req: &MintTokenRequest) -> (r: Result<SuccessResponse<InstructionResponse>, ErrorResponse>)
    ensures
        r is Err <==> mint_token_refusal(*req) is Some,
        r matches Err(e) ==> !e.success && mint_token_refusal(*req) == Some(e.error@),
        r matches Ok(s) ==> {
            let d = s.data;
            &&& s.success
            &&& d.program_id@ == address_text(token_program_id())
            &&& d.accounts@.len() == 3
            &&& entry_shows(d.accounts@[0], address_of(req.mint@), false, true)
            &&& entry_shows(d.accounts@[1], address_of(req.destination@), false, true)
            &&& entry_shows(d.accounts@[2], address_of(req.authority@), true, false)
            &&& d.instruction_data@ == base58_text(seq![7u8] + le_bytes(req.amount))
        },
{
    let mint = match decode_pubkey(req.mint.as_str()) {
        Ok(b) => b,
        Err(_) => return Err(error_response("Invalid mint pubkey")),
    };
    let destination = match decode_pubkey(req.destination.as_str()) {
        Ok(b) => b,
        Err(_) => return Err(error_response("Invalid destination pubkey")),
    };
    let authority = match decode_pubkey(req.authority.as_str()) {
        Ok(b) => b,
        Err(_) => return Err(error_response("Invalid authority pubkey")),
    };
    let program = token_program();
    match token_mint_to(program, mint, destination, authority, req.amount) {
        Some(i) => {
            let data = instruction_response(&i);
            assert(entry_shows(data.accounts@[0], i.accounts@[0].pubkey@, i.accounts@[0].is_signer, i.accounts@[0].is_writable));
            assert(entry_shows(data.accounts@[1], i.accounts@[1].pubkey@, i.accounts@[1].is_signer, i.accounts@[1].is_writable));
            assert(entry_shows(data.accounts@[2], i.accounts@[2].pubkey@, i.accounts@[2].is_signer, i.accounts@[2].is_writable));
            Ok(SuccessResponse { success: true, data })
        },
        // The program passed is the token program, so this arm is never taken.
        None => Err(error_response("Invalid token program")),
    }
}

/// Why a token transfer request is refused, checked in order: the amount,
/// then destination, mint and owner, then the two associated token accounts.
pub open spec fn send_token_refusal(req: SendTokenRequest) -> Option<Seq<char>> {
    if req.amount == 0 {
        Some("Amount must be greater than 0"@)
    } else if !is_address(req.destination@) {
        Some("Invalid destination pubkey"@)
    } else if !is_address(req.mint@) {
        Some("Invalid mint pubkey"@)
    } else if !is_address(req.owner@) {
        Some("Invalid owner pubkey"@)
    } else if associated_address(address_of(req.owner@), address_of(req.mint@)) is None
        || associated_address(address_of(req.destination@), address_of(req.mint@)) is None {
        Some("Unable to derive associated token account"@)
    } else {
        None
    }
}

/// `r` shows the account `key` with the given signer flag.
pub open spec fn token_entry_shows(r: SendTokenAccountResponse, key: Seq<u8>, is_signer: bool) -> bool {
    r.pubkey@ == address_text(key) && r.is_signer == is_signer
}

/// Builds the token program's `Transfer` of `req.amount` tokens of `req.mint`
/// from the associated token account of `req.owner` to that of
/// `req.destination`, signed by the owner.
pub fn process_send_token(req: &SendTokenRequest) -> (r: Result<SuccessResponse<SendTokenInstructionResponse>, ErrorResponse>)
    ensures
        r is Err <==> send_token_refusal(*req) is Some,
        r matches Err(e) ==> !e.success && send_token_refusal(*req) == Some(e.error@),
        r matches Ok(s) ==> {
            let d = s.data;
            let mint = address_of(req.mint@);
            &&& s.success
            &&& d.program_id@ == address_text(token_program_id())
            &&& d.accounts@.len() == 3
            &&& token_entry_shows(d.accounts@[0], associated_address(address_of(req.owner@), mint)->0, false)
            &&& token_entry_shows(d.accounts@[1], associated_address(address_of(req.destination@), mint)->0, false)
            &&& token_entry_shows(d.accounts@[2], address_of(req.owner@), true)
            &&& d.instruction_data@ == base58_text(seq![3u8] + le_bytes(req.amount))
        },
{
    if req.amount == 0 {
        return Err(error_response("Amount must be greater than 0"));
    }
    let destination = match decode_pubkey(req.destination.as_str()) {
        Ok(b) => b,
        Err(_) => return Err(error_response("Invalid destination pubkey")),
    };
    let mint = match decode_pubkey(req.mint.as_str()) {
        Ok(b) => b,
        Err(_) => return Err(error_response("Invalid mint pubkey")),
    };
    let owner = match decode_pubkey(req.owner.as_str()) {
        Ok(b) => b,
        Err(_) => return Err(error_response("Invalid owner pubkey")),
    };
    let source_account = match associated_token_address(owner, mint) {
        Some(a) => a,
        None => return Err(error_response("Unable to derive associated token account")),
    };
    let destination_account = match associated_token_address(destination, mint) {
        Some(a) => a,
        None => return Err(error_response("Unable to derive associated token account")),
    };
    let program = token_program();
    match token_transfer(program, source_account, destination_account, owner, req.amount) {
        Some(i) => {
            let mut accounts: Vec<SendTokenAccountResponse> = Vec::new();
            let mut k: usize = 0;
            while k < i.accounts.len()
                invariant
                    k <= i.accounts@.len(),
                    accounts@.len() == k,
                    forall|j: int|
                        0 <= j < k ==> token_entry_shows(
                            #[trigger] accounts@[j],
                            i.accounts@[j].pubkey@,
                            i.accounts@[j].is_signer,
                        ),
                decreases i.accounts@.len() - k,
            {
                let meta = &i.accounts[k];
                accounts.push(SendTokenAccountResponse {
                    pubkey: address_to_string(meta.pubkey),
                    is_signer: meta.is_signer,
                });
                k = k + 1;
            }
            assert(token_entry_shows(accounts@[0], i.accounts@[0].pubkey@, i.accounts@[0].is_signer));
            assert(token_entry_shows(accounts@[1], i.accounts@[1].pubkey@, i.accounts@[1].is_signer));
            assert(token_entry_shows(accounts@[2], i.accounts@[2].pubkey@, i.accounts@[2].is_signer));
            let data = SendTokenInstructionResponse {
                program_id: address_to_string(i.program_id),
                accounts,
                instruction_data: base58_encode(i.data.as_slice()),
            };
            Ok(SuccessResponse { success: true, data })
        },
        // The program passed is the token program, so this arm is never taken.
        None => Err(error_response("Invalid token program")),
    }
}

/// Why a transfer of lamports is refused, checked in order: a zero amount,
/// then sender and receiver. All three give the same reason.
pub open spec fn send_sol_refusal(req: SendSolRequest) -> Option<Seq<char>> {
    if req.lamports == 0 || !is_address(req.from@) || !is_address(req.to@) {
        Some("Invalid sender public key"@)
    } else {
        None
    }
}

/// Builds the system program's transfer of `req.lamports` from `req.from` to
/// `req.to`; the accounts are shown as their addresses only.
pub fn process_send_sol(req: &SendSolRequest) -> (r: Result<SuccessResponse<SendSolInstructionResponse>, ErrorResponse>)
    ensures
        r is Err <==> send_sol_refusal(*req) is Some,
        r matches Err(e) ==> !e.success && send_sol_refusal(*req) == Some(e.error@),
        r matches Ok(s) ==> {
            let d = s.data;
            &&& s.success
            &&& d.program_id@ == address_text(system_program_id())
            &&& d.accounts@.len() == 2
            &&& d.accounts@[0]@ == address_text(address_of(req.from@))
            &&& d.accounts@[1]@ == address_text(address_of(req.to@))
            &&& d.instruction_data@ == base58_text(seq![2u8, 0, 0, 0] + le_bytes(req.lamports))
        },
{
    if req.lamports == 0 {
        return Err(error_response("Invalid sender public key"));
    }
    let from = match decode_pubkey(req.from.as_str()) {
        Ok(b) => b,
        Err(_) => return Err(error_response("Invalid sender public key")),
    };
    let to = match decode_pubkey(req.to.as_str()) {
        Ok(b) => b,
        Err(_) => return Err(error_response("Invalid sender public key")),
    };
    let i = system_transfer(from, to, req.lamports);
    let mut accounts: Vec<String> = Vec::new();
    let mut k: usize = 0;
    while k < i.accounts.len()
        invariant
            k <= i.accounts@.len(),
            accounts@.len() == k,
            forall|j: int| 0 <= j < k ==> (#[trigger] accounts@[j])@ == address_text(i.accounts@[j].pubkey@),
        decreases i.accounts@.len() - k,
    {
        accounts.push(address_to_string(i.accounts[k].pubkey));
        k = k + 1;
    }
    assert(accounts@[0]@ == address_text(i.accounts@[0].pubkey@));
    assert(accounts@[1]@ == address_text(i.accounts@[1].pubkey@));
    let data = SendSolInstructionResponse {
        program_id: address_to_string(i.program_id),
        accounts,
        instruction_data: base58_encode(i.data.as_slice()),
    };
    Ok(SuccessResponse { success: true, data })
}

/// Why a signing request is refused: an empty field, then a secret that is
/// not the base58 text of a keypair.
pub open spec fn sign_message_refusal(req: SignMessageRequest) -> Option<Seq<char>> {
    if req.message@.len() == 0 || req.secret@.len() == 0 {
        Some("Missing required fields"@)
    } else if !keypair_text(req.secret@) {
        Some("Invalid secret key"@)
    } else {
        None
    }
}

/// Signs the UTF-8 bytes of `req.message` with the keypair that `req.secret`
/// spells, and gives the base58 signature with the signer's public key.
pub fn process_sign_message(req: &SignMessageRequest) -> (r: Result<SuccessResponse<SignatureResponse>, ErrorResponse>)
    ensures
        r is Err <==> sign_message_refusal(*req) is Some,
        r matches Err(e) ==> !e.success && sign_message_refusal(*req) == Some(e.error@),
        r matches Ok(s) ==> {
            let kp = base58_decoded(req.secret@)->0;
            let msg = encode_utf8(req.message@);
            &&& s.success
            &&& s.data.message@ == req.message@
            &&& s.data.signature@ == base58_text(ed25519_signature(seed_of(kp), msg))
            &&& s.data.pubkey@ == address_text(public_of(kp))
            &&& s.data.signature@.len() > 0
            &&& s.data.pubkey@.len() > 0
            &&& address_parsed(s.data.pubkey@) == Some(public_of(kp))
        },
{
    if req.message.as_str().is_empty() || req.secret.as_str().is_empty() {
        return Err(error_response("Missing required fields"));
    }
    let keypair = match decode_keypair(req.secret.as_str()) {
        Ok(k) => k,
        Err(_) => return Err(error_response("Invalid secret key")),
    };
    let signature = sign_message(req.message.as_str().as_bytes(), &keypair);
    let pk = keypair.pubkey();
    let data = SignatureResponse {
        signature,
        pubkey: address_to_string(pk),
        message: req.message.clone(),
    };
    Ok(SuccessResponse { success: true, data })
}

/// Why a verification request is refused: an empty field, then a public key
/// that names no address, then a signature that is not the base58 text of
/// 64 bytes.
pub open spec fn verify_message_refusal(req: VerifyMessageRequest) -> Option<Seq<char>> {
    if req.message@.len() == 0 || req.signature@.len() == 0 || req.pubkey@.len() == 0 {
        Some("Missing required fields"@)
    } else if !is_address(req.pubkey@) {
        Some("Invalid public key"@)
    } else if verification(encode_utf8(req.message@), req.signature@, address_of(req.pubkey@)) is Err {
        Some("Invalid signature format"@)
    } else {
        None
    }
}

/// Checks the base58 signature `req.signature` of the UTF-8 bytes of
/// `req.message` under `req.pubkey`.
pub fn process_verify_message(req: &VerifyMessageRequest) -> (r: Result<SuccessResponse<VerificationResponse>, ErrorResponse>)
    ensures
        r is Err <==> verify_message_refusal(*req) is Some,
        r matches Err(e) ==> !e.success && verify_message_refusal(*req) == Some(e.error@),
        r matches Ok(s) ==> {
            &&& s.success
            &&& s.data.valid == signature_valid(
                base58_decoded(req.signature@)->0,
                address_of(req.pubkey@),
                encode_utf8(req.message@),
            )
            &&& s.data.message@ == req.message@
            &&& s.data.pubkey@ == req.pubkey@
        },
{
    if req.message.as_str().is_empty() || req.signature.as_str().is_empty() || req.pubkey.as_str().is_empty() {
        return Err(error_response("Missing required fields"));
    }
    let pubkey = match decode_pubkey(req.pubkey.as_str()) {
        Ok(b) => b,
        Err(_) => return Err(error_response("Invalid public key")),
    };
    match verify_signature(req.message.as_str().as_bytes(), req.signature.as_str(), &pubkey) {
        Ok(valid) => {
            let data = VerificationResponse {
                valid,
                message: req.message.clone(),
                pubkey: req.pubkey.clone(),
            };
            Ok(SuccessResponse { success: true, data })
        },
        Err(_) => Err(error_response("Invalid signature format")),
    }
}

/// Draws a fresh keypair and shows it.
pub fn generate_keypair() -> (r: SuccessResponse<KeypairResponse>)
    ensures
        r.success,
        exists|kp: Seq<u8>|
            keypair_accepts(kp) && r.data.pubkey@ == address_text(public_of(kp)) && r.data.secret@
                == base58_text(kp) && base58_decoded(r.data.secret@) == Some(kp),
{
    let keypair = KeypairBytes::generate();
    keypair_response(&keypair)
}

/// Shows a keypair: its public key as text and its 64 bytes as base58.
pub fn keypair_response(keypair: &KeypairBytes) -> (r: SuccessResponse<KeypairResponse>)
    ensures
        r.success,
        r.data.pubkey@ == address_text(public_of(keypair@)),
        r.data.secret@ == base58_text(keypair@),
        address_parsed(r.data.pubkey@) == Some(public_of(keypair@)),
        keypair_text(r.data.secret@) && base58_decoded(r.data.secret@) == Some(keypair@),
{
    let pk = keypair.pubkey();
    let data = KeypairResponse { pubkey: address_to_string(pk), secret: encode_keypair(keypair) };
    SuccessResponse { success: true, data }
}

} // verus!
