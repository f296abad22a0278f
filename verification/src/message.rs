//! Turning instructions into the bytes of a message, and signing them.

use vstd::prelude::*;
use solana_sdk::message::v0;
use solana_sdk::signer::Signer;
use crate::error::PackError;
use crate::instruction::{views, Instruction, InstructionView};
use crate::keys::{Blockhash, Pubkey, SecretKey, Signature};

verus! {

/// The most bytes that the message of one transaction may take.
pub const TRANSACTION_MESSAGE_SIZE_LIMIT: usize = 1232;

/// The longest list that the wire format can hold.
pub const MAX_ENCODED_LEN: usize = 0xffff;

/// The error with which compiling a message fails.
#[verifier::external_type_specification]
#[verifier::external_body]
pub struct ExCompileError(solana_sdk::message::CompileError);

/// The bytes of the versioned message, without address tables, that `payer`
/// pays for, that runs `list` and refers to `blockhash`; `None` where the
/// list cannot be compiled.
pub uninterp spec fn compiled_message(
    payer: Seq<u8>,
    list: Seq<InstructionView>,
    blockhash: Seq<u8>,
) -> Option<Seq<u8>>;

/// The public key of the pair that belongs to `secret`.
pub uninterp spec fn public_key(secret: Seq<u8>) -> Seq<u8>;

/// The signature of the pair that belongs to `secret` over `message`.
pub uninterp spec fn signature(secret: Seq<u8>, message: Seq<u8>) -> Seq<u8>;

/// Whether the wire format has room for the lengths of `list`: of the list
/// itself, and of the accounts and the data of each instruction.
pub open spec fn encodable(list: Seq<InstructionView>) -> bool {
    &&& list.len() <= MAX_ENCODED_LEN
    &&& forall|i: int|
        0 <= i < list.len() ==> (#[trigger] list[i]).accounts.len() <= MAX_ENCODED_LEN
            && list[i].data.len() <= MAX_ENCODED_LEN
}

/// Calls `solana_sdk::message::v0::Message::try_compile` with no address
/// tables, and on the message `serialize`. Nothing is proved of either: the
/// contract names the bytes, which the payer, the instructions and the block
/// reference alone determine, and says that an error stands for a list that
/// cannot be compiled. `serialize` does not return where a length exceeds
/// 65535, so such lists are left out.
#[verifier::external_body]
fn compile_message(payer: &Pubkey, list: &Vec<Instruction>, blockhash: &Blockhash) -> (bytes:
    Result<Vec<u8>, solana_sdk::message::CompileError>)
    requires
        encodable(views(list@)),
    ensures
        match bytes {
            Ok(b) => compiled_message(payer@, views(list@), blockhash@) == Some(b@),
            Err(_) => compiled_message(payer@, views(list@), blockhash@) is None,
        },
{
    let list: Vec<solana_sdk::instruction::Instruction> = list.iter().map(
        |ix| solana_sdk::instruction::Instruction {
            program_id: ix.program_id.bytes.into(),
            accounts: ix.accounts.iter().map(
                |meta| solana_sdk::instruction::AccountMeta {
                    pubkey: meta.pubkey.bytes.into(),
                    is_signer: meta.is_signer,
                    is_writable: meta.is_writable,
                },
            ).collect(),
            data: ix.data.clone(),
        },
    ).collect();
    let (payer, blockhash) = (payer.bytes.into(), blockhash.bytes.into());
    v0::Message::try_compile(&payer, &list, &[], blockhash).map(|message| message.serialize())
}

/// Makes the key pair of `secret` with `solana_sdk::signature::Keypair::new_from_array`
/// and calls `pubkey` on it. Nothing is proved of it: the contract names the
/// key, which the secret alone determines.
#[verifier::external_body]
fn keypair_pubkey(secret: &SecretKey) -> (key: Pubkey)
    ensures
        key@ == public_key(secret@),
{
    let pair = solana_sdk::signature::Keypair::new_from_array(secret.bytes);
    Pubkey { bytes: pair.pubkey().to_bytes() }
}

/// Makes the key pair of `secret` with `solana_sdk::signature::Keypair::new_from_array`
/// and calls `sign_message` on it. Nothing is proved of it: the contract
/// names the signature, which the secret and the message alone determine.
#[verifier::external_body]
fn keypair_sign(secret: &SecretKey, message: &Vec<u8>) -> (sig: Signature)
    ensures
        sig@ == signature(secret@, message@),
{
    let pair = solana_sdk::signature::Keypair::new_from_array(secret.bytes);
    Signature { bytes: pair.sign_message(message).into() }
}

/// The bytes of the message for `list`: `None` where a length has no room in
/// the wire format, or the list cannot be compiled.
pub open spec fn message_of(
    payer: Seq<u8>,
    list: Seq<InstructionView>,
    blockhash: Seq<u8>,
) -> Option<Seq<u8>> {
    if encodable(list) {
        compiled_message(payer, list, blockhash)
    } else {
        None
    }
}

/// Whether the wire format has room for the lengths of `list`.
pub fn is_encodable(list: &Vec<Instruction>) -> (fits: bool)
    ensures
        fits == encodable(views(list@)),
{
    if list.len() > MAX_ENCODED_LEN {
        return false;
    }
    let mut i: usize = 0;
    while i < list.len()
        invariant
            i <= list.len(),
            list.len() <= MAX_ENCODED_LEN,
            forall|j: int|
                0 <= j < i ==> (#[trigger] views(list@)[j]).accounts.len() <= MAX_ENCODED_LEN
                    && views(list@)[j].data.len() <= MAX_ENCODED_LEN,
        decreases list.len() - i,
    {
        if list[i].accounts.len() > MAX_ENCODED_LEN || list[i].data.len() > MAX_ENCODED_LEN {
            assert(views(list@)[i as int] == list[i as int]@);
            return false;
        }
        assert(views(list@)[i as int] == list[i as int]@);
        i += 1;
    }
    true
}

/// The address that signs with `secret`.
pub fn signer_pubkey(secret: &SecretKey) -> (key: Pubkey)
    ensures
        key@ == public_key(secret@),
{
    keypair_pubkey(secret)
}

/// Compiles `list` into the bytes of a message.
pub fn message_bytes(payer: &Pubkey, list: &Vec<Instruction>, blockhash: &Blockhash) -> (bytes:
    Result<Vec<u8>, PackError>)
    ensures
        match bytes {
            Ok(b) => message_of(payer@, views(list@), blockhash@) == Some(b@),
            Err(e) => e == PackError::Assembly && message_of(payer@, views(list@), blockhash@)
                is None,
        },
{
    if !is_encodable(list) {
        return Err(PackError::Assembly);
    }
    match compile_message(payer, list, blockhash) {
        Ok(bytes) => Ok(bytes),
        Err(_) => Err(PackError::Assembly),
    }
}

/// A message with the one signature of its payer, and the instructions it
/// was compiled from.
#[derive(Clone, Debug, PartialEq, Eq)]
pub struct Transaction {
    pub signatures: Vec<Signature>,
    pub message: Vec<u8>,
    pub instructions: Vec<Instruction>,
}

/// What a [`Transaction`] holds, as mathematical sequences.
pub struct TransactionView {
    pub signatures: Seq<Signature>,
    pub message: Seq<u8>,
    pub instructions: Seq<InstructionView>,
}

impl View for Transaction {
    type V = TransactionView;

    open spec fn view(&self) -> TransactionView {
        TransactionView {
            signatures: self.signatures@,
            message: self.message@,
            instructions: views(self.instructions@),
        }
    }
}

impl TransactionView {
    /// Whether this is `message`, compiled from `list`, under the one
    /// signature that `secret` gives it.
    pub open spec fn signed_by(
        self,
        secret: Seq<u8>,
        message: Seq<u8>,
        list: Seq<InstructionView>,
    ) -> bool {
        &&& self.message == message
        &&& self.instructions == list
        &&& self.signatures.len() == 1
        &&& self.signatures[0]@ == signature(secret, message)
    }
}

/// Signs `message` and keeps the instructions beside it.
pub fn sign(secret: &SecretKey, message: Vec<u8>, instructions: Vec<Instruction>) -> (tx:
    Transaction)
    ensures
        tx@.signed_by(secret@, message@, views(instructions@)),
{
    let sig = keypair_sign(secret, &message);
    let mut signatures: Vec<Signature> = Vec::new();
    signatures.push(sig);
    Transaction { signatures, message, instructions }
}

/// Whether no account in `list` but `payer` is asked to sign.
pub open spec fn sole_signer(list: Seq<InstructionView>, payer: Seq<u8>) -> bool {
    forall|i: int, j: int|
        0 <= i < list.len() && 0 <= j < list[i].accounts.len() && (
        #[trigger] list[i].accounts[j]).is_signer ==> list[i].accounts[j].pubkey@ == payer
}

/// Whether no account in `list` but `payer` is asked to sign.
pub fn has_sole_signer(list: &Vec<Instruction>, payer: &Pubkey) -> (sole: bool)
    ensures
        sole == sole_signer(views(list@), payer@),
{
    let mut i: usize = 0;
    while i < list.len()
        invariant
            i <= list.len(),
            forall|a: int, b: int|
                0 <= a < i && 0 <= b < views(list@)[a].accounts.len() && (
                #[trigger] views(list@)[a].accounts[b]).is_signer ==> views(
                    list@,
                )[a].accounts[b].pubkey@ == payer@,
        decreases list.len() - i,
    {
        let ix = &list[i];
        assert(views(list@)[i as int] == ix@);
        let mut j: usize = 0;
        while j < ix.accounts.len()
            invariant
                j <= ix.accounts.len(),
                i < list.len(),
                views(list@)[i as int] == ix@,
                forall|b: int|
                    0 <= b < j && (#[trigger] ix@.accounts[b]).is_signer
                        ==> ix@.accounts[b].pubkey@ == payer@,
            decreases ix.accounts.len() - j,
        {
            if ix.accounts[j].is_signer && !ix.accounts[j].pubkey.same(payer) {
                let ghost meta = views(list@)[i as int].accounts[j as int];
                assert(meta.is_signer);
                assert(meta.pubkey@ != payer@) by {
                    if meta.pubkey@ == payer@ {
                        assert(meta.pubkey.bytes =~= payer.bytes);
                    }
                }
                return false;
            }
            j += 1;
        }
        i += 1;
    }
    true
}

/// The bytes of the message for `list` that the one signature of `payer`
/// suffices for: `None` where another account is asked to sign, or the list
/// has no message.
pub open spec fn assembled(
    payer: Seq<u8>,
    list: Seq<InstructionView>,
    blockhash: Seq<u8>,
) -> Option<Seq<u8>> {
    if sole_signer(list, payer) {
        message_of(payer, list, blockhash)
    } else {
        None
    }
}

/// Compiles `instructions` into a message that the signer of `payer` pays
/// for, and signs it. Fails where the list has no message, or asks another
/// account to sign.
pub fn assemble(
    payer: &SecretKey,
    blockhash: &Blockhash,
    instructions: Vec<Instruction>,
) -> (result: Result<Transaction, PackError>)
    ensures
        match assembled(public_key(payer@), views(instructions@), blockhash@) {
            Some(message) => result matches Ok(tx) && tx@.signed_by(
                payer@,
                message,
                views(instructions@),
            ),
            None => result matches Err(e) && e == PackError::Assembly,
        },
{
    let signatory = signer_pubkey(payer);
    let message = match message_bytes(&signatory, &instructions, blockhash) {
        Ok(bytes) => bytes,
        Err(e) => {
            return Err(e);
        },
    };
    if !has_sole_signer(&instructions, &signatory) {
        return Err(PackError::Assembly);
    }
    Ok(sign(payer, message, instructions))
}

} // verus!
