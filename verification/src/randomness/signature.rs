use super::{ErrorCode, ResolveError};
use crate::keys::Pubkey;
use vstd::prelude::*;

verus! {

/// An account that an instruction names.
#[derive(Clone, Copy, Debug, PartialEq, Eq)]
pub struct AccountMeta {
    pub pubkey: Pubkey,
    pub is_signer: bool,
    pub is_writable: bool,
}

/// The parts of a transaction's instruction that the signature check reads:
/// the program it calls and the accounts it names.
#[derive(Clone, Debug, PartialEq, Eq)]
pub struct Instruction {
    pub program_id: Pubkey,
    pub accounts: Vec<AccountMeta>,
}

/// One signature entry of an ed25519 program instruction, with the parts
/// that lie in that instruction's own data (`None` where the entry points
/// into another instruction).
#[derive(Clone, Debug, PartialEq, Eq)]
pub struct Ed25519Signature {
    pub public_key: Option<Pubkey>,
    pub signature: Option<[u8; 64]>,
    pub message: Option<Vec<u8>>,
}

/// What an [`Ed25519Signature`] holds, as plain values.
pub struct Ed25519EntryView {
    pub public_key: Option<Pubkey>,
    pub signature: Option<Seq<u8>>,
    pub message: Option<Seq<u8>>,
}

impl View for Ed25519Signature {
    type V = Ed25519EntryView;

    open spec fn view(&self) -> Ed25519EntryView {
        Ed25519EntryView {
            public_key: self.public_key,
            signature: match self.signature {
                Some(s) => Some(s@),
                None => None,
            },
            message: match self.message {
                Some(m) => Some(m@),
                None => None,
            },
        }
    }
}

/// The entries of an unpacked ed25519 instruction, as plain values; `None`
/// where its data could not be unpacked.
pub open spec fn unpacked_view(unpacked: Option<Vec<Ed25519Signature>>) -> Option<
    Seq<Ed25519EntryView>,
> {
    match unpacked {
        Some(v) => Some(v@.map_values(|s: Ed25519Signature| s@)),
        None => None,
    }
}

/// The address of Solana's native ed25519 signature-verification program,
/// `Ed25519SigVerify111111111111111111111111111`.
pub open spec fn ed25519_program_id() -> Pubkey {
    Pubkey(
        [
            3u8,
            125u8,
            70u8,
            214u8,
            124u8,
            147u8,
            251u8,
            190u8,
            18u8,
            249u8,
            66u8,
            143u8,
            131u8,
            141u8,
            64u8,
            255u8,
            5u8,
            112u8,
            116u8,
            73u8,
            39u8,
            244u8,
            138u8,
            100u8,
            252u8,
            202u8,
            112u8,
            68u8,
            128u8,
            0u8,
            0u8,
            0u8,
        ],
    )
}

/// The ed25519 program's address, as a value.
pub fn ed25519_program_key() -> (k: Pubkey)
    ensures
        k == ed25519_program_id(),
{
    Pubkey(
        [
            3u8,
            125u8,
            70u8,
            214u8,
            124u8,
            147u8,
            251u8,
            190u8,
            18u8,
            249u8,
            66u8,
            143u8,
            131u8,
            141u8,
            64u8,
            255u8,
            5u8,
            112u8,
            116u8,
            73u8,
            39u8,
            244u8,
            138u8,
            100u8,
            252u8,
            202u8,
            112u8,
            68u8,
            128u8,
            0u8,
            0u8,
            0u8,
        ],
    )
}

/// The outcome of checking that the first instruction of a transaction is an
/// ed25519 program instruction carrying exactly one signature, by `house`,
/// equal to `sig`, over `message`. Every failed check is `SomeError`, but for
/// data that could not be unpacked.
pub open spec fn signed_bet_check(
    house: Pubkey,
    message: Seq<u8>,
    program_id: Pubkey,
    n_accounts: nat,
    unpacked: Option<Seq<Ed25519EntryView>>,
    sig: Seq<u8>,
) -> Result<(), ResolveError> {
    if program_id != ed25519_program_id() {
        Err(ResolveError::Code(ErrorCode::SomeError))
    } else if n_accounts != 0 {
        Err(ResolveError::Code(ErrorCode::SomeError))
    } else {
        match unpacked {
            None => Err(ResolveError::InvalidInstructionData),
            Some(entries) => {
                if entries.len() != 1 {
                    Err(ResolveError::Code(ErrorCode::SomeError))
                } else if entries[0].public_key != Some(house) {
                    Err(ResolveError::Code(ErrorCode::SomeError))
                } else if entries[0].signature != Some(sig) {
                    Err(ResolveError::Code(ErrorCode::SomeError))
                } else if entries[0].message != Some(message) {
                    Err(ResolveError::Code(ErrorCode::SomeError))
                } else {
                    Ok(())
                }
            },
        }
    }
}

/// One signature settles one bet: where the same instruction and signature
/// pass the check for two bets of the same house, the bets are the same.
pub proof fn lemma_signature_binds_bet(
    house: Pubkey,
    a: super::bet::Bet,
    b: super::bet::Bet,
    program_id: Pubkey,
    n_accounts: nat,
    unpacked: Option<Seq<Ed25519EntryView>>,
    sig: Seq<u8>,
)
    requires
        signed_bet_check(house, a.message(), program_id, n_accounts, unpacked, sig) is Ok,
        signed_bet_check(house, b.message(), program_id, n_accounts, unpacked, sig) is Ok,
    ensures
        a == b,
{
    super::bet::lemma_message_injective(a, b);
}

/// The house's signature is accepted: an ed25519 program instruction naming
/// no account, with one entry by the house whose signature is `sig`, byte for
/// byte in order, over `message`, passes the check, for every `sig`.
pub proof fn lemma_house_signature_accepted(house: Pubkey, message: Seq<u8>, sig: Seq<u8>)
    ensures
        signed_bet_check(
            house,
            message,
            ed25519_program_id(),
            0,
            Some(
                seq![
                    Ed25519EntryView {
                        public_key: Some(house),
                        signature: Some(sig),
                        message: Some(message),
                    },
                ],
            ),
            sig,
        ) == Ok::<(), ResolveError>(()),
{
}

/// Only the house's signature is accepted: the check passes only for an
/// ed25519 program instruction naming no account, with exactly one entry, by
/// `house`, whose signature is `sig` byte for byte in order and whose
/// message is `message`; and data that could not be unpacked is reported as
/// such, every other failure as `SomeError`.
pub proof fn lemma_accepted_only_house_signature(
    house: Pubkey,
    message: Seq<u8>,
    program_id: Pubkey,
    n_accounts: nat,
    unpacked: Option<Seq<Ed25519EntryView>>,
    sig: Seq<u8>,
)
    ensures
        signed_bet_check(house, message, program_id, n_accounts, unpacked, sig) is Ok ==> {
            &&& program_id == ed25519_program_id()
            &&& n_accounts == 0
            &&& unpacked is Some
            &&& unpacked->Some_0.len() == 1
            &&& unpacked->Some_0[0].public_key == Some(house)
            &&& unpacked->Some_0[0].signature matches Some(s) && s.len() == sig.len() && forall|
                i: int,
            | 0 <= i < sig.len() ==> s[i] == sig[i]
            &&& unpacked->Some_0[0].message == Some(message)
        },
        signed_bet_check(house, message, program_id, n_accounts, unpacked, sig)
            == Err::<(), ResolveError>(ResolveError::InvalidInstructionData) <==> (program_id
            == ed25519_program_id() && n_accounts == 0 && unpacked is None),
        signed_bet_check(house, message, program_id, n_accounts, unpacked, sig) is Err
            ==> signed_bet_check(house, message, program_id, n_accounts, unpacked, sig)
            == Err::<(), ResolveError>(ResolveError::InvalidInstructionData)
            || signed_bet_check(house, message, program_id, n_accounts, unpacked, sig) == Err::<
            (),
            ResolveError,
        >(ResolveError::Code(ErrorCode::SomeError)),
{
}

} // verus!
