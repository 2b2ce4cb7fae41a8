//! The pet asset ledger's front. Minting, transfer and burning are the work
//! of a standard asset library; what is decided here is whether a request
//! reaches it and what is reported once it has been carried out.

use vstd::prelude::*;
use vstd::string::*;
use cosmwasm_std::Response;
pub use crate::attestation::ZkTLSProof;
use crate::attestation::{proof_is_valid, validate_zktls_proof};
use crate::context::{Env, MessageInfo};
use crate::response::{attributes_of, new_response, reports, reserved, with_attribute};

verus! {

/// What sets the asset ledger up.
#[derive(Clone, Debug, PartialEq)]
pub struct InstantiateMsg {
    pub name: String,
    pub symbol: String,
    pub minter: String,
}

/// One descriptive trait of a pet.
#[derive(Clone, Debug, PartialEq)]
pub struct Attribute {
    pub trait_type: String,
    pub value: String,
}

/// What a pet token says about its pet, with the attestation that backs
/// it, if there is one.
#[derive(Clone, Debug, PartialEq)]
pub struct Metadata {
    pub name: String,
    pub description: String,
    pub image: String,
    pub attributes: Vec<Attribute>,
    pub zktls_proof: Option<ZkTLSProof>,
}

/// The mutating operations.
#[derive(Clone, Debug, PartialEq)]
pub enum ExecuteMsg {
    Mint {
        token_id: String,
        owner: String,
        token_uri: Option<String>,
        extension: Option<Metadata>,
    },
    TransferNft { recipient: String, token_id: String },
    Burn { token_id: String },
}

/// The read operations; the asset library answers all of them.
#[derive(Clone, Debug, PartialEq)]
pub enum QueryMsg {
    OwnerOf { token_id: String, include_expired: Option<bool> },
    NumTokens {  },
    ContractInfo {  },
    AllTokens { start_after: Option<String>, limit: Option<u32> },
    Tokens { owner: String, start_after: Option<String>, limit: Option<u32> },
}

/// Why a request was refused.
#[derive(Clone, Debug, PartialEq)]
pub enum ContractError {
    /// The metadata carries an attestation that is not structurally valid.
    InvalidProof {  },
}

/// Whether a request may go on to the asset library: a mint whose metadata
/// carries an attestation needs a valid one; every other request may.
pub open spec fn admissible(msg: ExecuteMsg, now: u64) -> bool {
    match msg {
        ExecuteMsg::Mint { extension: Some(metadata), .. } => match metadata.zktls_proof {
            Some(proof) => proof_is_valid(proof, now),
            None => true,
        },
        _ => true,
    }
}

/// What is reported of a request once the asset library has carried it out.
pub open spec fn report(msg: ExecuteMsg) -> Seq<(Seq<char>, Seq<char>)> {
    match msg {
        ExecuteMsg::Mint { token_id, owner, .. } => seq![
            ("method"@, "mint"@),
            ("token_id"@, token_id@),
            ("owner"@, owner@),
        ],
        ExecuteMsg::TransferNft { recipient, token_id } => seq![
            ("method"@, "transfer_nft"@),
            ("token_id"@, token_id@),
            ("recipient"@, recipient@),
        ],
        ExecuteMsg::Burn { token_id } => seq![("method"@, "burn"@), ("token_id"@, token_id@)],
    }
}

/// What is reported once the asset library has been set up.
pub fn instantiate(env: Env, info: MessageInfo, msg: &InstantiateMsg) -> (r: Response)
    ensures
        reports(
            r,
            seq![("method"@, "instantiate"@), ("name"@, msg.name@), ("symbol"@, msg.symbol@)],
        ),
{
    proof {
        lemma_keys_are_free();
    }
    let response = new_response();
    let response = with_attribute(response, "method", String::from_str("instantiate"));
    let response = with_attribute(response, "name", msg.name.clone());
    let response = with_attribute(response, "symbol", msg.symbol.clone());
    assert(attributes_of(response) =~= seq![
        ("method"@, "instantiate"@),
        ("name"@, msg.name@),
        ("symbol"@, msg.symbol@),
    ]);
    response
}

/// Decides on one request: refuses a mint whose attestation is not valid,
/// and gives for every other request the response to return once the asset
/// library has carried it out.
pub fn execute(env: Env, info: MessageInfo, msg: &ExecuteMsg) -> (r: Result<
    Response,
    ContractError,
>)
    ensures
        admissible(*msg, env.time) ==> r is Ok && reports(r->Ok_0, report(*msg)),
        !admissible(*msg, env.time) ==> r == Err::<Response, ContractError>(
            ContractError::InvalidProof {  },
        ),
{
    proof {
        lemma_keys_are_free();
    }
    match msg {
        ExecuteMsg::Mint { token_id, owner, token_uri, extension } => {
            if let Some(metadata) = extension {
                if let Some(proof) = &metadata.zktls_proof {
                    if !validate_zktls_proof(proof, env.time) {
                        return Err(ContractError::InvalidProof {  });
                    }
                }
            }
            let response = new_response();
            let response = with_attribute(response, "method", String::from_str("mint"));
            let response = with_attribute(response, "token_id", token_id.clone());
            let response = with_attribute(response, "owner", owner.clone());
            assert(attributes_of(response) =~= report(*msg));
            Ok(response)
        },
        ExecuteMsg::TransferNft { recipient, token_id } => {
            let response = new_response();
            let response = with_attribute(response, "method", String::from_str("transfer_nft"));
            let response = with_attribute(response, "token_id", token_id.clone());
            let response = with_attribute(response, "recipient", recipient.clone());
            assert(attributes_of(response) =~= report(*msg));
            Ok(response)
        },
        ExecuteMsg::Burn { token_id } => {
            let response = new_response();
            let response = with_attribute(response, "method", String::from_str("burn"));
            let response = with_attribute(response, "token_id", token_id.clone());
            assert(attributes_of(response) =~= report(*msg));
            Ok(response)
        },
    }
}

/// None of the keys under which this ledger reports is reserved.
proof fn lemma_keys_are_free()
    ensures
        !reserved("method"@),
        !reserved("name"@),
        !reserved("owner"@),
        !reserved("recipient"@),
        !reserved("symbol"@),
        !reserved("token_id"@),
{
    reveal_strlit("method");
    reveal_strlit("name");
    reveal_strlit("owner");
    reveal_strlit("recipient");
    reveal_strlit("symbol");
    reveal_strlit("token_id");
}

} // verus!
