use cosmwasm_std::Response;
use pet_ledger::attestation::ZkTLSProof;
use pet_ledger::context::{Env, MessageInfo};
use pet_ledger::pet_nft::{
    execute, instantiate, Attribute, ContractError, ExecuteMsg, InstantiateMsg, Metadata,
};

fn env(time: u64) -> Env {
    Env { time }
}

fn from(sender: &str) -> MessageInfo {
    MessageInfo { sender: sender.to_string() }
}

fn attrs(pairs: &[(&str, &str)]) -> Response {
    let mut response = Response::new();
    for (key, value) in pairs {
        response = response.add_attribute(*key, *value);
    }
    response
}

fn metadata(zktls_proof: Option<ZkTLSProof>) -> Metadata {
    Metadata {
        name: "Rex".to_string(),
        description: "A good dog".to_string(),
        image: "ipfs://rex".to_string(),
        attributes: vec![Attribute { trait_type: "species".to_string(), value: "dog".to_string() }],
        zktls_proof,
    }
}

fn attestation(signature: &str, timestamp: u64) -> ZkTLSProof {
    ZkTLSProof {
        id: "att1".to_string(),
        proof_type: "pet_status".to_string(),
        signature: signature.to_string(),
        timestamp,
        data_hash: "hash".to_string(),
        verified: false,
    }
}

fn mint(extension: Option<Metadata>) -> ExecuteMsg {
    ExecuteMsg::Mint {
        token_id: "t1".to_string(),
        owner: "alice".to_string(),
        token_uri: None,
        extension,
    }
}

#[test]
fn instantiate_reports_name_and_symbol() {
    let msg = InstantiateMsg {
        name: "Pets".to_string(),
        symbol: "PET".to_string(),
        minter: "minter".to_string(),
    };
    assert_eq!(
        instantiate(env(1), from("creator"), &msg),
        attrs(&[("method", "instantiate"), ("name", "Pets"), ("symbol", "PET")])
    );
}

#[test]
fn mint_without_metadata_goes_on() {
    assert_eq!(
        execute(env(1_000), from("minter"), &mint(None)),
        Ok(attrs(&[("method", "mint"), ("token_id", "t1"), ("owner", "alice")]))
    );
}

#[test]
fn mint_without_a_proof_goes_on() {
    assert!(execute(env(1_000), from("minter"), &mint(Some(metadata(None)))).is_ok());
}

#[test]
fn mint_with_a_valid_proof_goes_on() {
    let msg = mint(Some(metadata(Some(attestation("sig", 1_300)))));
    assert_eq!(
        execute(env(1_000), from("minter"), &msg),
        Ok(attrs(&[("method", "mint"), ("token_id", "t1"), ("owner", "alice")]))
    );
}

#[test]
fn mint_with_an_invalid_proof_is_refused() {
    let msg = mint(Some(metadata(Some(attestation("", 1_000)))));
    assert_eq!(execute(env(1_000), from("minter"), &msg), Err(ContractError::InvalidProof {}));
    let msg = mint(Some(metadata(Some(attestation("sig", 1_301)))));
    assert_eq!(execute(env(1_000), from("minter"), &msg), Err(ContractError::InvalidProof {}));
}

#[test]
fn transfer_and_burn_go_on() {
    let msg = ExecuteMsg::TransferNft { recipient: "bob".to_string(), token_id: "t1".to_string() };
    assert_eq!(
        execute(env(1), from("alice"), &msg),
        Ok(attrs(&[("method", "transfer_nft"), ("token_id", "t1"), ("recipient", "bob")]))
    );
    let msg = ExecuteMsg::Burn { token_id: "t1".to_string() };
    assert_eq!(
        execute(env(1), from("alice"), &msg),
        Ok(attrs(&[("method", "burn"), ("token_id", "t1")]))
    );
}
