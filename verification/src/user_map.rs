//! A plain store of one text value per key, where an empty key stands for
//! the sender's own.

use vstd::prelude::*;
use vstd::string::*;
use cosmwasm_std::Response;
use crate::context::{Env, MessageInfo};
use crate::error::StdError;
use crate::response::{attributes_of, new_response, reports, reserved, with_attribute};
use crate::table::{Contents, Table};

verus! {

/// The name under which the store reports itself.
pub const CONTRACT_NAME: &'static str = "xion-user-map";

/// What sets the store up.
#[derive(Clone, Debug, PartialEq)]
pub struct InstantiateMsg {
    pub admin: Option<String>,
}

/// The mutating operations.
#[derive(Clone, Debug, PartialEq)]
pub enum ExecuteMsg {
    SetValue { key: String, value: String },
    DeleteValue { key: String },
}

/// The read operations.
#[derive(Clone, Debug, PartialEq)]
pub enum QueryMsg {
    GetValue { key: String },
    GetValueByUser { address: String },
    GetAllValues {  },
}

/// The answer to a [`QueryMsg`], borrowed from the store.
#[derive(Debug, PartialEq)]
pub enum QueryResponse<'a> {
    /// The value under a key, or nothing where the key is absent.
    Value(Option<&'a String>),
    /// The value of a user.
    UserValue(&'a String),
    /// Every key with its value, in storage order.
    AllValues(Vec<(&'a String, &'a String)>),
}

/// The whole state of the store.
pub struct UserMap {
    pub user_data: Table<String, String>,
}

/// The key that an operation works on: the one it names, or the sender
/// where it names the empty key.
pub open spec fn storage_key(key: String, sender: String) -> String {
    if key@.len() == 0 {
        sender
    } else {
        key
    }
}

/// What [`execute`] does.
pub open spec fn execute_outcome(
    before: UserMap,
    info: MessageInfo,
    msg: ExecuteMsg,
    after: UserMap,
    r: Response,
) -> bool {
    match msg {
        ExecuteMsg::SetValue { key, value } => {
            let at = storage_key(key, info.sender);
            &&& reports(r, seq![
                ("method"@, "set_value"@),
                ("key"@, at@),
                ("sender"@, info.sender@),
            ])
            &&& after.user_data@ == before.user_data@.insert(at@, value)
        },
        ExecuteMsg::DeleteValue { key } => {
            let at = storage_key(key, info.sender);
            &&& reports(r, seq![
                ("method"@, "delete_value"@),
                ("key"@, at@),
                ("sender"@, info.sender@),
            ])
            &&& after.user_data@ == before.user_data@.remove(at@)
        },
    }
}

/// The keys and values behind a list of borrowed pairs.
pub open spec fn pairs(found: Seq<(&String, &String)>) -> Seq<(Seq<char>, String)> {
    found.map_values(|p: (&String, &String)| (p.0@, *p.1))
}

/// Every key of `contents` with its value, in storage order.
pub open spec fn all_pairs(contents: Contents<Seq<char>, String>) -> Seq<(Seq<char>, String)> {
    contents.keys.map_values(|k: Seq<char>| (k, contents.map[k]))
}

/// What [`query`] answers.
pub open spec fn query_outcome(
    store: UserMap,
    msg: QueryMsg,
    r: Result<QueryResponse<'_>, StdError>,
) -> bool {
    match msg {
        QueryMsg::GetValue { key } => match store.user_data@.get(key@) {
            Some(value) => r matches Ok(QueryResponse::Value(Some(v))) && *v == value,
            None => r matches Ok(QueryResponse::Value(None)),
        },
        QueryMsg::GetValueByUser { address } => match store.user_data@.get(address@) {
            Some(value) => r matches Ok(QueryResponse::UserValue(v)) && *v == value,
            None => r matches Err(StdError::GenericErr { msg }) && msg@
                == "No value found for user"@,
        },
        QueryMsg::GetAllValues {  } => {
            r matches Ok(QueryResponse::AllValues(found)) && pairs(found@) == all_pairs(
                store.user_data@,
            )
        },
    }
}

/// Sets up an empty store.
pub fn instantiate(env: Env, info: MessageInfo, msg: InstantiateMsg) -> (r: (UserMap, Response))
    ensures
        r.0.user_data@ == Contents::<Seq<char>, String>::empty(),
        reports(r.1, seq![("method"@, "instantiate"@), ("contract"@, "xion-user-map"@)]),
{
    proof {
        lemma_keys_are_free();
    }
    let response = new_response();
    let response = with_attribute(response, "method", String::from_str("instantiate"));
    let response = with_attribute(response, "contract", String::from_str(CONTRACT_NAME));
    assert(attributes_of(response) =~= seq![
        ("method"@, "instantiate"@),
        ("contract"@, "xion-user-map"@),
    ]);
    (UserMap { user_data: Table::new() }, response)
}

/// Applies one mutating operation to the store. Neither operation can be
/// refused.
pub fn execute(store: &mut UserMap, env: Env, info: MessageInfo, msg: ExecuteMsg) -> (r: Response)
    ensures
        execute_outcome(*old(store), info, msg, *final(store), r),
{
    match msg {
        ExecuteMsg::SetValue { key, value } => execute_set_value(store, info, key, value),
        ExecuteMsg::DeleteValue { key } => execute_delete_value(store, info, key),
    }
}

/// Stores `value` under `key`, or under the sender where `key` is empty.
pub fn execute_set_value(store: &mut UserMap, info: MessageInfo, key: String, value: String) -> (r:
    Response)
    ensures
        execute_outcome(
            *old(store),
            info,
            ExecuteMsg::SetValue { key, value },
            *final(store),
            r,
        ),
{
    proof {
        lemma_keys_are_free();
    }
    let sender = info.sender.clone();
    let at = if key.as_str().is_empty() {
        info.sender
    } else {
        key
    };
    let response = new_response();
    let response = with_attribute(response, "method", String::from_str("set_value"));
    let response = with_attribute(response, "key", at.clone());
    let response = with_attribute(response, "sender", sender);
    assert(attributes_of(response) =~= seq![
        ("method"@, "set_value"@),
        ("key"@, at@),
        ("sender"@, info.sender@),
    ]);
    store.user_data.insert(at, value);
    response
}

/// Removes what is stored under `key`, or under the sender where `key` is
/// empty. Removing an absent key is no error.
pub fn execute_delete_value(store: &mut UserMap, info: MessageInfo, key: String) -> (r: Response)
    ensures
        execute_outcome(*old(store), info, ExecuteMsg::DeleteValue { key }, *final(store), r),
{
    proof {
        lemma_keys_are_free();
    }
    let sender = info.sender.clone();
    let at = if key.as_str().is_empty() {
        info.sender
    } else {
        key
    };
    let response = new_response();
    let response = with_attribute(response, "method", String::from_str("delete_value"));
    let response = with_attribute(response, "key", at.clone());
    let response = with_attribute(response, "sender", sender);
    assert(attributes_of(response) =~= seq![
        ("method"@, "delete_value"@),
        ("key"@, at@),
        ("sender"@, info.sender@),
    ]);
    let _ = store.user_data.remove(&at);
    response
}

/// Every key of the store with its value, in storage order.
pub fn all_values<'a>(data: &'a Table<String, String>) -> (out: Vec<(&'a String, &'a String)>)
    ensures
        pairs(out@) == all_pairs(data@),
{
    let ghost all = all_pairs(data@);
    let mut out: Vec<(&String, &String)> = Vec::new();
    let n = data.len();
    let mut i: usize = 0;
    proof {
        assert(pairs(out@) =~= all.take(0));
    }
    while i < n
        invariant
            n == data@.keys.len(),
            all == all_pairs(data@),
            all.len() == n,
            i <= n,
            pairs(out@) == all.take(i as int),
        decreases n - i,
    {
        let ghost held = out@;
        let key = data.key_at(i);
        let value = data.value_at(i);
        out.push((key, value));
        proof {
            assert(data@.values()[i as int] == data@.map[data@.keys[i as int]]);
            assert(pairs(out@) =~= pairs(held).push(all[i as int]));
            assert(all.take(i + 1) =~= all.take(i as int).push(all[i as int]));
        }
        i += 1;
    }
    proof {
        assert(all.take(n as int) =~= all);
    }
    out
}

/// Answers one read operation. A lookup by key answers with nothing where
/// the key is absent; a lookup by user fails there.
pub fn query<'a>(store: &'a UserMap, env: Env, msg: QueryMsg) -> (r: Result<
    QueryResponse<'a>,
    StdError,
>)
    ensures
        query_outcome(*store, msg, r),
{
    match msg {
        QueryMsg::GetValue { key } => Ok(QueryResponse::Value(store.user_data.get(&key))),
        QueryMsg::GetValueByUser { address } => match store.user_data.get(&address) {
            Some(value) => Ok(QueryResponse::UserValue(value)),
            None => Err(StdError::GenericErr { msg: String::from_str("No value found for user") }),
        },
        QueryMsg::GetAllValues {  } => Ok(QueryResponse::AllValues(all_values(&store.user_data))),
    }
}

/// None of the keys under which this ledger reports is reserved.
proof fn lemma_keys_are_free()
    ensures
        !reserved("contract"@),
        !reserved("key"@),
        !reserved("method"@),
        !reserved("sender"@),
{
    reveal_strlit("contract");
    reveal_strlit("key");
    reveal_strlit("method");
    reveal_strlit("sender");
}

} // verus!
