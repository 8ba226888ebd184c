//! The greeting service: a thin verified layer over the durable store.
//!
//! Every function takes the storage handle explicitly; the store is created
//! by the host, lives across calls, and is exclusively this service's for the
//! duration of each call.

use vstd::prelude::*;

use cosmwasm_std::MemoryStorage;

use crate::error::ContractError;
use crate::msg::{ExecuteMsg, GreetingsResponse, InstantiateMsg, QueryMsg, Response};
use crate::store::{
    describe_std_error, entries_view, greetings_listing, greetings_of, owner_of,
    store_load_greeting, store_save_greeting, store_save_owner, store_scan_greetings,
};

verus! {

/// Records `sender` as the owner of the store, exactly once at store
/// creation; a repeat call silently overwrites. The greetings are untouched.
pub fn instantiate(store: &mut MemoryStorage, sender: String, _msg: InstantiateMsg) -> (r: Result<
    Response,
    ContractError,
>)
    ensures
        (r matches Ok(resp) && resp.messages@.len() == 0),
        owner_of(*final(store)) == Some(sender@),
        greetings_of(*final(store)) == greetings_of(*old(store)),
{
    match store_save_owner(store, sender.as_str()) {
        Ok(()) => Ok(Response { messages: Vec::new() }),
        Err(e) => Err(ContractError::Storage { message: describe_std_error(&e) }),
    }
}

/// Carries out one mutating request from `sender`: a total match over the
/// closed set of request kinds.
pub fn execute(store: &mut MemoryStorage, sender: String, msg: ExecuteMsg) -> (r: Result<
    Response,
    ContractError,
>)
    ensures
        (r matches Ok(resp) && resp.messages@.len() == 0),
        (match msg {
            ExecuteMsg::SayHello { greeting } => greetings_of(*final(store)) == greetings_of(
                *old(store),
            ).insert(sender@, greeting@),
        }),
        owner_of(*final(store)) == owner_of(*old(store)),
{
    match msg {
        ExecuteMsg::SayHello { greeting } => try_say_hello(store, sender, greeting),
    }
}

/// Records `greeting` under `sender`'s identity: any caller may do so, and a
/// greeting the same caller left before is overwritten silently.
pub fn try_say_hello(store: &mut MemoryStorage, sender: String, greeting: String) -> (r: Result<
    Response,
    ContractError,
>)
    ensures
        (r matches Ok(resp) && resp.messages@.len() == 0),
        greetings_of(*final(store)) == greetings_of(*old(store)).insert(sender@, greeting@),
        owner_of(*final(store)) == owner_of(*old(store)),
{
    match store_save_greeting(store, sender.as_str(), &greeting) {
        Ok(()) => Ok(Response { messages: Vec::new() }),
        Err(e) => Err(ContractError::Storage { message: describe_std_error(&e) }),
    }
}

/// Answers one read-only request: a total match over the closed set of
/// request kinds.
pub fn query(store: &MemoryStorage, msg: QueryMsg) -> (r: Result<GreetingsResponse, ContractError>)
    ensures
        (match msg {
            QueryMsg::GetGreetings {} => r matches Ok(resp) && greetings_listing(
                greetings_of(*store),
                entries_view(resp.greetings@),
            ),
        }),
{
    match msg {
        QueryMsg::GetGreetings {} => query_greetings(store),
    }
}

/// Lists every stored greeting, as (raw key bytes, greeting text) pairs in
/// ascending byte-wise key order.
fn query_greetings(store: &MemoryStorage) -> (r: Result<GreetingsResponse, ContractError>)
    ensures
        (r matches Ok(resp) && greetings_listing(
            greetings_of(*store),
            entries_view(resp.greetings@),
        )),
{
    Ok(GreetingsResponse { greetings: store_scan_greetings(store) })
}

/// Reads the one greeting stored for `caller`, if any: the store's point
/// read under the caller's identity-derived key.
pub fn get_greeting(store: &MemoryStorage, caller: &str) -> (r: Option<String>)
    ensures
        (match r {
            Some(g) => greetings_of(*store).dom().contains(caller@) && g@ == greetings_of(
                *store,
            )[caller@],
            None => !greetings_of(*store).dom().contains(caller@),
        }),
{
    store_load_greeting(store, caller)
}

} // verus!
