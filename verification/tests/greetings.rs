use cosmwasm_std::coins;
use cosmwasm_std::testing::mock_info;
use cosmwasm_std::MemoryStorage;

use greeting_store::contract::{execute, get_greeting, instantiate, query, try_say_hello};
use greeting_store::msg::{ExecuteMsg, InstantiateMsg, QueryMsg};

#[test]
fn proper_initialization() {
    let mut store = MemoryStorage::new();

    let msg = InstantiateMsg {};
    let info = mock_info("creator", &coins(1000, "earth"));

    // we can just call .unwrap() to assert this was a success
    let res = instantiate(&mut store, info.sender.into_string(), msg).unwrap();
    assert_eq!(0, res.messages.len());

    // it worked, let's query the state
    let value = query(&store, QueryMsg::GetGreetings {}).unwrap();
    assert_eq!(0, value.greetings.len());
}

#[test]
fn say_hello() {
    let mut store = MemoryStorage::new();

    let msg = InstantiateMsg {};
    let info = mock_info("creator", &coins(2, "token"));
    let _res = instantiate(&mut store, info.sender.into_string(), msg).unwrap();

    // beneficiary can release it
    let info = mock_info("anyone", &coins(2, "token"));
    let msg = ExecuteMsg::SayHello {
        greeting: "Hello Cosmos!".to_string(),
    };
    let _res = execute(&mut store, info.sender.into_string(), msg).unwrap();

    // should increase counter by 1
    let value = query(&store, QueryMsg::GetGreetings {}).unwrap();
    assert_eq!(1, value.greetings.len());
}

#[test]
fn one_greeting_with_exact_value() {
    let mut store = MemoryStorage::new();

    let _res = instantiate(&mut store, "creator".to_string(), InstantiateMsg {}).unwrap();
    let msg = ExecuteMsg::SayHello {
        greeting: "Hello Cosmos!".to_string(),
    };
    let _res = execute(&mut store, "anyone".to_string(), msg).unwrap();

    let value = query(&store, QueryMsg::GetGreetings {}).unwrap();
    assert_eq!(1, value.greetings.len());
    assert_eq!("anyone".as_bytes().to_vec(), value.greetings[0].0);
    assert_eq!("Hello Cosmos!", value.greetings[0].1);
}

#[test]
fn initialize_only_lists_nothing() {
    let mut store = MemoryStorage::new();

    let _res = instantiate(&mut store, "creator".to_string(), InstantiateMsg {}).unwrap();

    let value = query(&store, QueryMsg::GetGreetings {}).unwrap();
    assert_eq!(0, value.greetings.len());
}

#[test]
fn overwrite_keeps_only_the_last_greeting() {
    let mut store = MemoryStorage::new();

    let _res = instantiate(&mut store, "creator".to_string(), InstantiateMsg {}).unwrap();
    let _res = try_say_hello(&mut store, "anyone".to_string(), "first".to_string()).unwrap();
    let _res = try_say_hello(&mut store, "anyone".to_string(), "second".to_string()).unwrap();

    let value = query(&store, QueryMsg::GetGreetings {}).unwrap();
    assert_eq!(1, value.greetings.len());
    assert_eq!("anyone".as_bytes().to_vec(), value.greetings[0].0);
    assert_eq!("second", value.greetings[0].1);

    assert_eq!(Some("second".to_string()), get_greeting(&store, "anyone"));
}

#[test]
fn listing_is_ascending_regardless_of_write_order() {
    let mut store = MemoryStorage::new();

    let _res = instantiate(&mut store, "creator".to_string(), InstantiateMsg {}).unwrap();
    let _res = try_say_hello(&mut store, "zed".to_string(), "from zed".to_string()).unwrap();
    let _res = try_say_hello(&mut store, "alice".to_string(), "from alice".to_string()).unwrap();
    let _res = try_say_hello(&mut store, "mallory".to_string(), "from mallory".to_string()).unwrap();

    let value = query(&store, QueryMsg::GetGreetings {}).unwrap();
    assert_eq!(3, value.greetings.len());
    assert_eq!("alice".as_bytes().to_vec(), value.greetings[0].0);
    assert_eq!("from alice", value.greetings[0].1);
    assert_eq!("mallory".as_bytes().to_vec(), value.greetings[1].0);
    assert_eq!("from mallory", value.greetings[1].1);
    assert_eq!("zed".as_bytes().to_vec(), value.greetings[2].0);
    assert_eq!("from zed", value.greetings[2].1);
}

#[test]
fn distinct_callers_each_count() {
    let mut store = MemoryStorage::new();

    let _res = instantiate(&mut store, "creator".to_string(), InstantiateMsg {}).unwrap();
    let callers = ["one", "two", "three", "four"];
    for caller in callers {
        let _res =
            try_say_hello(&mut store, caller.to_string(), format!("hello from {}", caller))
                .unwrap();
    }

    let value = query(&store, QueryMsg::GetGreetings {}).unwrap();
    assert_eq!(4, value.greetings.len());
}

#[test]
fn written_greeting_reads_back_exactly() {
    let mut store = MemoryStorage::new();

    let _res = instantiate(&mut store, "creator".to_string(), InstantiateMsg {}).unwrap();
    assert_eq!(None, get_greeting(&store, "anyone"));

    let _res = try_say_hello(&mut store, "anyone".to_string(), "Hello Cosmos!".to_string())
        .unwrap();
    assert_eq!(
        Some("Hello Cosmos!".to_string()),
        get_greeting(&store, "anyone")
    );
    assert_eq!(None, get_greeting(&store, "creator"));
}

#[test]
fn instantiate_overwrites_owner_and_keeps_greetings() {
    let mut store = MemoryStorage::new();

    let _res = instantiate(&mut store, "creator".to_string(), InstantiateMsg {}).unwrap();
    let _res = try_say_hello(&mut store, "anyone".to_string(), "still here".to_string()).unwrap();

    // a repeat initialization is allowed and leaves the greetings alone
    let _res = instantiate(&mut store, "new owner".to_string(), InstantiateMsg {}).unwrap();

    let value = query(&store, QueryMsg::GetGreetings {}).unwrap();
    assert_eq!(1, value.greetings.len());
    assert_eq!("still here", value.greetings[0].1);
}

#[test]
fn empty_identity_is_a_key_like_any_other() {
    let mut store = MemoryStorage::new();

    let _res = try_say_hello(&mut store, "".to_string(), "nobody says hi".to_string()).unwrap();
    let _res = try_say_hello(&mut store, "anyone".to_string(), "hi".to_string()).unwrap();

    let value = query(&store, QueryMsg::GetGreetings {}).unwrap();
    assert_eq!(2, value.greetings.len());
    // the empty key comes first in byte-wise order
    assert_eq!(Vec::<u8>::new(), value.greetings[0].0);
    assert_eq!("nobody says hi", value.greetings[0].1);
    assert_eq!(Some("nobody says hi".to_string()), get_greeting(&store, ""));
}

#[test]
fn empty_greeting_text_is_kept() {
    let mut store = MemoryStorage::new();

    let _res = try_say_hello(&mut store, "anyone".to_string(), "".to_string()).unwrap();

    let value = query(&store, QueryMsg::GetGreetings {}).unwrap();
    assert_eq!(1, value.greetings.len());
    assert_eq!("", value.greetings[0].1);
    assert_eq!(Some("".to_string()), get_greeting(&store, "anyone"));
}
