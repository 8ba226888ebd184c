//! The durable key-value store, and its mathematical model.
//!
//! The store is a `cosmwasm_std::MemoryStorage` driven through
//! `cw_storage_plus`: greetings live in a `Map` under one namespace, keyed by
//! the caller's address, and the owner lives in an `Item` under a separate
//! key. Both are reached only through the trusted wrappers below; the rest of
//! the crate reasons about the store purely through the two named views
//! [`greetings_of`] and [`owner_of`].

use vstd::prelude::*;

use cosmwasm_std::Addr;
use cosmwasm_std::MemoryStorage;
use cosmwasm_std::Order;
use cosmwasm_std::StdError;

verus! {

#[verifier::external_type_specification]
#[verifier::external_body]
pub struct ExMemoryStorage(MemoryStorage);

#[verifier::external_type_specification]
#[verifier::external_body]
pub struct ExStdError(StdError);

/// The greetings the store holds: a map from caller identity to greeting
/// text. This is the contents of the store's greetings namespace, with each
/// stored key read back as the identity it was derived from.
pub uninterp spec fn greetings_of(s: MemoryStorage) -> Map<Seq<char>, Seq<char>>;

/// The owner identity the store holds, if one was ever recorded. It lives
/// under its own key, apart from the greetings namespace.
pub uninterp spec fn owner_of(s: MemoryStorage) -> Option<Seq<char>>;

/// The byte key the store derives from a caller identity.
pub uninterp spec fn key_bytes_of(id: Seq<char>) -> Seq<u8>;

/// Strict byte-wise lexicographic order, the order in which the store ranks
/// its keys: compare byte by byte, and a strict prefix comes first.
pub open spec fn bytes_lt(a: Seq<u8>, b: Seq<u8>) -> bool
    decreases a.len(),
{
    if b.len() == 0 {
        false
    } else if a.len() == 0 {
        true
    } else if a[0] != b[0] {
        a[0] < b[0]
    } else {
        bytes_lt(a.subrange(1, a.len() as int), b.subrange(1, b.len() as int))
    }
}

/// The pairs a scan hands back, each seen as (key bytes, greeting text).
pub open spec fn entries_view(r: Seq<(Vec<u8>, String)>) -> Seq<(Seq<u8>, Seq<char>)> {
    r.map_values(|p: (Vec<u8>, String)| (p.0@, p.1@))
}

/// What it means for `entries` to list the greetings `m` in full: one entry
/// per held identity, carrying that identity's key bytes and greeting, in
/// strictly ascending byte-wise key order. The shape depends on the contents
/// `m` alone, never on the order in which they were written.
pub open spec fn greetings_listing(
    m: Map<Seq<char>, Seq<char>>,
    entries: Seq<(Seq<u8>, Seq<char>)>,
) -> bool {
    &&& m.dom().finite()
    &&& entries.len() == m.dom().len()
    &&& (forall|i: int|
        0 <= i < entries.len() ==> exists|c: Seq<char>|
            m.dom().contains(c) && (#[trigger] entries[i]).0 == key_bytes_of(c) && entries[i].1
                == m[c])
    &&& (forall|c: Seq<char>|
        #[trigger] m.dom().contains(c) ==> exists|i: int|
            0 <= i < entries.len() && entries[i].0 == key_bytes_of(c) && entries[i].1 == m[c])
    &&& (forall|i: int, j: int|
        0 <= i < j < entries.len() ==> bytes_lt((#[trigger] entries[i]).0, (#[trigger] entries[j]).0))
}

/// Relies on `cw_storage_plus::Item::save`: it records the owner under the
/// store's own owner key and touches nothing in the greetings namespace.
/// Writing a string value into an in-memory store cannot fail.
#[verifier::external_body]
pub(crate) fn store_save_owner(store: &mut MemoryStorage, owner: &str) -> (r: Result<
    (),
    StdError,
>)
    ensures
        r is Ok,
        owner_of(*final(store)) == Some(owner@),
        greetings_of(*final(store)) == greetings_of(*old(store)),
{
    cw_storage_plus::Item::<String>::new("state").save(store, &owner.to_string())
}

/// Relies on `cw_storage_plus::Map::save` keyed by the caller's address: it
/// sets this caller's entry to the given greeting, overwriting any earlier
/// one, and touches neither other entries nor the owner key. Writing a
/// string value into an in-memory store cannot fail.
#[verifier::external_body]
pub(crate) fn store_save_greeting(
    store: &mut MemoryStorage,
    caller: &str,
    greeting: &String,
) -> (r: Result<(), StdError>)
    ensures
        r is Ok,
        greetings_of(*final(store)) == greetings_of(*old(store)).insert(caller@, greeting@),
        owner_of(*final(store)) == owner_of(*old(store)),
{
    let addr = Addr::unchecked(caller);
    cw_storage_plus::Map::new("greetings").save(store, &addr, greeting)
}

/// Relies on `cw_storage_plus::Map::range` in ascending order over the whole
/// greetings namespace: it yields every stored entry exactly once, keyed by
/// the raw identity-derived key bytes, in ascending byte-wise key order. A
/// stored entry that no longer decodes would be an invariant violation --
/// only [`store_save_greeting`] ever fills this namespace -- and stops
/// execution rather than surfacing as a recoverable error.
#[verifier::external_body]
pub(crate) fn store_scan_greetings(store: &MemoryStorage) -> (r: Vec<(Vec<u8>, String)>)
    ensures
        greetings_listing(greetings_of(*store), entries_view(r@)),
        (forall|i: int|
            0 <= i < r@.len() ==> exists|c: Seq<char>|
                greetings_of(*store).dom().contains(c) && (#[trigger] r@[i]).0@ == key_bytes_of(
                    c,
                )),
{
    cw_storage_plus::Map::<&Addr, String>::new("greetings")
        .range(store, None, None, Order::Ascending)
        .map(|entry: cosmwasm_std::StdResult<(Addr, String)>| {
            let (key, value) = entry.unwrap();
            (key.as_bytes().to_vec(), value)
        })
        .collect()
}

/// Relies on `cw_storage_plus::Map::may_load` keyed by the caller's address:
/// it returns the greeting stored for this caller, or nothing when the key is
/// absent. As with the scan, an entry that no longer decodes stops execution.
#[verifier::external_body]
pub(crate) fn store_load_greeting(store: &MemoryStorage, caller: &str) -> (r: Option<String>)
    ensures
        (match r {
            Some(g) => greetings_of(*store).dom().contains(caller@) && g@ == greetings_of(
                *store,
            )[caller@],
            None => !greetings_of(*store).dom().contains(caller@),
        }),
{
    let addr = Addr::unchecked(caller);
    cw_storage_plus::Map::new("greetings").may_load(store, &addr).unwrap()
}

/// Relies on `StdError`'s own error formatting for the human-readable
/// description that a failure carries to the caller.
#[verifier::external_body]
pub(crate) fn describe_std_error(e: &StdError) -> String {
    format!("{}", e)
}

} // verus!
