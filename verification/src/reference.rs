//! The in-memory reference store: lightning's `TestStore` behind the
//! identifier check, with its records as a mathematical map.
//!
//! A `TestStore` joins the two namespaces into one path, so that two pairs
//! with one path would share their records. The reference store keeps every
//! namespace pair apart: it hands the `TestStore` one name for each pair, made
//! so that two pairs never have the same.

use vstd::prelude::*;
use vstd::string::StringExecFns;
use crate::error::{StoreError, fails_with};
use crate::identifier::{check_identifier, valid_identifier};
use crate::store::{
    Records, no_records, read_result, after_write, after_remove, listed_keys, bytes_view,
    keys_view, lists_exactly, KVStore,
};
use lightning::util::test_utils::TestStore;

verus! {

/// What a `TestStore` holds: bytes by namespace path and key.
pub type Held = Map<(Seq<char>, Seq<char>), Seq<u8>>;

/// A `TestStore` that holds nothing.
pub open spec fn nothing_held() -> Held {
    Map::empty()
}

/// The path under which a `TestStore` files a namespace pair: the primary
/// namespace alone, or both joined by a slash.
pub open spec fn joined_path(primary: Seq<char>, secondary: Seq<char>) -> Seq<char> {
    if secondary.len() == 0 {
        primary
    } else {
        primary + seq!['/'] + secondary
    }
}

/// What a read of a `TestStore` that holds `held` returns.
pub open spec fn held_read(
    held: Held,
    primary: Seq<char>,
    secondary: Seq<char>,
    key: Seq<char>,
) -> Result<Seq<u8>, StoreError> {
    let at = (joined_path(primary, secondary), key);
    if held.contains_key(at) {
        Ok(held[at])
    } else {
        Err(StoreError::NotFound)
    }
}

/// What a `TestStore` holds after a write.
pub open spec fn held_after_write(
    held: Held,
    primary: Seq<char>,
    secondary: Seq<char>,
    key: Seq<char>,
    data: Seq<u8>,
) -> Held {
    held.insert((joined_path(primary, secondary), key), data)
}

/// What a `TestStore` holds after a remove.
pub open spec fn held_after_remove(
    held: Held,
    primary: Seq<char>,
    secondary: Seq<char>,
    key: Seq<char>,
) -> Held {
    held.remove((joined_path(primary, secondary), key))
}

/// The keys that a `TestStore` holds under the path of a namespace pair.
pub open spec fn held_keys(held: Held, primary: Seq<char>, secondary: Seq<char>) -> Set<
    Seq<char>,
> {
    Set::new(|key: Seq<char>| held.contains_key((joined_path(primary, secondary), key)))
}

/// lightning's `TestStore`, a store in memory. Nothing of its inside is known
/// here but what the two names below stand for.
#[verifier::external_type_specification]
#[verifier::external_body]
pub struct ExTestStore(lightning::util::test_utils::TestStore);

/// The records that a `TestStore` holds, by namespace path and key.
pub uninterp spec fn test_store_records(store: TestStore) -> Held;

/// Whether a `TestStore` was made read-only, and so refuses every update.
pub uninterp spec fn test_store_read_only(store: TestStore) -> bool;

/// Calls lightning's `TestStore::new`. Trusted: the new store is empty and
/// keeps the flag.
#[verifier::external_body]
fn test_store_new(read_only: bool) -> (store: TestStore)
    ensures
        test_store_records(store) == nothing_held(),
        test_store_read_only(store) == read_only,
{
    TestStore::new(read_only)
}

/// Calls lightning's `KVStore::read` on a `TestStore`. Trusted: it returns
/// the bytes held under the namespace path and key, and a not-found failure
/// where there are none.
#[verifier::external_body]
fn test_store_read(
    store: &TestStore,
    primary: &str,
    secondary: &str,
    key: &str,
) -> (found: Result<Vec<u8>, StoreError>)
    ensures
        bytes_view(found) == held_read(
            test_store_records(*store),
            primary@,
            secondary@,
            key@,
        ),
{
    match lightning::util::persist::KVStore::read(store, primary, secondary, key) {
        Ok(bytes) => Ok(bytes),
        Err(e) => match e.kind() {
            std::io::ErrorKind::NotFound => Err(StoreError::NotFound),
            _ => Err(StoreError::BackendIo),
        },
    }
}

/// Calls lightning's `KVStore::write` on a `TestStore`. Trusted: a read-only
/// store fails and keeps its records; any other store succeeds and holds `buf`
/// under the namespace path and key, in place of what was there. The call
/// does not unwind.
#[verifier::external_body]
fn test_store_write(
    store: &mut TestStore,
    primary: &str,
    secondary: &str,
    key: &str,
    buf: &[u8],
) -> (done: Result<(), StoreError>)
    ensures
        test_store_read_only(*final(store)) == test_store_read_only(*old(store)),
        test_store_read_only(*old(store)) ==> fails_with(done, StoreError::BackendIo)
            && test_store_records(*final(store)) == test_store_records(*old(store)),
        !test_store_read_only(*old(store)) ==> done is Ok
            && test_store_records(*final(store)) == held_after_write(
            test_store_records(*old(store)),
            primary@,
            secondary@,
            key@,
            buf@,
        ),
    no_unwind
{
    match lightning::util::persist::KVStore::write(&*store, primary, secondary, key, buf) {
        Ok(()) => Ok(()),
        Err(e) => match e.kind() {
            std::io::ErrorKind::NotFound => Err(StoreError::NotFound),
            _ => Err(StoreError::BackendIo),
        },
    }
}

/// Calls lightning's `KVStore::remove` on a `TestStore`. Trusted: a
/// read-only store fails and keeps its records; any other store succeeds and
/// holds nothing under the namespace path and key, whether or not it did
/// before. The call does not unwind.
#[verifier::external_body]
fn test_store_remove(
    store: &mut TestStore,
    primary: &str,
    secondary: &str,
    key: &str,
    lazy: bool,
) -> (done: Result<(), StoreError>)
    ensures
        test_store_read_only(*final(store)) == test_store_read_only(*old(store)),
        test_store_read_only(*old(store)) ==> fails_with(done, StoreError::BackendIo)
            && test_store_records(*final(store)) == test_store_records(*old(store)),
        !test_store_read_only(*old(store)) ==> done is Ok
            && test_store_records(*final(store)) == held_after_remove(
            test_store_records(*old(store)),
            primary@,
            secondary@,
            key@,
        ),
    no_unwind
{
    match lightning::util::persist::KVStore::remove(&*store, primary, secondary, key, lazy) {
        Ok(()) => Ok(()),
        Err(e) => match e.kind() {
            std::io::ErrorKind::NotFound => Err(StoreError::NotFound),
            _ => Err(StoreError::BackendIo),
        },
    }
}

/// Calls lightning's `KVStore::list` on a `TestStore`. Trusted: it succeeds
/// and returns each key held under the namespace path once, in no stated
/// order.
#[verifier::external_body]
fn test_store_list(
    store: &TestStore,
    primary: &str,
    secondary: &str,
) -> (listed: Result<Vec<String>, StoreError>)
    ensures
        lists_exactly(
            keys_view(listed),
            held_keys(test_store_records(*store), primary@, secondary@),
        ),
{
    match lightning::util::persist::KVStore::list(store, primary, secondary) {
        Ok(keys) => Ok(keys),
        Err(e) => match e.kind() {
            std::io::ErrorKind::NotFound => Err(StoreError::NotFound),
            _ => Err(StoreError::BackendIo),
        },
    }
}

/// The name under which the reference store files a namespace pair: a `1`
/// for each character of the primary namespace, a slash, and then both
/// namespaces. The slash after the ones tells where the primary namespace
/// ends, so the name gives both namespaces back.
pub open spec fn partition(primary: Seq<char>, secondary: Seq<char>) -> Seq<char> {
    Seq::new(primary.len(), |i: int| '1') + seq!['/'] + primary + secondary
}

/// Two namespace pairs with one name are the same pair.
pub proof fn partition_names_one_pair(
    primary: Seq<char>,
    secondary: Seq<char>,
    other_primary: Seq<char>,
    other_secondary: Seq<char>,
)
    requires
        partition(primary, secondary) == partition(other_primary, other_secondary),
    ensures
        primary == other_primary,
        secondary == other_secondary,
{
    let name = partition(primary, secondary);
    let other = partition(other_primary, other_secondary);
    let n = primary.len() as int;
    let m = other_primary.len() as int;
    assert(name[n] == '/');
    assert(other[m] == '/');
    if n < m {
        assert(other[n] == '1');
    } else if m < n {
        assert(name[m] == '1');
    }
    assert(n == m);
    assert forall|i: int| 0 <= i < n implies primary[i] == other_primary[i] by {
        assert(name[n + 1 + i] == primary[i]);
        assert(other[m + 1 + i] == other_primary[i]);
    }
    assert(primary =~= other_primary);
    assert(name.len() == 2 * n + 1 + secondary.len());
    assert(other.len() == 2 * m + 1 + other_secondary.len());
    assert forall|i: int| 0 <= i < secondary.len() implies secondary[i] == other_secondary[i] by {
        assert(name[2 * n + 1 + i] == secondary[i]);
        assert(other[2 * m + 1 + i] == other_secondary[i]);
    }
    assert(secondary =~= other_secondary);
}

/// The name of a namespace pair as a string.
fn partition_name(primary_namespace: &str, secondary_namespace: &str) -> (name: String)
    ensures
        name@ == partition(primary_namespace@, secondary_namespace@),
{
    let ones: usize = primary_namespace.unicode_len();
    let mut name = String::new();
    let mut i: usize = 0;
    proof {
        reveal_strlit("1");
        reveal_strlit("/");
    }
    while i < ones
        invariant
            i <= ones,
            "1"@ == seq!['1'],
            name@.len() == i,
            forall|j: int| 0 <= j < i ==> name@[j] == '1',
        decreases ones - i,
    {
        name.append("1");
        i += 1;
    }
    assert(name@ =~= Seq::new(primary_namespace@.len(), |i: int| '1'));
    name.append("/");
    name.append(primary_namespace);
    name.append(secondary_namespace);
    assert(name@ =~= partition(primary_namespace@, secondary_namespace@));
    name
}

/// The records that the reference store has filed in `held`, by the three
/// strings of their identifiers.
pub open spec fn filed(held: Held) -> Records {
    Map::new(
        |at: (Seq<char>, Seq<char>, Seq<char>)|
            held.contains_key((partition(at.0, at.1), at.2)),
        |at: (Seq<char>, Seq<char>, Seq<char>)| held[(partition(at.0, at.1), at.2)],
    )
}

/// Filing a record under the name of its namespace pair is a write to its
/// identifier and to no other.
proof fn filed_after_write(
    held: Held,
    primary: Seq<char>,
    secondary: Seq<char>,
    key: Seq<char>,
    data: Seq<u8>,
)
    ensures
        filed(held.insert((partition(primary, secondary), key), data)) == after_write(
            filed(held),
            primary,
            secondary,
            key,
            data,
        ),
{
    let after = filed(held.insert((partition(primary, secondary), key), data));
    let expected = after_write(filed(held), primary, secondary, key, data);
    assert forall|at: (Seq<char>, Seq<char>, Seq<char>)| #[trigger]
        after.dom().contains(at) == expected.dom().contains(at) && (after.dom().contains(at)
            ==> after[at] == expected[at]) by {
        if partition(at.0, at.1) == partition(primary, secondary) {
            partition_names_one_pair(at.0, at.1, primary, secondary);
            assert(at.2 == key ==> at == (primary, secondary, key));
        }
    }
    assert(after =~= expected);
}

/// Taking a record out from under the name of its namespace pair is a remove
/// of its identifier and of no other.
proof fn filed_after_remove(held: Held, primary: Seq<char>, secondary: Seq<char>, key: Seq<char>)
    ensures
        filed(held.remove((partition(primary, secondary), key))) == after_remove(
            filed(held),
            primary,
            secondary,
            key,
        ),
{
    let after = filed(held.remove((partition(primary, secondary), key)));
    let expected = after_remove(filed(held), primary, secondary, key);
    assert forall|at: (Seq<char>, Seq<char>, Seq<char>)| #[trigger]
        after.dom().contains(at) == expected.dom().contains(at) && (after.dom().contains(at)
            ==> after[at] == expected[at]) by {
        if partition(at.0, at.1) == partition(primary, secondary) {
            partition_names_one_pair(at.0, at.1, primary, secondary);
            assert(at.2 == key ==> at == (primary, secondary, key));
        }
    }
    assert(after =~= expected);
}

/// A store in memory that honours the contract: it checks each identifier,
/// keeps every namespace pair apart, and holds the records in a `TestStore`.
pub struct ReferenceStore {
    inner: TestStore,
}

impl View for ReferenceStore {
    type V = Records;

    closed spec fn view(&self) -> Records {
        filed(test_store_records(self.inner))
    }
}

impl ReferenceStore {
    #[verifier::type_invariant]
    spec fn writable(self) -> bool {
        !test_store_read_only(self.inner)
    }

    /// An empty store.
    pub fn new() -> (store: Self)
        ensures
            store@ == no_records(),
    {
        let store = ReferenceStore { inner: test_store_new(false) };
        assert(store@ =~= no_records());
        store
    }
}

impl KVStore for ReferenceStore {
    /// Returns the bytes held at the identifier, not-found where there are
    /// none, and refuses an invalid identifier.
    fn read(&self, primary_namespace: &str, secondary_namespace: &str, key: &str) -> (found: Result<
        Vec<u8>,
        StoreError,
    >)
        ensures
            !valid_identifier(primary_namespace@, secondary_namespace@, key@) ==> fails_with(
                found,
                StoreError::InvalidIdentifier,
            ),
            valid_identifier(primary_namespace@, secondary_namespace@, key@) ==> bytes_view(found)
                == read_result(self@, primary_namespace@, secondary_namespace@, key@),
    {
        if check_identifier(primary_namespace, secondary_namespace, key).is_err() {
            return Err(StoreError::InvalidIdentifier);
        }
        let name = partition_name(primary_namespace, secondary_namespace);
        let none = String::new();
        test_store_read(&self.inner, name.as_str(), none.as_str(), key)
    }

    /// Holds `buf` at the identifier from now on, and refuses an invalid
    /// identifier without a change.
    fn write(
        &mut self,
        primary_namespace: &str,
        secondary_namespace: &str,
        key: &str,
        buf: &[u8],
    ) -> (done: Result<(), StoreError>)
        ensures
            !valid_identifier(primary_namespace@, secondary_namespace@, key@) ==> fails_with(
                done,
                StoreError::InvalidIdentifier,
            ) && final(self)@ == old(self)@,
            valid_identifier(primary_namespace@, secondary_namespace@, key@) ==> done is Ok
                && final(self)@ == after_write(
                old(self)@,
                primary_namespace@,
                secondary_namespace@,
                key@,
                buf@,
            ),
    {
        proof {
            use_type_invariant(&*self);
        }
        if check_identifier(primary_namespace, secondary_namespace, key).is_err() {
            return Err(StoreError::InvalidIdentifier);
        }
        let name = partition_name(primary_namespace, secondary_namespace);
        let none = String::new();
        proof {
            filed_after_write(
                test_store_records(self.inner),
                primary_namespace@,
                secondary_namespace@,
                key@,
                buf@,
            );
        }
        test_store_write(&mut self.inner, name.as_str(), none.as_str(), key, buf)
    }

    /// Holds nothing at the identifier from now on, with `lazy` or without,
    /// and refuses an invalid identifier without a change.
    fn remove(
        &mut self,
        primary_namespace: &str,
        secondary_namespace: &str,
        key: &str,
        lazy: bool,
    ) -> (done: Result<(), StoreError>)
        ensures
            !valid_identifier(primary_namespace@, secondary_namespace@, key@) ==> fails_with(
                done,
                StoreError::InvalidIdentifier,
            ) && final(self)@ == old(self)@,
            valid_identifier(primary_namespace@, secondary_namespace@, key@) ==> done is Ok
                && final(self)@ == after_remove(
                old(self)@,
                primary_namespace@,
                secondary_namespace@,
                key@,
            ),
    {
        proof {
            use_type_invariant(&*self);
        }
        if check_identifier(primary_namespace, secondary_namespace, key).is_err() {
            return Err(StoreError::InvalidIdentifier);
        }
        let name = partition_name(primary_namespace, secondary_namespace);
        let none = String::new();
        proof {
            filed_after_remove(
                test_store_records(self.inner),
                primary_namespace@,
                secondary_namespace@,
                key@,
            );
        }
        test_store_remove(&mut self.inner, name.as_str(), none.as_str(), key, lazy)
    }

    /// Returns each key held under the namespace pair once, in no stated
    /// order. A pair that holds nothing lists nothing.
    fn list(&self, primary_namespace: &str, secondary_namespace: &str) -> (listed: Result<
        Vec<String>,
        StoreError,
    >)
        ensures
            lists_exactly(
                keys_view(listed),
                listed_keys(self@, primary_namespace@, secondary_namespace@),
            ),
    {
        let name = partition_name(primary_namespace, secondary_namespace);
        let none = String::new();
        let listed = test_store_list(&self.inner, name.as_str(), none.as_str());
        assert(held_keys(test_store_records(self.inner), name@, none@) =~= listed_keys(
            self@,
            primary_namespace@,
            secondary_namespace@,
        ));
        listed
    }
}

} // verus!
