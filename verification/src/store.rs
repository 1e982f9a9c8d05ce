//! The store contract: the four operations of a backend, and the mathematical
//! model of what a store that honours the contract holds.

use vstd::prelude::*;
use crate::error::StoreError;

verus! {

/// The records of a store: bytes by primary namespace, secondary namespace
/// and key. Two identifiers are one where all three strings are equal, and
/// a namespace pair is a partition of its own.
pub type Records = Map<(Seq<char>, Seq<char>, Seq<char>), Seq<u8>>;

/// A store without records.
pub open spec fn no_records() -> Records {
    Map::empty()
}

/// What a read returns from a store that holds `records`.
pub open spec fn read_result(
    records: Records,
    primary: Seq<char>,
    secondary: Seq<char>,
    key: Seq<char>,
) -> Result<Seq<u8>, StoreError> {
    if records.contains_key((primary, secondary, key)) {
        Ok(records[(primary, secondary, key)])
    } else {
        Err(StoreError::NotFound)
    }
}

/// The records after a write: the last write wins.
pub open spec fn after_write(
    records: Records,
    primary: Seq<char>,
    secondary: Seq<char>,
    key: Seq<char>,
    data: Seq<u8>,
) -> Records {
    records.insert((primary, secondary, key), data)
}

/// The records after a remove, whether or not the record was there.
pub open spec fn after_remove(
    records: Records,
    primary: Seq<char>,
    secondary: Seq<char>,
    key: Seq<char>,
) -> Records {
    records.remove((primary, secondary, key))
}

/// The keys that a listing of the namespace pair returns.
pub open spec fn listed_keys(records: Records, primary: Seq<char>, secondary: Seq<char>) -> Set<
    Seq<char>,
> {
    Set::new(|key: Seq<char>| records.contains_key((primary, secondary, key)))
}

/// The bytes of a read as a sequence.
pub open spec fn bytes_view(found: Result<Vec<u8>, StoreError>) -> Result<Seq<u8>, StoreError> {
    match found {
        Ok(bytes) => Ok(bytes@),
        Err(e) => Err(e),
    }
}

/// The keys of a listing as a sequence of character sequences.
pub open spec fn keys_view(listed: Result<Vec<String>, StoreError>) -> Result<
    Seq<Seq<char>>,
    StoreError,
> {
    match listed {
        Ok(keys) => Ok(keys.deep_view()),
        Err(e) => Err(e),
    }
}

/// A listing that names each key of `expected` once, in some order.
pub open spec fn lists_exactly(
    listed: Result<Seq<Seq<char>>, StoreError>,
    expected: Set<Seq<char>>,
) -> bool {
    match listed {
        Ok(keys) => keys.no_duplicates() && keys.to_set() == expected,
        Err(_) => false,
    }
}

/// The operations of one backend. An implementation answers for its own
/// storage; nothing is assumed of what it returns.
pub trait KVStore {
    /// Returns the bytes last written at the identifier.
    fn read(&self, primary_namespace: &str, secondary_namespace: &str, key: &str) -> Result<
        Vec<u8>,
        StoreError,
    >;

    /// Stores `buf` at the identifier, in place of any earlier record.
    fn write(
        &mut self,
        primary_namespace: &str,
        secondary_namespace: &str,
        key: &str,
        buf: &[u8],
    ) -> Result<(), StoreError>;

    /// Removes the record at the identifier, if there is one. With `lazy` the
    /// backend may reclaim the space later; the record is gone at once.
    fn remove(
        &mut self,
        primary_namespace: &str,
        secondary_namespace: &str,
        key: &str,
        lazy: bool,
    ) -> Result<(), StoreError>;

    /// Returns the keys stored under the namespace pair, in any order.
    fn list(&self, primary_namespace: &str, secondary_namespace: &str) -> Result<
        Vec<String>,
        StoreError,
    >;
}

/// A read of what was just written returns the bytes written.
pub proof fn write_then_read(
    records: Records,
    primary: Seq<char>,
    secondary: Seq<char>,
    key: Seq<char>,
    data: Seq<u8>,
)
    ensures
        read_result(after_write(records, primary, secondary, key, data), primary, secondary, key)
            == Ok::<Seq<u8>, StoreError>(data),
{
}

/// After a write and a remove of one identifier, a listing of its namespace
/// pair does not name its key.
pub proof fn write_remove_then_list(
    records: Records,
    primary: Seq<char>,
    secondary: Seq<char>,
    key: Seq<char>,
    data: Seq<u8>,
)
    ensures
        !listed_keys(
            after_remove(
                after_write(records, primary, secondary, key, data),
                primary,
                secondary,
                key,
            ),
            primary,
            secondary,
        ).contains(key),
{
}

/// A write changes one record: its namespace pair lists the key besides what
/// it listed, every other pair lists what it listed, and every other
/// identifier reads as it read.
pub proof fn write_changes_one_record(
    records: Records,
    primary: Seq<char>,
    secondary: Seq<char>,
    key: Seq<char>,
    data: Seq<u8>,
)
    ensures
        listed_keys(after_write(records, primary, secondary, key, data), primary, secondary)
            == listed_keys(records, primary, secondary).insert(key),
        forall|p: Seq<char>, s: Seq<char>|
            (p, s) != (primary, secondary) ==> #[trigger] listed_keys(
                after_write(records, primary, secondary, key, data),
                p,
                s,
            ) == listed_keys(records, p, s),
        forall|p: Seq<char>, s: Seq<char>, k: Seq<char>|
            (p, s, k) != (primary, secondary, key) ==> #[trigger] read_result(
                after_write(records, primary, secondary, key, data),
                p,
                s,
                k,
            ) == read_result(records, p, s, k),
{
    let after = after_write(records, primary, secondary, key, data);
    assert(listed_keys(after, primary, secondary) =~= listed_keys(
        records,
        primary,
        secondary,
    ).insert(key));
    assert forall|p: Seq<char>, s: Seq<char>| (p, s) != (primary, secondary) implies #[trigger]
        listed_keys(after, p, s) == listed_keys(records, p, s) by {
        assert(listed_keys(after, p, s) =~= listed_keys(records, p, s));
    }
}

/// A remove changes one record: its namespace pair lists what it listed
/// without the key, every other pair lists what it listed, even where it
/// holds an equal key, and every other identifier reads as it read.
pub proof fn remove_changes_one_record(
    records: Records,
    primary: Seq<char>,
    secondary: Seq<char>,
    key: Seq<char>,
)
    ensures
        listed_keys(after_remove(records, primary, secondary, key), primary, secondary)
            == listed_keys(records, primary, secondary).remove(key),
        forall|p: Seq<char>, s: Seq<char>|
            (p, s) != (primary, secondary) ==> #[trigger] listed_keys(
                after_remove(records, primary, secondary, key),
                p,
                s,
            ) == listed_keys(records, p, s),
        forall|p: Seq<char>, s: Seq<char>, k: Seq<char>|
            (p, s, k) != (primary, secondary, key) ==> #[trigger] read_result(
                after_remove(records, primary, secondary, key),
                p,
                s,
                k,
            ) == read_result(records, p, s, k),
{
    let after = after_remove(records, primary, secondary, key);
    assert(listed_keys(after, primary, secondary) =~= listed_keys(
        records,
        primary,
        secondary,
    ).remove(key));
    assert forall|p: Seq<char>, s: Seq<char>| (p, s) != (primary, secondary) implies #[trigger]
        listed_keys(after, p, s) == listed_keys(records, p, s) by {
        assert(listed_keys(after, p, s) =~= listed_keys(records, p, s));
    }
}

/// After a write, a listing of the namespace pair names the key, and goes on
/// naming it while other identifiers are written or removed.
pub proof fn written_key_is_listed(
    records: Records,
    primary: Seq<char>,
    secondary: Seq<char>,
    key: Seq<char>,
    data: Seq<u8>,
)
    ensures
        listed_keys(
            after_write(records, primary, secondary, key, data),
            primary,
            secondary,
        ).contains(key),
        forall|p: Seq<char>, s: Seq<char>, k: Seq<char>, d: Seq<u8>|
            (p, s, k) != (primary, secondary, key) ==> {
                &&& #[trigger] listed_keys(
                    after_write(after_write(records, primary, secondary, key, data), p, s, k, d),
                    primary,
                    secondary,
                ).contains(key)
                &&& listed_keys(
                    after_remove(after_write(records, primary, secondary, key, data), p, s, k),
                    primary,
                    secondary,
                ).contains(key)
            },
{
}

/// After a remove, a listing of the namespace pair does not name the key and
/// a read finds nothing, and so it stays while other identifiers are written
/// or removed.
pub proof fn removed_key_is_gone(
    records: Records,
    primary: Seq<char>,
    secondary: Seq<char>,
    key: Seq<char>,
)
    ensures
        !listed_keys(after_remove(records, primary, secondary, key), primary, secondary).contains(
            key,
        ),
        read_result(after_remove(records, primary, secondary, key), primary, secondary, key)
            == Err::<Seq<u8>, StoreError>(StoreError::NotFound),
        forall|p: Seq<char>, s: Seq<char>, k: Seq<char>, d: Seq<u8>|
            (p, s, k) != (primary, secondary, key) ==> {
                &&& !(#[trigger] listed_keys(
                    after_write(after_remove(records, primary, secondary, key), p, s, k, d),
                    primary,
                    secondary,
                )).contains(key)
                &&& !listed_keys(
                    after_remove(after_remove(records, primary, secondary, key), p, s, k),
                    primary,
                    secondary,
                ).contains(key)
            },
{
}

/// A write is idempotent: the same bytes written twice leave what one write leaves.
pub proof fn write_is_idempotent(
    records: Records,
    primary: Seq<char>,
    secondary: Seq<char>,
    key: Seq<char>,
    data: Seq<u8>,
)
    ensures
        after_write(
            after_write(records, primary, secondary, key, data),
            primary,
            secondary,
            key,
            data,
        ) == after_write(records, primary, secondary, key, data),
{
    assert(after_write(
        after_write(records, primary, secondary, key, data),
        primary,
        secondary,
        key,
        data,
    ) =~= after_write(records, primary, secondary, key, data));
}

/// The last write wins: a second write replaces the bytes of the first.
pub proof fn last_write_wins(
    records: Records,
    primary: Seq<char>,
    secondary: Seq<char>,
    key: Seq<char>,
    first: Seq<u8>,
    second: Seq<u8>,
)
    ensures
        after_write(
            after_write(records, primary, secondary, key, first),
            primary,
            secondary,
            key,
            second,
        ) == after_write(records, primary, secondary, key, second),
        listed_keys(
            after_write(records, primary, secondary, key, second),
            primary,
            secondary,
        ) == listed_keys(after_write(records, primary, secondary, key, first), primary, secondary),
{
    assert(after_write(
        after_write(records, primary, secondary, key, first),
        primary,
        secondary,
        key,
        second,
    ) =~= after_write(records, primary, secondary, key, second));
    assert(listed_keys(after_write(records, primary, secondary, key, second), primary, secondary)
        =~= listed_keys(after_write(records, primary, secondary, key, first), primary, secondary));
}

/// Removing a record that is not there changes nothing.
pub proof fn remove_of_absent_changes_nothing(
    records: Records,
    primary: Seq<char>,
    secondary: Seq<char>,
    key: Seq<char>,
)
    requires
        !records.contains_key((primary, secondary, key)),
    ensures
        after_remove(records, primary, secondary, key) == records,
{
    assert(after_remove(records, primary, secondary, key) =~= records);
}

/// A namespace pair of a store without records lists nothing.
pub proof fn empty_store_lists_nothing(primary: Seq<char>, secondary: Seq<char>)
    ensures
        listed_keys(no_records(), primary, secondary) == Set::<Seq<char>>::empty(),
{
    assert(listed_keys(no_records(), primary, secondary) =~= Set::<Seq<char>>::empty());
}

} // verus!
