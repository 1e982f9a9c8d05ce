//! The consistency oracle: a primary backend, a secondary backend and the
//! reference store behind one interface. Every call goes to all three, and
//! an answer is given only where they agree.
//!
//! `read` and `list` borrow the oracle shared, `write` and `remove` borrow it
//! exclusively: behind a reader-writer lock, reads run side by side and every
//! update runs alone.

use vstd::prelude::*;
use vstd::seq_lib::to_multiset_contains;
use crate::error::{
    StoreError, OracleError, is_inconsistent, backends_disagree, between_backends, passes_on,
};
use crate::identifier::{check_identifier, valid_identifier};
use crate::store::{
    Records, no_records, read_result, after_write, after_remove, listed_keys,
    write_changes_one_record, remove_changes_one_record, KVStore,
};
use crate::reference::ReferenceStore;
use crate::listing::sorted_keys;
use crate::reconcile::{
    reconcile_read, reconcile_list, reconcile_write, reconcile_remove, found_view, listing_view,
};

verus! {

/// Three backends that are written, read and listed together: the primary
/// one, whose outcomes are passed on, the secondary one, and the reference
/// store, which the oracle makes for itself.
pub struct TestSyncStore<F: KVStore, S: KVStore> {
    primary: F,
    secondary: S,
    reference: ReferenceStore,
}

/// What a read through the oracle may answer while the reference store holds
/// `records`: the bytes that the reference holds, not-found where it holds
/// none, or a disagreement.
pub open spec fn read_answer(
    found: Result<Seq<u8>, OracleError>,
    records: Records,
    primary: Seq<char>,
    secondary: Seq<char>,
    key: Seq<char>,
) -> bool {
    match found {
        Ok(bytes) => read_result(records, primary, secondary, key) == Ok::<Seq<u8>, StoreError>(
            bytes,
        ),
        Err(OracleError::Store(e)) => read_result(records, primary, secondary, key) == Err::<
            Seq<u8>,
            StoreError,
        >(e),
        Err(OracleError::Inconsistent(d)) => between_backends(d),
    }
}

/// What a listing through the oracle may answer while the reference store
/// holds `records`: each key of the namespace pair once, in ascending order,
/// or a disagreement.
pub open spec fn list_answer(
    listed: Result<Seq<Seq<char>>, OracleError>,
    records: Records,
    primary: Seq<char>,
    secondary: Seq<char>,
) -> bool {
    match listed {
        Ok(keys) => sorted_keys(keys) && keys.no_duplicates() && keys.to_set() == listed_keys(
            records,
            primary,
            secondary,
        ),
        Err(OracleError::Inconsistent(d)) => between_backends(d),
        Err(OracleError::Store(_)) => false,
    }
}

impl<F: KVStore, S: KVStore> View for TestSyncStore<F, S> {
    type V = Records;

    /// The records of the reference store, which every answer is held against.
    closed spec fn view(&self) -> Records {
        self.reference@
    }
}

impl<F: KVStore, S: KVStore> TestSyncStore<F, S> {
    /// The primary backend, whose outcomes the oracle passes on.
    pub closed spec fn primary(&self) -> F {
        self.primary
    }

    /// The secondary backend.
    pub closed spec fn secondary(&self) -> S {
        self.secondary
    }

    /// The two backends, as they are when the oracle is taken apart.
    pub fn into_backends(self) -> (backends: (F, S))
        ensures
            backends.0 == self.primary(),
            backends.1 == self.secondary(),
    {
        (self.primary, self.secondary)
    }

    /// An oracle over the two backends and a new, empty reference store. The
    /// backends should hold no records either.
    pub fn new(primary: F, secondary: S) -> (oracle: Self)
        ensures
            oracle@ == no_records(),
            oracle.primary() == primary,
            oracle.secondary() == secondary,
    {
        TestSyncStore { primary, secondary, reference: ReferenceStore::new() }
    }

    /// Lists the namespace pair on all three backends and judges the three
    /// listings.
    fn do_list(&self, primary_namespace: &str, secondary_namespace: &str) -> (listed: Result<
        Vec<String>,
        OracleError,
    >)
        ensures
            list_answer(listing_view(listed), self@, primary_namespace@, secondary_namespace@),
    {
        let primary_res = self.primary.list(primary_namespace, secondary_namespace);
        let secondary_res = self.secondary.list(primary_namespace, secondary_namespace);
        let reference_res = self.reference.list(primary_namespace, secondary_namespace);
        let listed = reconcile_list(primary_res, secondary_res, reference_res);
        proof {
            if listed is Ok {
                let sorted = listed->Ok_0.deep_view();
                let expected = reference_res->Ok_0.deep_view();
                assert(sorted.to_multiset() == expected.to_multiset());
                same_keys_same_set(sorted, expected);
            }
        }
        listed
    }

    /// Reads from all three backends. An invalid identifier is refused before
    /// any backend is asked.
    pub fn read(&self, primary_namespace: &str, secondary_namespace: &str, key: &str) -> (found:
        Result<Vec<u8>, OracleError>)
        ensures
            !valid_identifier(primary_namespace@, secondary_namespace@, key@) ==> passes_on(
                found,
                StoreError::InvalidIdentifier,
            ),
            valid_identifier(primary_namespace@, secondary_namespace@, key@) ==> read_answer(
                found_view(found),
                self@,
                primary_namespace@,
                secondary_namespace@,
                key@,
            ),
    {
        if check_identifier(primary_namespace, secondary_namespace, key).is_err() {
            return Err(OracleError::Store(StoreError::InvalidIdentifier));
        }
        let primary_res = self.primary.read(primary_namespace, secondary_namespace, key);
        let secondary_res = self.secondary.read(primary_namespace, secondary_namespace, key);
        let reference_res = self.reference.read(primary_namespace, secondary_namespace, key);
        reconcile_read(primary_res, secondary_res, reference_res)
    }

    /// Writes to all three backends and lists the namespace pair to see the
    /// key. An invalid identifier is refused before any backend is asked, and
    /// leaves the oracle as it was. For a valid one the reference store holds
    /// the bytes afterwards, whatever the answer; since the reference store
    /// takes every such write, a failure of the primary is a disagreement.
    pub fn write(
        &mut self,
        primary_namespace: &str,
        secondary_namespace: &str,
        key: &str,
        buf: &[u8],
    ) -> (done: Result<(), OracleError>)
        ensures
            !valid_identifier(primary_namespace@, secondary_namespace@, key@) ==> passes_on(
                done,
                StoreError::InvalidIdentifier,
            ) && *final(self) == *old(self),
            valid_identifier(primary_namespace@, secondary_namespace@, key@) ==> (done is Ok
                || backends_disagree(done)) && final(self)@ == after_write(
                old(self)@,
                primary_namespace@,
                secondary_namespace@,
                key@,
                buf@,
            ),
    {
        if check_identifier(primary_namespace, secondary_namespace, key).is_err() {
            return Err(OracleError::Store(StoreError::InvalidIdentifier));
        }
        let primary_res = self.primary.write(primary_namespace, secondary_namespace, key, buf);
        let secondary_res = self.secondary.write(primary_namespace, secondary_namespace, key, buf);
        let reference_res = self.reference.write(primary_namespace, secondary_namespace, key, buf);
        let listing = self.do_list(primary_namespace, secondary_namespace);
        proof {
            if listing is Ok {
                let keys = listing->Ok_0.deep_view();
                assert(listed_keys(self@, primary_namespace@, secondary_namespace@).contains(key@));
                assert(keys.to_set().contains(key@));
            }
        }
        reconcile_write(primary_res, secondary_res, reference_res, &listing, key)
    }

    /// Removes from all three backends and lists the namespace pair to see the
    /// key gone. An invalid identifier is refused before any backend is asked,
    /// and leaves the oracle as it was. For a valid one the reference store
    /// holds no record there afterwards, whatever the answer.
    pub fn remove(
        &mut self,
        primary_namespace: &str,
        secondary_namespace: &str,
        key: &str,
        lazy: bool,
    ) -> (done: Result<(), OracleError>)
        ensures
            !valid_identifier(primary_namespace@, secondary_namespace@, key@) ==> passes_on(
                done,
                StoreError::InvalidIdentifier,
            ) && *final(self) == *old(self),
            valid_identifier(primary_namespace@, secondary_namespace@, key@) ==> (done is Ok
                || backends_disagree(done)) && final(self)@ == after_remove(
                old(self)@,
                primary_namespace@,
                secondary_namespace@,
                key@,
            ),
    {
        if check_identifier(primary_namespace, secondary_namespace, key).is_err() {
            return Err(OracleError::Store(StoreError::InvalidIdentifier));
        }
        let primary_res = self.primary.remove(primary_namespace, secondary_namespace, key, lazy);
        let secondary_res = self.secondary.remove(
            primary_namespace,
            secondary_namespace,
            key,
            lazy,
        );
        let reference_res = self.reference.remove(
            primary_namespace,
            secondary_namespace,
            key,
            lazy,
        );
        let listing = self.do_list(primary_namespace, secondary_namespace);
        proof {
            if listing is Ok {
                let keys = listing->Ok_0.deep_view();
                assert(!listed_keys(self@, primary_namespace@, secondary_namespace@).contains(
                    key@,
                ));
                assert(!keys.to_set().contains(key@));
            }
        }
        reconcile_remove(primary_res, secondary_res, reference_res, &listing, key)
    }

    /// Lists the namespace pair on all three backends.
    pub fn list(&self, primary_namespace: &str, secondary_namespace: &str) -> (listed: Result<
        Vec<String>,
        OracleError,
    >)
        ensures
            list_answer(listing_view(listed), self@, primary_namespace@, secondary_namespace@),
    {
        self.do_list(primary_namespace, secondary_namespace)
    }
}

/// Listings with the same keys as often name the same set of keys, and
/// neither repeats a key unless the other does.
proof fn same_keys_same_set(a: Seq<Seq<char>>, b: Seq<Seq<char>>)
    requires
        a.to_multiset() == b.to_multiset(),
    ensures
        a.to_set() == b.to_set(),
        b.no_duplicates() ==> a.no_duplicates(),
{
    assert forall|key: Seq<char>| a.contains(key) == b.contains(key) by {
        to_multiset_contains(a, key);
        to_multiset_contains(b, key);
    }
    assert(a.to_set() =~= b.to_set());
    if b.no_duplicates() {
        b.lemma_multiset_has_no_duplicates();
        a.lemma_multiset_has_no_duplicates_conv();
    }
}

/// A read through the oracle after a write of the same identifier answers
/// the bytes written, unless it reports a disagreement.
pub proof fn read_after_write(
    before: Records,
    primary: Seq<char>,
    secondary: Seq<char>,
    key: Seq<char>,
    data: Seq<u8>,
    found: Result<Seq<u8>, OracleError>,
)
    requires
        read_answer(
            found,
            after_write(before, primary, secondary, key, data),
            primary,
            secondary,
            key,
        ),
    ensures
        found == Ok::<Seq<u8>, OracleError>(data) || is_inconsistent(found),
{
}

/// A listing through the oracle after a write and a remove of one identifier
/// does not name its key.
pub proof fn list_after_write_and_remove(
    before: Records,
    primary: Seq<char>,
    secondary: Seq<char>,
    key: Seq<char>,
    data: Seq<u8>,
    listed: Result<Seq<Seq<char>>, OracleError>,
)
    requires
        list_answer(
            listed,
            after_remove(
                after_write(before, primary, secondary, key, data),
                primary,
                secondary,
                key,
            ),
            primary,
            secondary,
        ),
    ensures
        listed matches Ok(keys) ==> !keys.contains(key),
{
    if let Ok(keys) = listed {
        if keys.contains(key) {
            assert(keys.to_set().contains(key));
        }
    }
}

/// A listing through the oracle after a write names the key written, once,
/// besides the keys that the namespace pair held before.
pub proof fn list_after_write(
    before: Records,
    primary: Seq<char>,
    secondary: Seq<char>,
    key: Seq<char>,
    data: Seq<u8>,
    listed: Result<Seq<Seq<char>>, OracleError>,
)
    requires
        list_answer(
            listed,
            after_write(before, primary, secondary, key, data),
            primary,
            secondary,
        ),
    ensures
        listed matches Ok(keys) ==> keys.contains(key) && keys.no_duplicates() && keys.to_set()
            == listed_keys(before, primary, secondary).insert(key),
{
    write_changes_one_record(before, primary, secondary, key, data);
    if let Ok(keys) = listed {
        assert(keys.to_set().contains(key));
    }
}

/// A listing through the oracle after a remove names the keys that the
/// namespace pair held before, without the key removed.
pub proof fn list_after_remove(
    before: Records,
    primary: Seq<char>,
    secondary: Seq<char>,
    key: Seq<char>,
    listed: Result<Seq<Seq<char>>, OracleError>,
)
    requires
        list_answer(listed, after_remove(before, primary, secondary, key), primary, secondary),
    ensures
        listed matches Ok(keys) ==> !keys.contains(key) && keys.to_set() == listed_keys(
            before,
            primary,
            secondary,
        ).remove(key),
{
    remove_changes_one_record(before, primary, secondary, key);
    if let Ok(keys) = listed {
        if keys.contains(key) {
            assert(keys.to_set().contains(key));
        }
    }
}

/// A write through the oracle changes nothing elsewhere: every other
/// namespace pair lists, and every other identifier reads, as before it.
pub proof fn write_leaves_other_answers(
    before: Records,
    primary: Seq<char>,
    secondary: Seq<char>,
    key: Seq<char>,
    data: Seq<u8>,
    other_primary: Seq<char>,
    other_secondary: Seq<char>,
    other_key: Seq<char>,
    listed: Result<Seq<Seq<char>>, OracleError>,
    found: Result<Seq<u8>, OracleError>,
)
    ensures
        (other_primary, other_secondary) != (primary, secondary) ==> list_answer(
            listed,
            after_write(before, primary, secondary, key, data),
            other_primary,
            other_secondary,
        ) == list_answer(listed, before, other_primary, other_secondary),
        (other_primary, other_secondary, other_key) != (primary, secondary, key) ==> read_answer(
            found,
            after_write(before, primary, secondary, key, data),
            other_primary,
            other_secondary,
            other_key,
        ) == read_answer(found, before, other_primary, other_secondary, other_key),
{
    write_changes_one_record(before, primary, secondary, key, data);
}

/// A remove through the oracle changes nothing elsewhere: every other
/// namespace pair lists as before it, even where it holds an equal key, and
/// every other identifier reads as before it.
pub proof fn remove_leaves_other_answers(
    before: Records,
    primary: Seq<char>,
    secondary: Seq<char>,
    key: Seq<char>,
    other_primary: Seq<char>,
    other_secondary: Seq<char>,
    other_key: Seq<char>,
    listed: Result<Seq<Seq<char>>, OracleError>,
    found: Result<Seq<u8>, OracleError>,
)
    ensures
        (other_primary, other_secondary) != (primary, secondary) ==> list_answer(
            listed,
            after_remove(before, primary, secondary, key),
            other_primary,
            other_secondary,
        ) == list_answer(listed, before, other_primary, other_secondary),
        (other_primary, other_secondary, other_key) != (primary, secondary, key) ==> read_answer(
            found,
            after_remove(before, primary, secondary, key),
            other_primary,
            other_secondary,
            other_key,
        ) == read_answer(found, before, other_primary, other_secondary, other_key),
{
    remove_changes_one_record(before, primary, secondary, key);
}

} // verus!
