use std::cell::Cell;
use std::collections::HashMap;
use std::rc::Rc;

use kvstore_conformance::error::{Divergence, OracleError, Replica, StoreError};
use kvstore_conformance::identifier::check_identifier;
use kvstore_conformance::oracle::TestSyncStore;
use kvstore_conformance::store::KVStore;

/// The ways in which a backend under test can be made to misbehave.
#[derive(Clone, Copy, PartialEq, Eq, Debug)]
enum Fault {
    Sound,
    CorruptReads,
    ForgetWrites,
    KeepRemoved,
    ReadsFailWithIo,
    ReadsMissEverything,
    WritesFailButStore,
    RemovesFailButRemove,
    ListsFail,
    ListsTwice,
}

/// A backend in memory that counts the calls made to it.
struct MemoryStore {
    records: HashMap<(String, String, String), Vec<u8>>,
    fault: Fault,
    calls: Rc<Cell<usize>>,
}

impl MemoryStore {
    fn new() -> Self {
        MemoryStore::with(Fault::Sound)
    }

    fn with(fault: Fault) -> Self {
        MemoryStore { records: HashMap::new(), fault, calls: Rc::new(Cell::new(0)) }
    }

    fn counter(&self) -> Rc<Cell<usize>> {
        self.calls.clone()
    }

    fn called(&self) {
        self.calls.set(self.calls.get() + 1);
    }
}

fn at(primary: &str, secondary: &str, key: &str) -> (String, String, String) {
    (primary.to_string(), secondary.to_string(), key.to_string())
}

impl KVStore for MemoryStore {
    fn read(&self, primary: &str, secondary: &str, key: &str) -> Result<Vec<u8>, StoreError> {
        self.called();
        if check_identifier(primary, secondary, key).is_err() {
            return Err(StoreError::InvalidIdentifier);
        }
        match self.fault {
            Fault::ReadsFailWithIo => return Err(StoreError::BackendIo),
            Fault::ReadsMissEverything => return Err(StoreError::NotFound),
            _ => {}
        }
        match self.records.get(&at(primary, secondary, key)) {
            Some(bytes) => {
                let mut bytes = bytes.clone();
                if self.fault == Fault::CorruptReads {
                    bytes.push(0);
                }
                Ok(bytes)
            }
            None => Err(StoreError::NotFound),
        }
    }

    fn write(
        &mut self,
        primary: &str,
        secondary: &str,
        key: &str,
        buf: &[u8],
    ) -> Result<(), StoreError> {
        self.called();
        if check_identifier(primary, secondary, key).is_err() {
            return Err(StoreError::InvalidIdentifier);
        }
        if self.fault != Fault::ForgetWrites {
            self.records.insert(at(primary, secondary, key), buf.to_vec());
        }
        if self.fault == Fault::WritesFailButStore {
            return Err(StoreError::BackendIo);
        }
        Ok(())
    }

    fn remove(
        &mut self,
        primary: &str,
        secondary: &str,
        key: &str,
        _lazy: bool,
    ) -> Result<(), StoreError> {
        self.called();
        if check_identifier(primary, secondary, key).is_err() {
            return Err(StoreError::InvalidIdentifier);
        }
        if self.fault != Fault::KeepRemoved {
            self.records.remove(&at(primary, secondary, key));
        }
        if self.fault == Fault::RemovesFailButRemove {
            return Err(StoreError::BackendIo);
        }
        Ok(())
    }

    fn list(&self, primary: &str, secondary: &str) -> Result<Vec<String>, StoreError> {
        self.called();
        if self.fault == Fault::ListsFail {
            return Err(StoreError::BackendIo);
        }
        let mut keys = Vec::new();
        for (p, s, k) in self.records.keys() {
            if p == primary && s == secondary {
                keys.push(k.clone());
                if self.fault == Fault::ListsTwice {
                    keys.push(k.clone());
                }
            }
        }
        Ok(keys)
    }
}

fn oracle() -> TestSyncStore<MemoryStore, MemoryStore> {
    TestSyncStore::new(MemoryStore::new(), MemoryStore::new())
}

fn faulty(primary: Fault, secondary: Fault) -> TestSyncStore<MemoryStore, MemoryStore> {
    TestSyncStore::new(MemoryStore::with(primary), MemoryStore::with(secondary))
}

fn inconsistent<T>(d: Divergence) -> Result<T, OracleError> {
    Err(OracleError::Inconsistent(d))
}

fn repeated(c: char, n: usize) -> String {
    let mut s = String::new();
    for _ in 0..n {
        s.push(c);
    }
    s
}

const DATA: [u8; 32] = [42u8; 32];

#[test]
fn oracle_write_then_read_returns_the_bytes() {
    let mut store = oracle();
    assert_eq!(store.write("testspace", "testsubspace", "testkey", &DATA), Ok(()));
    assert_eq!(store.read("testspace", "testsubspace", "testkey"), Ok(DATA.to_vec()));
}

#[test]
fn oracle_write_then_list_names_the_key() {
    let mut store = oracle();
    assert_eq!(store.write("testspace", "testsubspace", "testkey", &DATA), Ok(()));
    assert_eq!(store.list("testspace", "testsubspace"), Ok(vec!["testkey".to_string()]));
}

#[test]
fn oracle_write_remove_then_list_is_empty() {
    let mut store = oracle();
    assert_eq!(store.write("testspace", "testsubspace", "testkey", &DATA), Ok(()));
    assert_eq!(store.remove("testspace", "testsubspace", "testkey", false), Ok(()));
    assert_eq!(store.list("testspace", "testsubspace"), Ok(Vec::<String>::new()));
    assert_eq!(
        store.read("testspace", "testsubspace", "testkey"),
        Err(OracleError::Store(StoreError::NotFound))
    );
}

#[test]
fn oracle_lists_an_unknown_namespace_as_empty() {
    let store = oracle();
    assert_eq!(store.list("nothing", "here"), Ok(Vec::<String>::new()));
    assert_eq!(store.list("", ""), Ok(Vec::<String>::new()));
}

#[test]
fn oracle_read_of_missing_record_is_not_found() {
    let store = oracle();
    assert_eq!(
        store.read("testspace", "testsubspace", "testkey"),
        Err(OracleError::Store(StoreError::NotFound))
    );
}

#[test]
fn oracle_remove_of_missing_record_succeeds() {
    let mut store = oracle();
    assert_eq!(store.remove("testspace", "testsubspace", "testkey", false), Ok(()));
    assert_eq!(store.remove("testspace", "testsubspace", "testkey", true), Ok(()));
}

#[test]
fn oracle_lazy_remove_hides_the_record_at_once() {
    let mut store = oracle();
    assert_eq!(store.write("testspace", "", "testkey", &DATA), Ok(()));
    assert_eq!(store.remove("testspace", "", "testkey", true), Ok(()));
    assert_eq!(store.list("testspace", ""), Ok(Vec::<String>::new()));
    assert_eq!(
        store.read("testspace", "", "testkey"),
        Err(OracleError::Store(StoreError::NotFound))
    );
}

#[test]
fn oracle_last_write_wins() {
    let mut store = oracle();
    assert_eq!(store.write("testspace", "testsubspace", "testkey", &[1, 2, 3]), Ok(()));
    assert_eq!(store.write("testspace", "testsubspace", "testkey", &[9]), Ok(()));
    assert_eq!(store.read("testspace", "testsubspace", "testkey"), Ok(vec![9]));
    assert_eq!(store.list("testspace", "testsubspace"), Ok(vec!["testkey".to_string()]));
}

#[test]
fn oracle_write_is_idempotent() {
    let mut store = oracle();
    assert_eq!(store.write("testspace", "testsubspace", "testkey", &DATA), Ok(()));
    assert_eq!(store.write("testspace", "testsubspace", "testkey", &DATA), Ok(()));
    assert_eq!(store.read("testspace", "testsubspace", "testkey"), Ok(DATA.to_vec()));
    assert_eq!(store.list("testspace", "testsubspace"), Ok(vec!["testkey".to_string()]));
}

#[test]
fn oracle_accepts_the_global_namespace() {
    let mut store = oracle();
    assert_eq!(store.write("", "", "testkey", &DATA), Ok(()));
    assert_eq!(store.read("", "", "testkey"), Ok(DATA.to_vec()));
    assert_eq!(store.list("", ""), Ok(vec!["testkey".to_string()]));
    assert_eq!(store.list("testspace", "testsubspace"), Ok(Vec::<String>::new()));
}

#[test]
fn oracle_keeps_namespace_pairs_apart() {
    let mut store = oracle();
    assert_eq!(store.write("testspace", "one", "testkey", &[1]), Ok(()));
    assert_eq!(store.write("testspace", "two", "testkey", &[2]), Ok(()));
    assert_eq!(store.write("testspace", "", "testkey", &[3]), Ok(()));
    assert_eq!(store.read("testspace", "one", "testkey"), Ok(vec![1]));
    assert_eq!(store.read("testspace", "two", "testkey"), Ok(vec![2]));
    assert_eq!(store.read("testspace", "", "testkey"), Ok(vec![3]));
    assert_eq!(store.remove("testspace", "one", "testkey", false), Ok(()));
    assert_eq!(store.list("testspace", "one"), Ok(Vec::<String>::new()));
    assert_eq!(store.list("testspace", "two"), Ok(vec!["testkey".to_string()]));
}

#[test]
fn oracle_keeps_pairs_with_one_joined_path_apart() {
    let mut store = oracle();
    assert_eq!(store.write("a", "b", "testkey", &[1]), Ok(()));
    assert_eq!(store.read("a/b", "", "testkey"), Err(OracleError::Store(StoreError::NotFound)));
    assert_eq!(store.list("a/b", ""), Ok(Vec::<String>::new()));
    assert_eq!(store.write("a/b", "", "testkey", &[2]), Ok(()));
    assert_eq!(store.read("a", "b", "testkey"), Ok(vec![1]));
    assert_eq!(store.remove("a", "b", "testkey", false), Ok(()));
    assert_eq!(store.read("a/b", "", "testkey"), Ok(vec![2]));
    assert_eq!(store.list("a/b", ""), Ok(vec!["testkey".to_string()]));
    assert_eq!(store.list("a", "b"), Ok(Vec::<String>::new()));
}

#[test]
fn oracle_write_and_remove_change_one_record() {
    let mut store = oracle();
    assert_eq!(store.write("testspace", "one", "kept", &[1]), Ok(()));
    assert_eq!(store.write("testspace", "two", "testkey", &[2]), Ok(()));
    assert_eq!(store.write("testspace", "one", "testkey", &[3]), Ok(()));
    assert_eq!(
        store.list("testspace", "one"),
        Ok(vec!["kept".to_string(), "testkey".to_string()])
    );
    assert_eq!(store.list("testspace", "two"), Ok(vec!["testkey".to_string()]));
    assert_eq!(store.read("testspace", "one", "kept"), Ok(vec![1]));
    assert_eq!(store.read("testspace", "two", "testkey"), Ok(vec![2]));
    assert_eq!(store.remove("testspace", "one", "testkey", true), Ok(()));
    assert_eq!(store.list("testspace", "one"), Ok(vec!["kept".to_string()]));
    assert_eq!(store.list("testspace", "two"), Ok(vec!["testkey".to_string()]));
    assert_eq!(store.read("testspace", "one", "kept"), Ok(vec![1]));
    assert_eq!(store.read("testspace", "two", "testkey"), Ok(vec![2]));
}

#[test]
fn oracle_lists_keys_in_ascending_order() {
    let mut store = oracle();
    for key in ["pear", "apple", "fig", "Zebra", "app"] {
        assert_eq!(store.write("fruit", "", key, key.as_bytes()), Ok(()));
    }
    let expected: Vec<String> =
        ["Zebra", "app", "apple", "fig", "pear"].iter().map(|k| k.to_string()).collect();
    assert_eq!(store.list("fruit", ""), Ok(expected));
}

#[test]
fn oracle_rejects_an_empty_key_before_any_backend_is_asked() {
    let primary = MemoryStore::new();
    let secondary = MemoryStore::new();
    let (calls_0, calls_1) = (primary.counter(), secondary.counter());
    let mut store = TestSyncStore::new(primary, secondary);
    let refused = Err(OracleError::Store(StoreError::InvalidIdentifier));
    assert_eq!(store.write("testspace", "testsubspace", "", &DATA), refused);
    assert_eq!(store.remove("testspace", "testsubspace", "", false), refused);
    assert_eq!(
        store.read("testspace", "testsubspace", ""),
        Err(OracleError::Store(StoreError::InvalidIdentifier))
    );
    assert_eq!(calls_0.get(), 0);
    assert_eq!(calls_1.get(), 0);
    assert_eq!(store.list("testspace", "testsubspace"), Ok(Vec::<String>::new()));
}

#[test]
fn oracle_rejects_a_secondary_namespace_without_primary() {
    let primary = MemoryStore::new();
    let secondary = MemoryStore::new();
    let (calls_0, calls_1) = (primary.counter(), secondary.counter());
    let mut store = TestSyncStore::new(primary, secondary);
    let refused = Err(OracleError::Store(StoreError::InvalidIdentifier));
    assert_eq!(store.write("", "testsubspace", "testkey", &DATA), refused);
    assert_eq!(store.remove("", "testsubspace", "testkey", true), refused);
    assert_eq!(
        store.read("", "testsubspace", "testkey"),
        Err(OracleError::Store(StoreError::InvalidIdentifier))
    );
    assert_eq!(calls_0.get(), 0);
    assert_eq!(calls_1.get(), 0);
}

#[test]
fn oracle_rejects_components_past_the_maximum_length() {
    let primary = MemoryStore::new();
    let calls = primary.counter();
    let mut store = TestSyncStore::new(primary, MemoryStore::new());
    let over = repeated('A', 121);
    let refused = Err(OracleError::Store(StoreError::InvalidIdentifier));
    assert_eq!(store.write(&over, "", "testkey", &DATA), refused);
    assert_eq!(store.write("testspace", &over, "testkey", &DATA), refused);
    assert_eq!(store.write("testspace", "", &over, &DATA), refused);
    assert_eq!(calls.get(), 0);
}

#[test]
fn oracle_round_trips_the_maximum_length() {
    let mut store = oracle();
    let max = repeated('A', 120);
    assert_eq!(store.write(&max, &max, &max, &DATA), Ok(()));
    assert_eq!(store.list(&max, &max), Ok(vec![max.clone()]));
    assert_eq!(store.read(&max, &max, &max), Ok(DATA.to_vec()));
    assert_eq!(store.remove(&max, &max, &max, false), Ok(()));
    assert_eq!(store.list(&max, &max), Ok(Vec::<String>::new()));
}

#[test]
fn oracle_asks_every_backend_on_each_call() {
    let primary = MemoryStore::new();
    let secondary = MemoryStore::new();
    let (calls_0, calls_1) = (primary.counter(), secondary.counter());
    let mut store = TestSyncStore::new(primary, secondary);
    assert_eq!(store.write("testspace", "", "testkey", &DATA), Ok(()));
    assert_eq!((calls_0.get(), calls_1.get()), (2, 2));
    assert_eq!(store.read("testspace", "", "testkey"), Ok(DATA.to_vec()));
    assert_eq!((calls_0.get(), calls_1.get()), (3, 3));
    assert_eq!(store.list("testspace", ""), Ok(vec!["testkey".to_string()]));
    assert_eq!((calls_0.get(), calls_1.get()), (4, 4));
    assert_eq!(store.remove("testspace", "", "testkey", false), Ok(()));
    assert_eq!((calls_0.get(), calls_1.get()), (6, 6));
}

#[test]
fn oracle_reports_a_secondary_that_corrupts_reads() {
    let mut store = faulty(Fault::Sound, Fault::CorruptReads);
    assert_eq!(store.write("testspace", "", "testkey", &DATA), Ok(()));
    assert_eq!(
        store.read("testspace", "", "testkey"),
        inconsistent(Divergence::Value(Replica::Secondary))
    );
}

#[test]
fn oracle_reports_a_primary_that_corrupts_reads() {
    let mut store = faulty(Fault::CorruptReads, Fault::Sound);
    assert_eq!(store.write("testspace", "", "testkey", &DATA), Ok(()));
    assert_eq!(
        store.read("testspace", "", "testkey"),
        inconsistent(Divergence::Value(Replica::Secondary))
    );
}

#[test]
fn oracle_holds_both_backends_against_the_reference() {
    let mut store = faulty(Fault::CorruptReads, Fault::CorruptReads);
    assert_eq!(store.write("testspace", "", "testkey", &DATA), Ok(()));
    assert_eq!(
        store.read("testspace", "", "testkey"),
        inconsistent(Divergence::Value(Replica::Reference))
    );
}

#[test]
fn oracle_reports_a_read_that_fails_on_one_backend() {
    let mut store = faulty(Fault::Sound, Fault::ReadsFailWithIo);
    assert_eq!(store.write("testspace", "", "testkey", &DATA), Ok(()));
    assert_eq!(
        store.read("testspace", "", "testkey"),
        inconsistent(Divergence::Outcome(Replica::Secondary))
    );
    let mut store = faulty(Fault::ReadsFailWithIo, Fault::ReadsFailWithIo);
    assert_eq!(store.write("testspace", "", "testkey", &DATA), Ok(()));
    assert_eq!(
        store.read("testspace", "", "testkey"),
        inconsistent(Divergence::Outcome(Replica::Reference))
    );
}

#[test]
fn oracle_reports_failures_of_different_kinds() {
    let store = faulty(Fault::Sound, Fault::ReadsFailWithIo);
    assert_eq!(
        store.read("testspace", "", "missing"),
        inconsistent(Divergence::FailureKind(Replica::Secondary))
    );
    let store = faulty(Fault::ReadsFailWithIo, Fault::ReadsFailWithIo);
    assert_eq!(
        store.read("testspace", "", "missing"),
        inconsistent(Divergence::FailureKind(Replica::Reference))
    );
}

#[test]
fn oracle_passes_on_a_failure_that_all_backends_share() {
    let mut store = faulty(Fault::ReadsMissEverything, Fault::ReadsMissEverything);
    assert_eq!(
        store.read("testspace", "", "testkey"),
        Err(OracleError::Store(StoreError::NotFound))
    );
    assert_eq!(store.write("testspace", "", "testkey", &DATA), Ok(()));
    assert_eq!(
        store.read("testspace", "", "testkey"),
        inconsistent(Divergence::Outcome(Replica::Reference))
    );
}

#[test]
fn oracle_reports_a_write_that_a_backend_forgets() {
    let mut store = faulty(Fault::Sound, Fault::ForgetWrites);
    assert_eq!(
        store.write("testspace", "", "testkey", &DATA),
        inconsistent(Divergence::Value(Replica::Secondary))
    );
    let mut store = faulty(Fault::ForgetWrites, Fault::ForgetWrites);
    assert_eq!(
        store.write("testspace", "", "testkey", &DATA),
        inconsistent(Divergence::Value(Replica::Reference))
    );
}

#[test]
fn oracle_reports_a_write_that_fails_on_one_backend() {
    let mut store = faulty(Fault::Sound, Fault::WritesFailButStore);
    assert_eq!(
        store.write("testspace", "", "testkey", &DATA),
        inconsistent(Divergence::Outcome(Replica::Secondary))
    );
    let mut store = faulty(Fault::WritesFailButStore, Fault::WritesFailButStore);
    assert_eq!(
        store.write("testspace", "", "testkey", &DATA),
        inconsistent(Divergence::Outcome(Replica::Reference))
    );
}

#[test]
fn oracle_reports_a_remove_that_a_backend_ignores() {
    let mut store = faulty(Fault::Sound, Fault::KeepRemoved);
    assert_eq!(store.write("testspace", "", "testkey", &DATA), Ok(()));
    assert_eq!(
        store.remove("testspace", "", "testkey", false),
        inconsistent(Divergence::Value(Replica::Secondary))
    );
    let mut store = faulty(Fault::KeepRemoved, Fault::KeepRemoved);
    assert_eq!(store.write("testspace", "", "testkey", &DATA), Ok(()));
    assert_eq!(
        store.remove("testspace", "", "testkey", false),
        inconsistent(Divergence::Value(Replica::Reference))
    );
}

#[test]
fn oracle_reports_a_remove_that_fails_on_one_backend() {
    let mut store = faulty(Fault::RemovesFailButRemove, Fault::Sound);
    assert_eq!(store.write("testspace", "", "testkey", &DATA), Ok(()));
    assert_eq!(
        store.remove("testspace", "", "testkey", false),
        inconsistent(Divergence::Outcome(Replica::Secondary))
    );
}

#[test]
fn oracle_reports_a_listing_that_fails_on_one_backend() {
    let store = faulty(Fault::Sound, Fault::ListsFail);
    assert_eq!(store.list("testspace", ""), inconsistent(Divergence::Outcome(Replica::Secondary)));
    let store = faulty(Fault::ListsFail, Fault::ListsFail);
    assert_eq!(store.list("testspace", ""), inconsistent(Divergence::Outcome(Replica::Reference)));
    let mut store = faulty(Fault::ListsFail, Fault::Sound);
    assert_eq!(
        store.write("testspace", "", "testkey", &DATA),
        inconsistent(Divergence::Outcome(Replica::Secondary))
    );
}

#[test]
fn oracle_reports_a_listing_that_repeats_a_key() {
    let mut store = faulty(Fault::Sound, Fault::ListsTwice);
    assert_eq!(
        store.write("testspace", "", "testkey", &DATA),
        inconsistent(Divergence::Value(Replica::Secondary))
    );
    assert_eq!(store.list("testspace", ""), inconsistent(Divergence::Value(Replica::Secondary)));
}

#[test]
fn oracle_hands_its_backends_back() {
    let mut store = oracle();
    assert_eq!(store.write("testspace", "", "testkey", &DATA), Ok(()));
    assert_eq!(store.write("testspace", "", "", &DATA), Err(OracleError::Store(StoreError::InvalidIdentifier)));
    let (primary, secondary) = store.into_backends();
    for backend in [&primary, &secondary] {
        assert_eq!(backend.read("testspace", "", "testkey"), Ok(DATA.to_vec()));
        assert_eq!(backend.records.len(), 1);
        assert_eq!(backend.calls.get(), 3);
    }
}

#[test]
fn oracle_stays_usable_after_a_refusal() {
    let mut store = oracle();
    assert_eq!(store.write("testspace", "", "testkey", &DATA), Ok(()));
    assert_eq!(
        store.write("", "testsubspace", "testkey", &[0]),
        Err(OracleError::Store(StoreError::InvalidIdentifier))
    );
    assert_eq!(store.read("testspace", "", "testkey"), Ok(DATA.to_vec()));
    assert_eq!(store.list("testspace", ""), Ok(vec!["testkey".to_string()]));
}
