//! The oracle's judgement: three outcomes of one call in, the primary's
//! outcome or the first disagreement out.

use vstd::prelude::*;
use vstd::relations::equivalence_relation;
use crate::error::{StoreError, Replica, Divergence, OracleError, is_inconsistent};
use crate::store::{bytes_view, keys_view};
use crate::listing::{
    same_keys, sorted_keys, sorted_listings_agree, sort_keys, equal_listings, contains_key,
};

verus! {

/// Equality of the bytes of two reads.
pub open spec fn same_bytes() -> spec_fn(Seq<u8>, Seq<u8>) -> bool {
    |a: Seq<u8>, b: Seq<u8>| a == b
}

/// Two listings with the same keys, in any order.
pub open spec fn same_listing() -> spec_fn(Seq<Seq<char>>, Seq<Seq<char>>) -> bool {
    |a: Seq<Seq<char>>, b: Seq<Seq<char>>| same_keys(a, b)
}

/// Two successes of a write or a remove, which carry nothing to compare.
pub open spec fn same_unit() -> spec_fn((), ()) -> bool {
    |a: (), b: ()| true
}

/// Two outcomes agree: both succeed with values that `same` holds equal, or
/// both fail with the same failure.
pub open spec fn agree<T>(
    a: Result<T, StoreError>,
    b: Result<T, StoreError>,
    same: spec_fn(T, T) -> bool,
) -> bool {
    match (a, b) {
        (Ok(x), Ok(y)) => same(x, y),
        (Err(e), Err(f)) => e == f,
        _ => false,
    }
}

/// How the outcome of the backend `who` departs from the primary's, if it does.
pub open spec fn divergence<T>(
    primary: Result<T, StoreError>,
    other: Result<T, StoreError>,
    who: Replica,
    same: spec_fn(T, T) -> bool,
) -> Option<Divergence> {
    match (primary, other) {
        (Ok(x), Ok(y)) => if same(x, y) {
            None
        } else {
            Some(Divergence::Value(who))
        },
        (Err(e), Err(f)) => if e == f {
            None
        } else {
            Some(Divergence::FailureKind(who))
        },
        _ => Some(Divergence::Outcome(who)),
    }
}

/// The first departure from the primary's outcome: the secondary backend is
/// held against it first, the reference store second.
pub open spec fn first_divergence<T>(
    primary: Result<T, StoreError>,
    secondary: Result<T, StoreError>,
    reference: Result<T, StoreError>,
    same: spec_fn(T, T) -> bool,
) -> Option<Divergence> {
    match divergence(primary, secondary, Replica::Secondary, same) {
        Some(d) => Some(d),
        None => divergence(primary, reference, Replica::Reference, same),
    }
}

/// What the oracle answers: the disagreement, or else the primary's outcome.
pub open spec fn reconciled<T>(primary: Result<T, StoreError>, found: Option<Divergence>) -> Result<
    T,
    OracleError,
> {
    match found {
        Some(d) => Err(OracleError::Inconsistent(d)),
        None => match primary {
            Ok(v) => Ok(v),
            Err(e) => Err(OracleError::Store(e)),
        },
    }
}

/// The bytes of a read through the oracle as a sequence.
pub open spec fn found_view(found: Result<Vec<u8>, OracleError>) -> Result<Seq<u8>, OracleError> {
    match found {
        Ok(bytes) => Ok(bytes@),
        Err(e) => Err(e),
    }
}

/// The keys of a listing through the oracle as a sequence of character sequences.
pub open spec fn listing_view(listed: Result<Vec<String>, OracleError>) -> Result<
    Seq<Seq<char>>,
    OracleError,
> {
    match listed {
        Ok(keys) => Ok(keys.deep_view()),
        Err(e) => Err(e),
    }
}

/// What the listing after a successful write (`present`) or remove
/// (`!present`) shows to be wrong, if anything: the listing failed, or the
/// key is not in it after the write, or still in it after the remove.
pub open spec fn visibility_fault(
    listing: Result<Seq<Seq<char>>, OracleError>,
    key: Seq<char>,
    present: bool,
) -> Option<Divergence> {
    match listing {
        Err(OracleError::Inconsistent(d)) => Some(d),
        Err(OracleError::Store(_)) => Some(Divergence::ListingFailed),
        Ok(keys) => if keys.contains(key) == present {
            None
        } else if present {
            Some(Divergence::NotListed)
        } else {
            Some(Divergence::StillListed)
        },
    }
}

/// What the oracle answers to a write or a remove, given the listing taken
/// right after it. A listing on which the backends disagree is reported
/// first, a disagreement on the call itself second. Where the three outcomes
/// agree on a failure, that failure is passed on, whatever the listing names:
/// the key is looked for only after a call that succeeded.
pub open spec fn reconciled_update(
    primary: Result<(), StoreError>,
    secondary: Result<(), StoreError>,
    reference: Result<(), StoreError>,
    listing: Result<Seq<Seq<char>>, OracleError>,
    key: Seq<char>,
    present: bool,
) -> Result<(), OracleError> {
    match listing {
        Err(OracleError::Inconsistent(d)) => Err(OracleError::Inconsistent(d)),
        _ => match first_divergence(primary, secondary, reference, same_unit()) {
            Some(d) => Err(OracleError::Inconsistent(d)),
            None => match primary {
                Err(e) => Err(OracleError::Store(e)),
                Ok(_) => match visibility_fault(listing, key, present) {
                    Some(d) => Err(OracleError::Inconsistent(d)),
                    None => Ok(()),
                },
            },
        },
    }
}

/// The oracle answers with the primary's outcome exactly when all three
/// outcomes agree pairwise; any disagreement is reported as such.
pub proof fn answers_only_on_agreement<T>(
    primary: Result<T, StoreError>,
    secondary: Result<T, StoreError>,
    reference: Result<T, StoreError>,
    same: spec_fn(T, T) -> bool,
)
    requires
        equivalence_relation(same),
    ensures
        first_divergence(primary, secondary, reference, same) is None <==> agree(
            primary,
            secondary,
            same,
        ) && agree(primary, reference, same) && agree(secondary, reference, same),
        first_divergence(primary, secondary, reference, same) is Some <==> is_inconsistent(
            reconciled(primary, first_divergence(primary, secondary, reference, same)),
        ),
{
    if first_divergence(primary, secondary, reference, same) is None {
        match (primary, secondary, reference) {
            (Ok(x), Ok(y), Ok(z)) => {
                assert(same(x, y) && same(x, z));
                assert(same(y, x));
            },
            _ => {},
        }
    }
}

/// Three reads get an answer exactly when they are equal: the same bytes, or
/// the same failure.
pub proof fn reads_answered_when_equal(
    primary: Result<Seq<u8>, StoreError>,
    secondary: Result<Seq<u8>, StoreError>,
    reference: Result<Seq<u8>, StoreError>,
)
    ensures
        !is_inconsistent(
            reconciled(primary, first_divergence(primary, secondary, reference, same_bytes())),
        ) <==> primary == secondary && primary == reference,
{
}

/// Three writes or removes are found to agree exactly when all succeed or all
/// fail with the same failure.
pub proof fn updates_agree_when_equal(
    primary: Result<(), StoreError>,
    secondary: Result<(), StoreError>,
    reference: Result<(), StoreError>,
)
    ensures
        first_divergence(primary, secondary, reference, same_unit()) is None <==> primary
            == secondary && primary == reference,
{
}

/// Three listings get an answer exactly when all name the same keys as often,
/// or all fail with the same failure.
pub proof fn listings_answered_when_same_keys(
    primary: Result<Seq<Seq<char>>, StoreError>,
    secondary: Result<Seq<Seq<char>>, StoreError>,
    reference: Result<Seq<Seq<char>>, StoreError>,
)
    ensures
        first_divergence(primary, secondary, reference, same_listing()) is None <==> agree(
            primary,
            secondary,
            same_listing(),
        ) && agree(primary, reference, same_listing()) && agree(
            secondary,
            reference,
            same_listing(),
        ),
{
    let same = same_listing();
    assert(equivalence_relation(same)) by {
        assert forall|x: Seq<Seq<char>>| #[trigger] same(x, x) by {}
        assert forall|x: Seq<Seq<char>>, y: Seq<Seq<char>>| #[trigger]
            same(x, y) <==> #[trigger] same(y, x) by {}
        assert forall|x: Seq<Seq<char>>, y: Seq<Seq<char>>, z: Seq<Seq<char>>| #[trigger]
            same(x, y) && #[trigger] same(y, z) implies same(x, z) by {}
    }
    answers_only_on_agreement(primary, secondary, reference, same);
}

/// A write or a remove succeeds through the oracle exactly when it succeeded
/// on all three backends and the listing after it, on which the backends
/// agreed, shows the key as it should.
pub proof fn update_succeeds_when_all_do(
    primary: Result<(), StoreError>,
    secondary: Result<(), StoreError>,
    reference: Result<(), StoreError>,
    listing: Result<Seq<Seq<char>>, OracleError>,
    key: Seq<char>,
    present: bool,
)
    ensures
        reconciled_update(primary, secondary, reference, listing, key, present) is Ok <==> {
            &&& primary is Ok
            &&& secondary is Ok
            &&& reference is Ok
            &&& listing matches Ok(keys) && keys.contains(key) == present
        },
{
}

/// A write or a remove that fails alike on all three backends is passed on
/// as that failure, whatever keys the listing names, unless the backends
/// disagree on the listing itself.
pub proof fn shared_failure_is_passed_on(
    e: StoreError,
    listing: Result<Seq<Seq<char>>, OracleError>,
    key: Seq<char>,
    present: bool,
)
    requires
        !is_inconsistent(listing),
    ensures
        reconciled_update(Err(e), Err(e), Err(e), listing, key, present) == Err::<
            (),
            OracleError,
        >(OracleError::Store(e)),
{
}

/// A key that is missing after a write, or still there after a remove, is
/// reported only where the call succeeded on all three backends.
pub proof fn key_is_looked_for_after_success(
    primary: Result<(), StoreError>,
    secondary: Result<(), StoreError>,
    reference: Result<(), StoreError>,
    listing: Result<Seq<Seq<char>>, OracleError>,
    key: Seq<char>,
    present: bool,
)
    requires
        !is_inconsistent(listing),
        reconciled_update(primary, secondary, reference, listing, key, present) matches Err(
            OracleError::Inconsistent(d),
        ) && !crate::error::between_backends(d),
    ensures
        primary is Ok,
        secondary is Ok,
        reference is Ok,
{
}

/// Whether two reads returned the same bytes.
fn equal_bytes(a: &Vec<u8>, b: &Vec<u8>) -> (equal: bool)
    ensures
        equal == (a@ == b@),
{
    if a.len() != b.len() {
        return false;
    }
    let mut i: usize = 0;
    while i < a.len()
        invariant
            i <= a.len(),
            a.len() == b.len(),
            forall|j: int| 0 <= j < i ==> a@[j] == b@[j],
        decreases a.len() - i,
    {
        if a[i] != b[i] {
            return false;
        }
        i += 1;
    }
    assert(a@ =~= b@);
    true
}

/// Holds the read of one backend against the primary's.
fn compare_reads(
    primary: &Result<Vec<u8>, StoreError>,
    other: &Result<Vec<u8>, StoreError>,
    who: Replica,
) -> (found: Option<Divergence>)
    ensures
        found == divergence(bytes_view(*primary), bytes_view(*other), who, same_bytes()),
{
    match primary {
        Ok(x) => match other {
            Ok(y) => if equal_bytes(x, y) {
                None
            } else {
                Some(Divergence::Value(who))
            },
            Err(_) => Some(Divergence::Outcome(who)),
        },
        Err(e) => match other {
            Ok(_) => Some(Divergence::Outcome(who)),
            Err(f) => if *e == *f {
                None
            } else {
                Some(Divergence::FailureKind(who))
            },
        },
    }
}

/// Judges the three outcomes of one read: the primary's bytes or failure
/// where the other two agree with it, the first disagreement where they do not.
pub fn reconcile_read(
    primary: Result<Vec<u8>, StoreError>,
    secondary: Result<Vec<u8>, StoreError>,
    reference: Result<Vec<u8>, StoreError>,
) -> (out: Result<Vec<u8>, OracleError>)
    ensures
        found_view(out) == reconciled(
            bytes_view(primary),
            first_divergence(
                bytes_view(primary),
                bytes_view(secondary),
                bytes_view(reference),
                same_bytes(),
            ),
        ),
{
    if let Some(d) = compare_reads(&primary, &secondary, Replica::Secondary) {
        return Err(OracleError::Inconsistent(d));
    }
    if let Some(d) = compare_reads(&primary, &reference, Replica::Reference) {
        return Err(OracleError::Inconsistent(d));
    }
    match primary {
        Ok(bytes) => Ok(bytes),
        Err(e) => Err(OracleError::Store(e)),
    }
}

/// What a listing judged by `reconcile_list` is: the disagreement, the
/// primary's failure, or the primary's keys in their normal order.
pub open spec fn reconciled_listing(
    out: Result<Seq<Seq<char>>, OracleError>,
    primary: Result<Seq<Seq<char>>, StoreError>,
    found: Option<Divergence>,
) -> bool {
    match found {
        Some(d) => out == Err::<Seq<Seq<char>>, OracleError>(OracleError::Inconsistent(d)),
        None => match primary {
            Ok(keys) => out matches Ok(sorted) && sorted_keys(sorted) && same_keys(sorted, keys),
            Err(e) => out == Err::<Seq<Seq<char>>, OracleError>(OracleError::Store(e)),
        },
    }
}

/// The listing of one backend in its normal order, or its failure.
fn sort_listed(listed: Result<Vec<String>, StoreError>) -> (sorted: Result<Vec<String>, StoreError>)
    ensures
        agree(keys_view(sorted), keys_view(listed), same_listing()),
        sorted matches Ok(keys) ==> sorted_keys(keys.deep_view()),
{
    match listed {
        Ok(keys) => Ok(sort_keys(keys)),
        Err(e) => Err(e),
    }
}

/// Holds the sorted listing of one backend against the primary's.
fn compare_sorted(
    primary: &Result<Vec<String>, StoreError>,
    other: &Result<Vec<String>, StoreError>,
    who: Replica,
) -> (found: Option<Divergence>)
    requires
        primary matches Ok(keys) ==> sorted_keys(keys.deep_view()),
        other matches Ok(keys) ==> sorted_keys(keys.deep_view()),
    ensures
        found == divergence(keys_view(*primary), keys_view(*other), who, same_listing()),
{
    match primary {
        Ok(x) => match other {
            Ok(y) => {
                proof {
                    sorted_listings_agree(x.deep_view(), y.deep_view());
                }
                if equal_listings(x, y) {
                    None
                } else {
                    Some(Divergence::Value(who))
                }
            },
            Err(_) => Some(Divergence::Outcome(who)),
        },
        Err(e) => match other {
            Ok(_) => Some(Divergence::Outcome(who)),
            Err(f) => if *e == *f {
                None
            } else {
                Some(Divergence::FailureKind(who))
            },
        },
    }
}

/// Judges the three outcomes of one listing. Listings agree where they name
/// the same keys, in whatever order; the answer is the primary's listing in
/// its normal order.
pub fn reconcile_list(
    primary: Result<Vec<String>, StoreError>,
    secondary: Result<Vec<String>, StoreError>,
    reference: Result<Vec<String>, StoreError>,
) -> (out: Result<Vec<String>, OracleError>)
    ensures
        reconciled_listing(
            listing_view(out),
            keys_view(primary),
            first_divergence(
                keys_view(primary),
                keys_view(secondary),
                keys_view(reference),
                same_listing(),
            ),
        ),
{
    let sorted_primary = sort_listed(primary);
    let sorted_secondary = sort_listed(secondary);
    let sorted_reference = sort_listed(reference);
    if let Some(d) = compare_sorted(&sorted_primary, &sorted_secondary, Replica::Secondary) {
        return Err(OracleError::Inconsistent(d));
    }
    if let Some(d) = compare_sorted(&sorted_primary, &sorted_reference, Replica::Reference) {
        return Err(OracleError::Inconsistent(d));
    }
    match sorted_primary {
        Ok(keys) => Ok(keys),
        Err(e) => Err(OracleError::Store(e)),
    }
}

/// Holds the write or remove of one backend against the primary's.
fn compare_updates(
    primary: &Result<(), StoreError>,
    other: &Result<(), StoreError>,
    who: Replica,
) -> (found: Option<Divergence>)
    ensures
        found == divergence(*primary, *other, who, same_unit()),
{
    match primary {
        Ok(_) => match other {
            Ok(_) => None,
            Err(_) => Some(Divergence::Outcome(who)),
        },
        Err(e) => match other {
            Ok(_) => Some(Divergence::Outcome(who)),
            Err(f) => if *e == *f {
                None
            } else {
                Some(Divergence::FailureKind(who))
            },
        },
    }
}

/// Looks for the key in the listing that followed a write or a remove.
fn check_visibility(listing: &Result<Vec<String>, OracleError>, key: &str, present: bool) -> (fault:
    Option<Divergence>)
    ensures
        fault == visibility_fault(listing_view(*listing), key@, present),
{
    match listing {
        Err(OracleError::Inconsistent(d)) => Some(*d),
        Err(OracleError::Store(_)) => Some(Divergence::ListingFailed),
        Ok(keys) => if contains_key(keys, key) == present {
            None
        } else if present {
            Some(Divergence::NotListed)
        } else {
            Some(Divergence::StillListed)
        },
    }
}

/// Judges a write (`present`) or a remove (`!present`).
fn reconcile_update(
    primary: Result<(), StoreError>,
    secondary: Result<(), StoreError>,
    reference: Result<(), StoreError>,
    listing: &Result<Vec<String>, OracleError>,
    key: &str,
    present: bool,
) -> (out: Result<(), OracleError>)
    ensures
        out == reconciled_update(
            primary,
            secondary,
            reference,
            listing_view(*listing),
            key@,
            present,
        ),
{
    if let Err(OracleError::Inconsistent(d)) = listing {
        return Err(OracleError::Inconsistent(*d));
    }
    if let Some(d) = compare_updates(&primary, &secondary, Replica::Secondary) {
        return Err(OracleError::Inconsistent(d));
    }
    if let Some(d) = compare_updates(&primary, &reference, Replica::Reference) {
        return Err(OracleError::Inconsistent(d));
    }
    if let Err(e) = primary {
        return Err(OracleError::Store(e));
    }
    match check_visibility(listing, key, present) {
        Some(d) => Err(OracleError::Inconsistent(d)),
        None => Ok(()),
    }
}

/// Judges the three outcomes of one write together with the listing of the
/// key's namespace pair taken right after it: after a write that succeeded
/// the key has to be listed.
pub fn reconcile_write(
    primary: Result<(), StoreError>,
    secondary: Result<(), StoreError>,
    reference: Result<(), StoreError>,
    listing: &Result<Vec<String>, OracleError>,
    key: &str,
) -> (out: Result<(), OracleError>)
    ensures
        out == reconciled_update(
            primary,
            secondary,
            reference,
            listing_view(*listing),
            key@,
            true,
        ),
{
    reconcile_update(primary, secondary, reference, listing, key, true)
}

/// Judges the three outcomes of one remove together with the listing of the
/// key's namespace pair taken right after it: after a remove that succeeded
/// the key has to be gone.
pub fn reconcile_remove(
    primary: Result<(), StoreError>,
    secondary: Result<(), StoreError>,
    reference: Result<(), StoreError>,
    listing: &Result<Vec<String>, OracleError>,
    key: &str,
) -> (out: Result<(), OracleError>)
    ensures
        out == reconciled_update(
            primary,
            secondary,
            reference,
            listing_view(*listing),
            key@,
            false,
        ),
{
    reconcile_update(primary, secondary, reference, listing, key, false)
}

} // verus!
