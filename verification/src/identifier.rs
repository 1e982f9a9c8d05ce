//! Which key identifiers a store accepts.
//!
//! An identifier is a primary namespace, a secondary namespace and a key. The
//! key is never empty, a secondary namespace needs a primary one, and no
//! component is longer than a shared maximum.

use vstd::prelude::*;

verus! {

/// The largest number of characters in a namespace or a key.
pub open spec fn max_len() -> nat {
    120
}

/// The structural rule: a key, and no secondary namespace without a primary one.
pub open spec fn well_formed(primary: Seq<char>, secondary: Seq<char>, key: Seq<char>) -> bool {
    key.len() > 0 && (primary.len() > 0 || secondary.len() == 0)
}

/// No component exceeds the maximum length.
pub open spec fn within_max_len(primary: Seq<char>, secondary: Seq<char>, key: Seq<char>) -> bool {
    primary.len() <= max_len() && secondary.len() <= max_len() && key.len() <= max_len()
}

/// The identifiers that every operation accepts.
pub open spec fn valid_identifier(
    primary: Seq<char>,
    secondary: Seq<char>,
    key: Seq<char>,
) -> bool {
    well_formed(primary, secondary, key) && within_max_len(primary, secondary, key)
}

/// The first rule that an identifier breaks.
#[derive(Clone, Copy, Debug, PartialEq, Eq, Structural)]
pub enum IdentifierError {
    /// The key is empty.
    EmptyKey,
    /// The primary namespace is empty and the secondary one is not.
    EmptyPrimaryNamespace,
    /// A namespace or the key is longer than the maximum.
    TooLong,
}

/// What `check_identifier` answers for an identifier.
pub open spec fn identifier_verdict(
    primary: Seq<char>,
    secondary: Seq<char>,
    key: Seq<char>,
) -> Result<(), IdentifierError> {
    if key.len() == 0 {
        Err(IdentifierError::EmptyKey)
    } else if primary.len() == 0 && secondary.len() > 0 {
        Err(IdentifierError::EmptyPrimaryNamespace)
    } else if !within_max_len(primary, secondary, key) {
        Err(IdentifierError::TooLong)
    } else {
        Ok(())
    }
}

/// Reads `lightning::util::persist::KVSTORE_NAMESPACE_KEY_MAX_LEN`, the
/// constant that the backends share. Trusted: that its value is 120.
#[verifier::external_body]
fn namespace_key_max_len() -> (n: usize)
    ensures
        n == max_len(),
{
    lightning::util::persist::KVSTORE_NAMESPACE_KEY_MAX_LEN
}

/// The largest number of characters in a namespace or a key.
pub fn max_identifier_len() -> (n: usize)
    ensures
        n == max_len(),
{
    namespace_key_max_len()
}

/// Checks an identifier before anything is read or written.
pub fn check_identifier(primary_namespace: &str, secondary_namespace: &str, key: &str) -> (verdict:
    Result<(), IdentifierError>)
    ensures
        verdict == identifier_verdict(primary_namespace@, secondary_namespace@, key@),
        verdict is Ok <==> valid_identifier(primary_namespace@, secondary_namespace@, key@),
{
    let limit: usize = namespace_key_max_len();
    if key.is_empty() {
        Err(IdentifierError::EmptyKey)
    } else if primary_namespace.is_empty() && !secondary_namespace.is_empty() {
        Err(IdentifierError::EmptyPrimaryNamespace)
    } else if primary_namespace.unicode_len() > limit || secondary_namespace.unicode_len() > limit
        || key.unicode_len() > limit {
        Err(IdentifierError::TooLong)
    } else {
        Ok(())
    }
}

/// Whether every operation accepts the identifier.
pub fn is_valid_identifier(primary_namespace: &str, secondary_namespace: &str, key: &str) -> (valid:
    bool)
    ensures
        valid == valid_identifier(primary_namespace@, secondary_namespace@, key@),
{
    check_identifier(primary_namespace, secondary_namespace, key).is_ok()
}

/// An identifier that breaks the structural rule is refused, whatever the
/// lengths of its components.
pub proof fn ill_formed_identifier_is_refused(
    primary: Seq<char>,
    secondary: Seq<char>,
    key: Seq<char>,
)
    requires
        !well_formed(primary, secondary, key),
    ensures
        !valid_identifier(primary, secondary, key),
        identifier_verdict(primary, secondary, key) == Err::<(), IdentifierError>(
            if key.len() == 0 {
                IdentifierError::EmptyKey
            } else {
                IdentifierError::EmptyPrimaryNamespace
            },
        ),
{
}

/// An identifier whose three components have exactly the maximum length is valid.
pub proof fn max_length_identifier_is_valid(
    primary: Seq<char>,
    secondary: Seq<char>,
    key: Seq<char>,
)
    requires
        primary.len() == max_len(),
        secondary.len() == max_len(),
        key.len() == max_len(),
    ensures
        valid_identifier(primary, secondary, key),
{
}

/// The identifier without namespaces, the global namespace, is valid for any
/// key within the maximum length.
pub proof fn global_namespace_is_valid(key: Seq<char>)
    requires
        0 < key.len() <= max_len(),
    ensures
        valid_identifier(Seq::empty(), Seq::empty(), key),
{
}

} // verus!
