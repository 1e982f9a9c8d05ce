//! The conformance suite: the requests that any single backend is put
//! through, in their order, and what it has to answer to each.

use vstd::prelude::*;
use vstd::string::StringExecFns;
use crate::error::StoreError;
use crate::identifier::{max_len, max_identifier_len, valid_identifier};
use crate::store::{
    Records, read_result, after_write, after_remove, listed_keys, lists_exactly, bytes_view,
    keys_view, KVStore,
};
use crate::listing::equal_listings;

verus! {

/// One call of a backend, with what is handed to it.
#[derive(Debug, PartialEq, Eq)]
pub enum Request {
    Write { primary_namespace: String, secondary_namespace: String, key: String, data: Vec<u8> },
    Read { primary_namespace: String, secondary_namespace: String, key: String },
    Remove { primary_namespace: String, secondary_namespace: String, key: String, lazy: bool },
    List { primary_namespace: String, secondary_namespace: String },
}

/// A request as mathematical values.
pub enum RequestView {
    Write { primary: Seq<char>, secondary: Seq<char>, key: Seq<char>, data: Seq<u8> },
    Read { primary: Seq<char>, secondary: Seq<char>, key: Seq<char> },
    Remove { primary: Seq<char>, secondary: Seq<char>, key: Seq<char>, lazy: bool },
    List { primary: Seq<char>, secondary: Seq<char> },
}

impl View for Request {
    type V = RequestView;

    open spec fn view(&self) -> RequestView {
        match *self {
            Request::Write {
                primary_namespace,
                secondary_namespace,
                key,
                data,
            } => RequestView::Write {
                primary: primary_namespace@,
                secondary: secondary_namespace@,
                key: key@,
                data: data@,
            },
            Request::Read { primary_namespace, secondary_namespace, key } => RequestView::Read {
                primary: primary_namespace@,
                secondary: secondary_namespace@,
                key: key@,
            },
            Request::Remove {
                primary_namespace,
                secondary_namespace,
                key,
                lazy,
            } => RequestView::Remove {
                primary: primary_namespace@,
                secondary: secondary_namespace@,
                key: key@,
                lazy,
            },
            Request::List { primary_namespace, secondary_namespace } => RequestView::List {
                primary: primary_namespace@,
                secondary: secondary_namespace@,
            },
        }
    }
}

/// What a backend answered to one request.
#[derive(Debug, PartialEq, Eq)]
pub enum Response {
    /// The outcome of a write or a remove.
    Updated(Result<(), StoreError>),
    /// The outcome of a read.
    Bytes(Result<Vec<u8>, StoreError>),
    /// The outcome of a listing.
    Keys(Result<Vec<String>, StoreError>),
}

/// A response as mathematical values.
pub enum ResponseView {
    Updated(Result<(), StoreError>),
    Bytes(Result<Seq<u8>, StoreError>),
    Keys(Result<Seq<Seq<char>>, StoreError>),
}

impl View for Response {
    type V = ResponseView;

    open spec fn view(&self) -> ResponseView {
        match *self {
            Response::Updated(done) => ResponseView::Updated(done),
            Response::Bytes(found) => ResponseView::Bytes(crate::store::bytes_view(found)),
            Response::Keys(listed) => ResponseView::Keys(crate::store::keys_view(listed)),
        }
    }
}

/// The response is of the kind that the request calls for.
pub open spec fn answers(request: RequestView, response: ResponseView) -> bool {
    match request {
        RequestView::Write { .. } => response is Updated,
        RequestView::Remove { .. } => response is Updated,
        RequestView::Read { .. } => response is Bytes,
        RequestView::List { .. } => response is Keys,
    }
}

/// Makes the one call of the backend that the request describes.
pub fn perform<K: KVStore>(kv_store: &mut K, request: &Request) -> (response: Response)
    ensures
        answers(request@, response@),
{
    match request {
        Request::Write { primary_namespace, secondary_namespace, key, data } => Response::Updated(
            kv_store.write(
                primary_namespace.as_str(),
                secondary_namespace.as_str(),
                key.as_str(),
                data.as_slice(),
            ),
        ),
        Request::Read { primary_namespace, secondary_namespace, key } => Response::Bytes(
            kv_store.read(primary_namespace.as_str(), secondary_namespace.as_str(), key.as_str()),
        ),
        Request::Remove { primary_namespace, secondary_namespace, key, lazy } => Response::Updated(
            kv_store.remove(
                primary_namespace.as_str(),
                secondary_namespace.as_str(),
                key.as_str(),
                *lazy,
            ),
        ),
        Request::List { primary_namespace, secondary_namespace } => Response::Keys(
            kv_store.list(primary_namespace.as_str(), secondary_namespace.as_str()),
        ),
    }
}

/// The checks of the suite.
#[derive(Clone, Copy, Debug, PartialEq, Eq, Structural)]
pub enum Check {
    /// A write to a new identifier with both namespaces succeeds.
    Write,
    /// A write without namespaces, to the global namespace, succeeds.
    WriteGlobal,
    /// A write with a secondary namespace and no primary one is refused.
    RejectEmptyPrimary,
    /// A write with an empty key is refused.
    RejectEmptyKey,
    /// The namespace pair lists the one key written.
    ListWritten,
    /// A read returns the bytes written.
    ReadWritten,
    /// The remove succeeds.
    Remove,
    /// The namespace pair lists no key.
    ListRemoved,
    /// A write at the maximum length of all three components succeeds.
    WriteLongest,
    /// The longest namespace pair lists the one key written.
    ListLongest,
    /// A read at the maximum length returns the bytes written.
    ReadLongest,
    /// The remove at the maximum length succeeds.
    RemoveLongest,
    /// The longest namespace pair lists no key.
    ListLongestRemoved,
}

/// The checks in the order in which the suite makes them.
pub open spec fn checks() -> Seq<Check> {
    seq![
        Check::Write,
        Check::WriteGlobal,
        Check::RejectEmptyPrimary,
        Check::RejectEmptyKey,
        Check::ListWritten,
        Check::ReadWritten,
        Check::Remove,
        Check::ListRemoved,
        Check::WriteLongest,
        Check::ListLongest,
        Check::ReadLongest,
        Check::RemoveLongest,
        Check::ListLongestRemoved,
    ]
}

/// The primary namespace of the suite's short identifier.
pub open spec fn suite_primary() -> Seq<char> {
    "testspace"@
}

/// The secondary namespace of the suite's short identifier.
pub open spec fn suite_secondary() -> Seq<char> {
    "testsubspace"@
}

/// The key of the suite's short identifier.
pub open spec fn suite_key() -> Seq<char> {
    "testkey"@
}

/// The bytes that the suite writes: 32 times the byte 42.
pub open spec fn suite_data() -> Seq<u8> {
    Seq::new(32, |i: int| 42u8)
}

/// The longest namespace or key: the letter `A` as often as the maximum
/// length allows.
pub open spec fn longest() -> Seq<char> {
    Seq::new(max_len(), |i: int| 'A')
}

/// What the suite asks of the backend at a check.
pub open spec fn asked(check: Check) -> RequestView {
    match check {
        Check::Write => RequestView::Write {
            primary: suite_primary(),
            secondary: suite_secondary(),
            key: suite_key(),
            data: suite_data(),
        },
        Check::WriteGlobal => RequestView::Write {
            primary: Seq::empty(),
            secondary: Seq::empty(),
            key: suite_key(),
            data: suite_data(),
        },
        Check::RejectEmptyPrimary => RequestView::Write {
            primary: Seq::empty(),
            secondary: suite_secondary(),
            key: suite_key(),
            data: suite_data(),
        },
        Check::RejectEmptyKey => RequestView::Write {
            primary: suite_primary(),
            secondary: suite_secondary(),
            key: Seq::empty(),
            data: suite_data(),
        },
        Check::ListWritten | Check::ListRemoved => RequestView::List {
            primary: suite_primary(),
            secondary: suite_secondary(),
        },
        Check::ReadWritten => RequestView::Read {
            primary: suite_primary(),
            secondary: suite_secondary(),
            key: suite_key(),
        },
        Check::Remove => RequestView::Remove {
            primary: suite_primary(),
            secondary: suite_secondary(),
            key: suite_key(),
            lazy: false,
        },
        Check::WriteLongest => RequestView::Write {
            primary: longest(),
            secondary: longest(),
            key: longest(),
            data: suite_data(),
        },
        Check::ListLongest | Check::ListLongestRemoved => RequestView::List {
            primary: longest(),
            secondary: longest(),
        },
        Check::ReadLongest => RequestView::Read {
            primary: longest(),
            secondary: longest(),
            key: longest(),
        },
        Check::RemoveLongest => RequestView::Remove {
            primary: longest(),
            secondary: longest(),
            key: longest(),
            lazy: false,
        },
    }
}

/// The one response that passes a check.
pub open spec fn expected(check: Check) -> ResponseView {
    match check {
        Check::Write
        | Check::WriteGlobal
        | Check::Remove
        | Check::WriteLongest
        | Check::RemoveLongest => ResponseView::Updated(Ok(())),
        Check::RejectEmptyPrimary | Check::RejectEmptyKey => ResponseView::Updated(
            Err(StoreError::InvalidIdentifier),
        ),
        Check::ListWritten => ResponseView::Keys(Ok(seq![suite_key()])),
        Check::ListLongest => ResponseView::Keys(Ok(seq![longest()])),
        Check::ListRemoved | Check::ListLongestRemoved => ResponseView::Keys(Ok(Seq::empty())),
        Check::ReadWritten | Check::ReadLongest => ResponseView::Bytes(Ok(suite_data())),
    }
}

/// The checks in the order in which the suite makes them.
pub fn checks_in_order() -> (order: Vec<Check>)
    ensures
        order@ == checks(),
{
    let mut order: Vec<Check> = Vec::new();
    order.push(Check::Write);
    order.push(Check::WriteGlobal);
    order.push(Check::RejectEmptyPrimary);
    order.push(Check::RejectEmptyKey);
    order.push(Check::ListWritten);
    order.push(Check::ReadWritten);
    order.push(Check::Remove);
    order.push(Check::ListRemoved);
    order.push(Check::WriteLongest);
    order.push(Check::ListLongest);
    order.push(Check::ReadLongest);
    order.push(Check::RemoveLongest);
    order.push(Check::ListLongestRemoved);
    assert(order@ =~= checks());
    order
}

/// The bytes that the suite writes.
pub fn data_to_write() -> (data: Vec<u8>)
    ensures
        data@ == suite_data(),
{
    let mut data: Vec<u8> = Vec::new();
    while data.len() < 32
        invariant
            data.len() <= 32,
            forall|i: int| 0 <= i < data.len() ==> data@[i] == 42u8,
        decreases 32 - data.len(),
    {
        data.push(42u8);
    }
    assert(data@ =~= suite_data());
    data
}

/// The longest namespace or key that a backend has to accept.
pub fn longest_component() -> (component: String)
    ensures
        component@ == longest(),
{
    let limit: usize = max_identifier_len();
    let mut component = String::new();
    let mut n: usize = 0;
    proof {
        reveal_strlit("A");
    }
    while n < limit
        invariant
            n <= limit,
            "A"@ == seq!['A'],
            component@.len() == n,
            forall|i: int| 0 <= i < n ==> component@[i] == 'A',
        decreases limit - n,
    {
        component.append("A");
        n += 1;
    }
    assert(component@ =~= longest());
    component
}

/// What the suite asks of the backend at a check.
pub fn request(check: Check) -> (request: Request)
    ensures
        request@ == asked(check),
{
    match check {
        Check::Write => Request::Write {
            primary_namespace: "testspace".to_owned(),
            secondary_namespace: "testsubspace".to_owned(),
            key: "testkey".to_owned(),
            data: data_to_write(),
        },
        Check::WriteGlobal => Request::Write {
            primary_namespace: String::new(),
            secondary_namespace: String::new(),
            key: "testkey".to_owned(),
            data: data_to_write(),
        },
        Check::RejectEmptyPrimary => Request::Write {
            primary_namespace: String::new(),
            secondary_namespace: "testsubspace".to_owned(),
            key: "testkey".to_owned(),
            data: data_to_write(),
        },
        Check::RejectEmptyKey => Request::Write {
            primary_namespace: "testspace".to_owned(),
            secondary_namespace: "testsubspace".to_owned(),
            key: String::new(),
            data: data_to_write(),
        },
        Check::ListWritten | Check::ListRemoved => Request::List {
            primary_namespace: "testspace".to_owned(),
            secondary_namespace: "testsubspace".to_owned(),
        },
        Check::ReadWritten => Request::Read {
            primary_namespace: "testspace".to_owned(),
            secondary_namespace: "testsubspace".to_owned(),
            key: "testkey".to_owned(),
        },
        Check::Remove => Request::Remove {
            primary_namespace: "testspace".to_owned(),
            secondary_namespace: "testsubspace".to_owned(),
            key: "testkey".to_owned(),
            lazy: false,
        },
        Check::WriteLongest => Request::Write {
            primary_namespace: longest_component(),
            secondary_namespace: longest_component(),
            key: longest_component(),
            data: data_to_write(),
        },
        Check::ListLongest | Check::ListLongestRemoved => Request::List {
            primary_namespace: longest_component(),
            secondary_namespace: longest_component(),
        },
        Check::ReadLongest => Request::Read {
            primary_namespace: longest_component(),
            secondary_namespace: longest_component(),
            key: longest_component(),
        },
        Check::RemoveLongest => Request::Remove {
            primary_namespace: longest_component(),
            secondary_namespace: longest_component(),
            key: longest_component(),
            lazy: false,
        },
    }
}

/// Whether a read returned the bytes that the suite wrote.
fn is_suite_data(bytes: &Vec<u8>) -> (same: bool)
    ensures
        same == (bytes@ == suite_data()),
{
    if bytes.len() != 32 {
        return false;
    }
    let mut i: usize = 0;
    while i < 32
        invariant
            i <= 32,
            bytes.len() == 32,
            forall|j: int| 0 <= j < i ==> bytes@[j] == 42u8,
        decreases 32 - i,
    {
        if bytes[i] != 42u8 {
            assert(bytes@[i as int] != suite_data()[i as int]);
            return false;
        }
        i += 1;
    }
    assert(bytes@ =~= suite_data());
    true
}

/// Whether a listing names the one key and nothing else.
fn lists_one(keys: &Vec<String>, key: String) -> (same: bool)
    ensures
        same == (keys.deep_view() == seq![key@]),
{
    let mut only: Vec<String> = Vec::new();
    only.push(key);
    assert(only.deep_view() =~= seq![key@]);
    equal_listings(keys, &only)
}

/// Whether the response is the one that passes the check.
pub fn passes(check: Check, response: &Response) -> (passed: bool)
    ensures
        passed == (response@ == expected(check)),
{
    match check {
        Check::Write
        | Check::WriteGlobal
        | Check::Remove
        | Check::WriteLongest
        | Check::RemoveLongest => match response {
            Response::Updated(Ok(done)) => {
                assert(*done == ());
                true
            },
            _ => false,
        },
        Check::RejectEmptyPrimary | Check::RejectEmptyKey => match response {
            Response::Updated(Err(e)) => *e == StoreError::InvalidIdentifier,
            _ => false,
        },
        Check::ListWritten => match response {
            Response::Keys(Ok(keys)) => lists_one(keys, "testkey".to_owned()),
            _ => false,
        },
        Check::ListLongest => match response {
            Response::Keys(Ok(keys)) => lists_one(keys, longest_component()),
            _ => false,
        },
        Check::ListRemoved | Check::ListLongestRemoved => match response {
            Response::Keys(Ok(keys)) => {
                assert(keys.deep_view().len() == keys.len());
                assert(keys.len() == 0 ==> keys.deep_view() =~= Seq::<Seq<char>>::empty());
                keys.len() == 0
            },
            _ => false,
        },
        Check::ReadWritten | Check::ReadLongest => match response {
            Response::Bytes(Ok(bytes)) => is_suite_data(bytes),
            _ => false,
        },
    }
}

/// What the suite saw: the responses to the checks it made, in order, and the
/// check that failed, if one did. The suite stops at the first failure.
#[derive(Debug, PartialEq, Eq)]
pub struct Report {
    pub responses: Vec<Response>,
    pub failed: Option<Check>,
}

/// The responses of a report as mathematical values.
pub open spec fn responses_view(responses: Vec<Response>) -> Seq<ResponseView> {
    Seq::new(responses@.len(), |i: int| responses@[i]@)
}

/// The verdict of a report is the one that its responses give: every check
/// but the last one made has passed, and the last one made has failed, or is
/// the last of the suite and has passed.
pub open spec fn justified(responses: Seq<ResponseView>, failed: Option<Check>) -> bool {
    &&& 0 < responses.len() <= checks().len()
    &&& forall|i: int| 0 <= i < responses.len() ==> answers(asked(checks()[i]), responses[i])
    &&& forall|i: int| 0 <= i < responses.len() - 1 ==> responses[i] == expected(checks()[i])
    &&& match failed {
        Some(check) => check == checks()[responses.len() - 1] && responses.last() != expected(
            check,
        ),
        None => responses.len() == checks().len() && responses.last() == expected(checks().last()),
    }
}

/// Puts one backend through the suite: a write, a listing, a read, a remove
/// and a listing on a short identifier, with the identifier rules in between,
/// and the same on an identifier of the maximum length. The namespace pairs
/// that the suite uses should hold no records at its start.
pub fn do_read_write_remove_list_persist<K: KVStore>(kv_store: &mut K) -> (report: Report)
    ensures
        justified(responses_view(report.responses), report.failed),
{
    let order = checks_in_order();
    let mut responses: Vec<Response> = Vec::new();
    let mut i: usize = 0;
    while i < order.len()
        invariant
            i <= order.len(),
            order@ == checks(),
            responses.len() == i,
            forall|j: int| 0 <= j < i ==> responses@[j]@ == expected(checks()[j]),
            forall|j: int| 0 <= j < i ==> answers(asked(checks()[j]), responses@[j]@),
        decreases order.len() - i,
    {
        let check = order[i];
        let asked_for = request(check);
        let response = perform(kv_store, &asked_for);
        let passed = passes(check, &response);
        responses.push(response);
        if !passed {
            return Report { responses, failed: Some(check) };
        }
        i += 1;
    }
    Report { responses, failed: None }
}

/// What a store that honours the contract, and whose medium does not fail,
/// may answer to a request while it holds `records`. Only the order of a
/// listing is left open.
pub open spec fn may_answer(
    records: Records,
    request: RequestView,
    response: ResponseView,
) -> bool {
    match request {
        RequestView::Write { primary, secondary, key, data } => response == ResponseView::Updated(
            if valid_identifier(primary, secondary, key) {
                Ok(())
            } else {
                Err(StoreError::InvalidIdentifier)
            },
        ),
        RequestView::Remove { primary, secondary, key, lazy } => response == ResponseView::Updated(
            if valid_identifier(primary, secondary, key) {
                Ok(())
            } else {
                Err(StoreError::InvalidIdentifier)
            },
        ),
        RequestView::Read { primary, secondary, key } => response == ResponseView::Bytes(
            if valid_identifier(primary, secondary, key) {
                read_result(records, primary, secondary, key)
            } else {
                Err(StoreError::InvalidIdentifier)
            },
        ),
        RequestView::List { primary, secondary } => response matches ResponseView::Keys(listed)
            && lists_exactly(listed, listed_keys(records, primary, secondary)),
    }
}

/// The records of such a store after a request.
pub open spec fn records_after(records: Records, request: RequestView) -> Records {
    match request {
        RequestView::Write { primary, secondary, key, data } => if valid_identifier(
            primary,
            secondary,
            key,
        ) {
            after_write(records, primary, secondary, key, data)
        } else {
            records
        },
        RequestView::Remove { primary, secondary, key, lazy } => if valid_identifier(
            primary,
            secondary,
            key,
        ) {
            after_remove(records, primary, secondary, key)
        } else {
            records
        },
        _ => records,
    }
}

/// The records of such a store when the suite comes to its check number
/// `i`, having started on `initial`.
pub open spec fn records_before(initial: Records, i: int) -> Records
    decreases i,
{
    if 0 < i <= checks().len() {
        records_after(records_before(initial, i - 1), asked(checks()[i - 1]))
    } else {
        initial
    }
}

/// A listing that names each key of a one-element set once names that key alone.
proof fn lists_exactly_one(listed: Result<Seq<Seq<char>>, StoreError>, key: Seq<char>)
    requires
        lists_exactly(listed, set![key]),
    ensures
        listed == Ok::<Seq<Seq<char>>, StoreError>(seq![key]),
{
    let keys = listed->Ok_0;
    assert(keys.to_set().contains(key));
    assert(keys.contains(key));
    assert(keys.len() >= 1);
    assert forall|i: int| 0 <= i < keys.len() implies keys[i] == key by {
        assert(keys.contains(keys[i]));
        assert(keys.to_set().contains(keys[i]));
    }
    if keys.len() >= 2 {
        assert(keys[0] == keys[1]);
    }
    assert(keys =~= seq![key]);
}

/// A listing that names each key of the empty set once is empty.
proof fn lists_exactly_none(listed: Result<Seq<Seq<char>>, StoreError>)
    requires
        lists_exactly(listed, Set::empty()),
    ensures
        listed == Ok::<Seq<Seq<char>>, StoreError>(Seq::empty()),
{
    let keys = listed->Ok_0;
    if keys.len() > 0 {
        assert(keys.contains(keys[0]));
        assert(keys.to_set().contains(keys[0]));
    }
    assert(keys =~= Seq::<Seq<char>>::empty());
}

/// The suite is sound: a store that honours the contract passes every check,
/// provided that the two namespace pairs of the suite hold nothing at its
/// start. Whatever such a store answers at a check is the response that the
/// check expects.
pub proof fn faithful_store_passes(initial: Records, i: int, response: ResponseView)
    requires
        0 <= i < checks().len(),
        listed_keys(initial, suite_primary(), suite_secondary()) == Set::<Seq<char>>::empty(),
        listed_keys(initial, longest(), longest()) == Set::<Seq<char>>::empty(),
        may_answer(records_before(initial, i), asked(checks()[i]), response),
    ensures
        response == expected(checks()[i]),
{
    reveal_strlit("testspace");
    reveal_strlit("testsubspace");
    reveal_strlit("testkey");
    reveal_with_fuel(records_before, 14);
    assert(suite_primary().len() == 9 && longest().len() == 120);
    assert(valid_identifier(suite_primary(), suite_secondary(), suite_key()));
    assert(valid_identifier(Seq::empty(), Seq::empty(), suite_key()));
    assert(valid_identifier(longest(), longest(), longest()));
    assert forall|key: Seq<char>|
        !initial.contains_key((suite_primary(), suite_secondary(), key)) by {
        assert(!listed_keys(initial, suite_primary(), suite_secondary()).contains(key));
    }
    assert forall|key: Seq<char>| !initial.contains_key((longest(), longest(), key)) by {
        assert(!listed_keys(initial, longest(), longest()).contains(key));
    }
    let held = records_before(initial, i);
    if i == 4 {
        assert(listed_keys(held, suite_primary(), suite_secondary()) =~= set![suite_key()]);
        lists_exactly_one(response->Keys_0, suite_key());
    } else if i == 7 {
        assert(listed_keys(held, suite_primary(), suite_secondary()) =~= Set::<Seq<char>>::empty());
        lists_exactly_none(response->Keys_0);
    } else if i == 9 {
        assert(listed_keys(held, longest(), longest()) =~= set![longest()]);
        lists_exactly_one(response->Keys_0, longest());
    } else if i == 12 {
        assert(listed_keys(held, longest(), longest()) =~= Set::<Seq<char>>::empty());
        lists_exactly_none(response->Keys_0);
    }
}

} // verus!
