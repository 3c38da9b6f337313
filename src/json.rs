//! Reading decoded documents, held as JSON text. Each reader parses one
//! piece of JSON text; the members of an object and the elements of an
//! array come back as JSON text of their own, so a document is read one
//! level at a time.

use vstd::prelude::*;
use vstd::slice::slice_to_vec;
use crate::text::text_eq;

verus! {

/// The members of a JSON object in `b`, each value as its own JSON text;
/// `None` when `b` is not a JSON object.
pub uninterp spec fn json_object(b: Seq<u8>) -> Option<Seq<(Seq<char>, Seq<u8>)>>;

/// The elements of a JSON array in `b`, each as its own JSON text; `None`
/// when `b` is not a JSON array.
pub uninterp spec fn json_array(b: Seq<u8>) -> Option<Seq<Seq<u8>>>;

/// The JSON string in `b`, unescaped; `None` when `b` is not a JSON string.
pub uninterp spec fn json_text(b: Seq<u8>) -> Option<Seq<char>>;

/// `Some(None)` when `b` is JSON `null`, `Some(Some(n))` when it is an
/// integer that fits a `u64`, `None` otherwise.
pub uninterp spec fn json_opt_u64(b: Seq<u8>) -> Option<Option<u64>>;

/// The integer in `b` when it is one that fits an `i64`; `None` otherwise.
pub uninterp spec fn json_i64(b: Seq<u8>) -> Option<i64>;

/// The members of an object as held in a `Vec`, viewed as sequences.
pub open spec fn members_view(v: Vec<(String, Vec<u8>)>) -> Seq<(Seq<char>, Seq<u8>)> {
    Seq::new(v@.len(), |i: int| (v@[i].0@, v@[i].1@))
}

/// The elements of an array as held in a `Vec`, viewed as sequences.
pub open spec fn elements_view(v: Vec<Vec<u8>>) -> Seq<Seq<u8>> {
    Seq::new(v@.len(), |i: int| v@[i]@)
}

/// The value of the first member named `key`.
pub open spec fn field(members: Seq<(Seq<char>, Seq<u8>)>, key: Seq<char>) -> Option<Seq<u8>>
    decreases members.len(),
{
    if members.len() == 0 {
        None
    } else if members[0].0 == key {
        Some(members[0].1)
    } else {
        field(members.drop_first(), key)
    }
}

/// Relies on `serde_json::from_slice` into a `BTreeMap<String, Box<RawValue>>`:
/// the members of a JSON object, each value kept as its raw JSON text.
#[verifier::external_body]
pub(crate) fn read_object(b: &[u8]) -> (r: Result<Vec<(String, Vec<u8>)>, serde_json::Error>)
    ensures
        match r {
            Ok(v) => json_object(b@) == Some(members_view(v)),
            Err(_) => json_object(b@) is None,
        },
{
    serde_json::from_slice::<std::collections::BTreeMap<String, Box<serde_json::value::RawValue>>>(b)
        .map(|m| m.into_iter().map(|(k, v)| (k, v.get().as_bytes().to_vec())).collect())
}

/// Relies on `serde_json::from_slice` into a `Vec<Box<RawValue>>`: the
/// elements of a JSON array, each kept as its raw JSON text.
#[verifier::external_body]
pub(crate) fn read_array(b: &[u8]) -> (r: Result<Vec<Vec<u8>>, serde_json::Error>)
    ensures
        match r {
            Ok(v) => json_array(b@) == Some(elements_view(v)),
            Err(_) => json_array(b@) is None,
        },
{
    serde_json::from_slice::<Vec<Box<serde_json::value::RawValue>>>(b)
        .map(|v| v.into_iter().map(|x| x.get().as_bytes().to_vec()).collect())
}

/// Relies on `serde_json::from_slice` into a `String`: a JSON string, unescaped.
#[verifier::external_body]
pub(crate) fn read_text(b: &[u8]) -> (r: Result<String, serde_json::Error>)
    ensures
        match r {
            Ok(s) => json_text(b@) == Some(s@),
            Err(_) => json_text(b@) is None,
        },
{
    serde_json::from_slice::<String>(b)
}

/// Relies on `serde_json::from_slice` into an `Option<u64>`: `null` or an
/// unsigned integer.
#[verifier::external_body]
pub(crate) fn read_opt_u64(b: &[u8]) -> (r: Result<Option<u64>, serde_json::Error>)
    ensures
        match r {
            Ok(n) => json_opt_u64(b@) == Some(n),
            Err(_) => json_opt_u64(b@) is None,
        },
{
    serde_json::from_slice::<Option<u64>>(b)
}

/// Relies on `serde_json::from_slice` into an `i64`: a signed integer.
#[verifier::external_body]
pub(crate) fn read_i64(b: &[u8]) -> (r: Result<i64, serde_json::Error>)
    ensures
        match r {
            Ok(n) => json_i64(b@) == Some(n),
            Err(_) => json_i64(b@) is None,
        },
{
    serde_json::from_slice::<i64>(b)
}

/// The value of the first member of `members` named `key`, as JSON text.
pub fn find_field(members: &Vec<(String, Vec<u8>)>, key: &str) -> (r: Option<Vec<u8>>)
    ensures
        match r {
            Some(v) => field(members_view(*members), key@) == Some(v@),
            None => field(members_view(*members), key@) is None,
        },
{
    let ghost all = members_view(*members);
    let n = members.len();
    let mut i: usize = 0;
    assert(all.subrange(0, n as int) =~= all);
    while i < n
        invariant
            n == members@.len(),
            all == members_view(*members),
            i <= n,
            field(all, key@) == field(all.subrange(i as int, n as int), key@),
        decreases n - i,
    {
        let ghost rest = all.subrange(i as int, n as int);
        assert(rest.drop_first() =~= all.subrange(i + 1, n as int));
        if text_eq(members[i].0.as_str(), key) {
            return Some(slice_to_vec(members[i].1.as_slice()));
        }
        i = i + 1;
    }
    assert(all.subrange(n as int, n as int).len() == 0);
    None
}

} // verus!
