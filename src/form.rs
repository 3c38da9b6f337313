//! Request bodies and query strings: flat key-value pairs rendered in the
//! `application/x-www-form-urlencoded` format.

use vstd::prelude::*;

verus! {

/// `serde_urlencoded::ser::Error`, the error type of its serializer.
#[verifier::external_type_specification]
#[verifier::external_body]
pub struct ExUrlencodedError(serde_urlencoded::ser::Error);

/// The `application/x-www-form-urlencoded` rendering of key-value pairs.
pub uninterp spec fn urlencoded(pairs: Seq<(Seq<char>, Seq<char>)>) -> Seq<char>;

/// Key-value pairs as held in a `Vec`, viewed as sequences.
pub open spec fn pairs_view(v: Vec<(String, String)>) -> Seq<(Seq<char>, Seq<char>)> {
    Seq::new(v@.len(), |i: int| (v@[i].0@, v@[i].1@))
}

/// Relies on `serde_urlencoded::to_string`, which renders a sequence of
/// pairs of strings (it never fails on one: each pair goes through its
/// pair serializer to `form_urlencoded`'s `append_pair`).
#[verifier::external_body]
fn form_urlencode(pairs: &Vec<(String, String)>) -> (r: Result<String, serde_urlencoded::ser::Error>)
    ensures
        match r {
            Ok(s) => s@ == urlencoded(pairs_view(*pairs)),
            Err(_) => false,
        },
{
    serde_urlencoded::to_string(pairs)
}

/// Renders key-value pairs, in order, as a form-urlencoded string.
pub fn encode_form(pairs: &Vec<(String, String)>) -> (r: String)
    ensures
        r@ == urlencoded(pairs_view(*pairs)),
{
    match form_urlencode(pairs) {
        Ok(s) => s,
        Err(_) => String::new(),
    }
}

/// Appends copies of the pairs of `extra` to `out`.
pub fn append_pairs(out: &mut Vec<(String, String)>, extra: &Vec<(String, String)>)
    ensures
        pairs_view(*final(out)) == pairs_view(*old(out)) + pairs_view(*extra),
{
    let ghost start = pairs_view(*out);
    let mut i: usize = 0;
    while i < extra.len()
        invariant
            i <= extra@.len(),
            pairs_view(*out) == start + pairs_view(*extra).subrange(0, i as int),
        decreases extra@.len() - i,
    {
        let k = extra[i].0.clone();
        let v = extra[i].1.clone();
        let ghost prev = *out;
        out.push((k, v));
        assert(pairs_view(*out) =~= pairs_view(prev).push((extra@[i as int].0@, extra@[i as int].1@)));
        assert(pairs_view(*out) =~= start + pairs_view(*extra).subrange(0, i + 1));
        i = i + 1;
    }
    assert(pairs_view(*extra).subrange(0, i as int) =~= pairs_view(*extra));
}

/// A pair of a key and a value.
pub fn pair(key: &str, value: String) -> (r: (String, String))
    ensures
        r.0@ == key@,
        r.1@ == value@,
{
    (String::from_str(key), value)
}

} // verus!
