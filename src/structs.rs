//! Values that requests carry as text: lists and API versions.

use vstd::prelude::*;
use crate::text::{decimal, decimal_string, signed_decimal, signed_decimal_string};

verus! {

/// An item of a `List`: anything with a text rendering.
pub trait ListItem {
    /// The item's text.
    spec fn item_text(&self) -> Seq<char>;

    fn to_item_string(&self) -> (r: String)
        ensures
            r@ == self.item_text(),
    ;
}

impl ListItem for i32 {
    open spec fn item_text(&self) -> Seq<char> {
        signed_decimal(*self as int)
    }

    fn to_item_string(&self) -> (r: String) {
        signed_decimal_string(*self as i64)
    }
}

impl ListItem for i64 {
    open spec fn item_text(&self) -> Seq<char> {
        signed_decimal(*self as int)
    }

    fn to_item_string(&self) -> (r: String) {
        signed_decimal_string(*self)
    }
}

impl ListItem for u32 {
    open spec fn item_text(&self) -> Seq<char> {
        decimal(*self as nat)
    }

    fn to_item_string(&self) -> (r: String) {
        decimal_string(*self as u64)
    }
}

impl ListItem for u64 {
    open spec fn item_text(&self) -> Seq<char> {
        decimal(*self as nat)
    }

    fn to_item_string(&self) -> (r: String) {
        decimal_string(*self)
    }
}

impl ListItem for usize {
    open spec fn item_text(&self) -> Seq<char> {
        decimal(*self as nat)
    }

    fn to_item_string(&self) -> (r: String) {
        decimal_string(*self as u64)
    }
}

impl ListItem for i8 {
    open spec fn item_text(&self) -> Seq<char> {
        signed_decimal(*self as int)
    }

    fn to_item_string(&self) -> (r: String) {
        signed_decimal_string(*self as i64)
    }
}

impl ListItem for i16 {
    open spec fn item_text(&self) -> Seq<char> {
        signed_decimal(*self as int)
    }

    fn to_item_string(&self) -> (r: String) {
        signed_decimal_string(*self as i64)
    }
}

impl ListItem for isize {
    open spec fn item_text(&self) -> Seq<char> {
        signed_decimal(*self as int)
    }

    fn to_item_string(&self) -> (r: String) {
        signed_decimal_string(*self as i64)
    }
}

impl ListItem for u8 {
    open spec fn item_text(&self) -> Seq<char> {
        decimal(*self as nat)
    }

    fn to_item_string(&self) -> (r: String) {
        decimal_string(*self as u64)
    }
}

impl ListItem for u16 {
    open spec fn item_text(&self) -> Seq<char> {
        decimal(*self as nat)
    }

    fn to_item_string(&self) -> (r: String) {
        decimal_string(*self as u64)
    }
}

impl<'a> ListItem for &'a str {
    open spec fn item_text(&self) -> Seq<char> {
        (*self)@
    }

    fn to_item_string(&self) -> (r: String) {
        String::from_str(*self)
    }
}

impl ListItem for String {
    open spec fn item_text(&self) -> Seq<char> {
        self@
    }

    fn to_item_string(&self) -> (r: String) {
        String::from_str(self.as_str())
    }
}

/// Texts joined with commas between them.
pub open spec fn comma_joined(items: Seq<Seq<char>>) -> Seq<char>
    decreases items.len(),
{
    if items.len() == 0 {
        Seq::empty()
    } else if items.len() == 1 {
        items[0]
    } else {
        comma_joined(items.drop_last()) + seq![','] + items.last()
    }
}

/// A list parameter of the VK API: its items are sent as one text,
/// separated by commas.
#[derive(Clone, Debug)]
pub struct List<I>(pub I);

impl<T: ListItem> List<Vec<T>> {
    /// The texts of the items, in order.
    pub open spec fn item_texts(&self) -> Seq<Seq<char>> {
        Seq::new(self.0@.len(), |i: int| self.0@[i].item_text())
    }

    /// The items' texts joined with commas.
    pub fn to_string(&self) -> (r: String)
        ensures
            r@ == comma_joined(self.item_texts()),
    {
        let n = self.0.len();
        if n == 0 {
            return String::new();
        }
        let mut result = self.0[0].to_item_string();
        let mut i: usize = 1;
        proof {
            reveal_strlit(",");
            assert(self.item_texts().subrange(0, 1).drop_last().len() == 0);
        }
        while i < n
            invariant
                n == self.0@.len(),
                1 <= i <= n,
                result@ == comma_joined(self.item_texts().subrange(0, i as int)),
            decreases n - i,
        {
            let ghost before = result@;
            proof {
                reveal_strlit(",");
            }
            result.append(",");
            let item = self.0[i].to_item_string();
            result.append(item.as_str());
            let ghost prefix = self.item_texts().subrange(0, i + 1);
            assert(prefix.drop_last() =~= self.item_texts().subrange(0, i as int));
            assert(prefix.last() == item@);
            assert(result@ =~= before + seq![','] + item@);
            i = i + 1;
        }
        assert(self.item_texts().subrange(0, n as int) =~= self.item_texts());
        result
    }
}

/// Major and minor version of the VK API.
#[derive(Clone, Copy, Debug, PartialEq, Eq, Structural)]
pub struct Version(pub u8, pub u16);

/// The text of a version: major and minor in decimal, joined by a dot.
pub open spec fn version_text(v: Version) -> Seq<char> {
    decimal(v.0 as nat) + seq!['.'] + decimal(v.1 as nat)
}

impl Version {
    /// The version as sent to the API, such as `5.131`.
    pub fn to_string(&self) -> (r: String)
        ensures
            r@ == version_text(*self),
    {
        proof {
            reveal_strlit(".");
        }
        let major = decimal_string(self.0 as u64);
        let minor = decimal_string(self.1 as u64);
        major.concat(".").concat(minor.as_str())
    }
}

impl Default for Version {
    /// The version this client speaks unless told otherwise: 5.131.
    fn default() -> (r: Version)
        ensures
            r == Version(5, 131),
    {
        Version(5, 131)
    }
}

} // verus!
