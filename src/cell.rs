//! The values that a spreadsheet cell may hold, and lookup by field name.

use vstd::prelude::*;

use crate::text::same_text;

verus! {

/// One cell as the tabular source sends it.
#[derive(Debug)]
pub enum CellValue {
    Null,
    Bool(bool),
    /// A number, held as the numeral that names it.
    Number(String),
    Text(String),
    Array(Vec<CellValue>),
    Object(Vec<Entry>),
}

/// A named member of an object, or a named field of a record.
#[derive(Debug)]
pub struct Entry {
    pub key: String,
    pub value: CellValue,
}

/// The value under `key`: the first entry that bears that name.
pub open spec fn lookup(entries: Seq<Entry>, key: Seq<char>) -> Option<CellValue>
    decreases entries.len(),
{
    if entries.len() == 0 {
        None
    } else if entries[0].key@ == key {
        Some(entries[0].value)
    } else {
        lookup(entries.skip(1), key)
    }
}

/// The member `key` of an object; nothing for any other shape.
pub open spec fn member(v: CellValue, key: Seq<char>) -> Option<CellValue> {
    match v {
        CellValue::Object(es) => lookup(es@, key),
        _ => None,
    }
}

/// The member `key` of an object, when it is a string.
pub open spec fn member_text(v: CellValue, key: Seq<char>) -> Option<Seq<char>> {
    match member(v, key) {
        Some(CellValue::Text(s)) => Some(s@),
        _ => None,
    }
}

pub open spec fn opt_ref_is(r: Option<&CellValue>, o: Option<CellValue>) -> bool {
    match r {
        Some(v) => o == Some(*v),
        None => o is None,
    }
}

/// The value under `key` among `entries`.
pub fn find<'a>(entries: &'a Vec<Entry>, key: &str) -> (r: Option<&'a CellValue>)
    ensures
        opt_ref_is(r, lookup(entries@, key@)),
{
    let mut i: usize = 0;
    assert(entries@.skip(0) =~= entries@);
    while i < entries.len()
        invariant
            i <= entries@.len(),
            lookup(entries@, key@) == lookup(entries@.skip(i as int), key@),
        decreases entries@.len() - i,
    {
        let e = &entries[i];
        assert(entries@.skip(i as int)[0] == entries@[i as int]);
        if same_text(e.key.as_str(), key) {
            return Some(&e.value);
        }
        assert(entries@.skip(i as int).skip(1) =~= entries@.skip(i + 1));
        i = i + 1;
    }
    None
}

/// The member `key` of `v`, when `v` is an object.
pub fn get_member<'a>(v: &'a CellValue, key: &str) -> (r: Option<&'a CellValue>)
    ensures
        opt_ref_is(r, member(*v, key@)),
{
    match v {
        CellValue::Object(es) => find(es, key),
        _ => None,
    }
}

/// The member `key` of `v`, when it is a string.
pub fn get_member_text<'a>(v: &'a CellValue, key: &str) -> (r: Option<&'a String>)
    ensures
        match r {
            Some(s) => member_text(*v, key@) == Some(s@),
            None => member_text(*v, key@) is None,
        },
{
    match get_member(v, key) {
        Some(CellValue::Text(s)) => Some(s),
        _ => None,
    }
}

} // verus!
