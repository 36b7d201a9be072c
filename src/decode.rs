//! Typed readings of the cells of one record. Each reading is total: a field
//! that is absent or of another shape reads as nothing.

use vstd::prelude::*;

use crate::cell::{find, get_member_text, lookup, member_text, CellValue, Entry};
use crate::decimal::{clamp, is_numeral, numeral_trunc, reads_as, Decimal};

verus! {

pub open spec fn opt_view(r: Option<String>) -> Option<Seq<char>> {
    match r {
        Some(s) => Some(s@),
        None => None,
    }
}

/// The texts of the rich-text segments among `items`, joined in order.
pub open spec fn segment_texts(items: Seq<CellValue>) -> Seq<char>
    decreases items.len(),
{
    if items.len() == 0 {
        Seq::empty()
    } else {
        segment_texts(items.drop_last()) + match member_text(items.last(), "text"@) {
            Some(t) => t,
            None => Seq::empty(),
        }
    }
}

pub open spec fn has_segment(items: Seq<CellValue>) -> bool {
    exists|i: int| 0 <= i < items.len() && (#[trigger] member_text(items[i], "text"@)) is Some
}

/// Text: a string as it is; else the joined rich-text segments, if there is
/// one; else the numeral of a number.
pub open spec fn text_value(v: CellValue) -> Option<Seq<char>> {
    match v {
        CellValue::Text(s) => Some(s@),
        CellValue::Array(items) => if has_segment(items@) {
            Some(segment_texts(items@))
        } else {
            None
        },
        CellValue::Number(n) => Some(n@),
        _ => None,
    }
}

/// What a number is read from: a number's numeral, or a string.
pub open spec fn number_source(v: CellValue) -> Option<Seq<char>> {
    match v {
        CellValue::Number(n) => Some(n@),
        CellValue::Text(s) => Some(s@),
        _ => None,
    }
}

/// Single choice: a string as it is, else the `text` member of an object.
pub open spec fn select_value(v: CellValue) -> Option<Seq<char>> {
    match v {
        CellValue::Text(s) => Some(s@),
        _ => member_text(v, "text"@),
    }
}

/// The first element of an array.
pub open spec fn first_item(v: CellValue) -> Option<CellValue> {
    match v {
        CellValue::Array(items) => if items@.len() > 0 {
            Some(items@[0])
        } else {
            None
        },
        _ => None,
    }
}

/// A linked record: the member `key` of the first element, else that element
/// itself when it is a string.
pub open spec fn link_value(v: CellValue, key: Seq<char>) -> Option<Seq<char>> {
    match first_item(v) {
        Some(first) => match member_text(first, key) {
            Some(t) => Some(t),
            None => match first {
                CellValue::Text(s) => Some(s@),
                _ => None,
            },
        },
        None => None,
    }
}

/// A hyperlink: a string as it is, else the `link` member, else the `text`
/// member.
pub open spec fn url_value(v: CellValue) -> Option<Seq<char>> {
    match v {
        CellValue::Text(s) => Some(s@),
        _ => match member_text(v, "link"@) {
            Some(l) => Some(l),
            None => member_text(v, "text"@),
        },
    }
}

/// An attachment's address: the first file's `tmp_url`, else its `url`.
pub open spec fn attachment_url_value(v: CellValue) -> Option<Seq<char>> {
    match first_item(v) {
        Some(first) => match member_text(first, "tmp_url"@) {
            Some(u) => Some(u),
            None => member_text(first, "url"@),
        },
        None => None,
    }
}

/// The token of the first file of an attachment field.
pub open spec fn attachment_token_value(v: CellValue) -> Option<Seq<char>> {
    match first_item(v) {
        Some(first) => member_text(first, "file_token"@),
        None => None,
    }
}

pub open spec fn field_attachment_token(fields: Seq<Entry>, key: Seq<char>) -> Option<Seq<char>> {
    match lookup(fields, key) {
        Some(v) => attachment_token_value(v),
        None => None,
    }
}

/// Attachment field: the token of the first file.
pub fn extract_attachment_token(fields: &Vec<Entry>, key: &str) -> (r: Option<String>)
    ensures
        opt_view(r) == field_attachment_token(fields@, key@),
{
    match find(fields, key) {
        None => None,
        Some(v) => match v {
            CellValue::Array(items) => {
                if items.len() == 0 {
                    return None;
                }
                member_copy(&items[0], "file_token")
            },
            _ => None,
        },
    }
}

/// Applies a reading to the field `key`, if there is one.
pub open spec fn field_text(fields: Seq<Entry>, key: Seq<char>) -> Option<Seq<char>> {
    match lookup(fields, key) {
        Some(v) => text_value(v),
        None => None,
    }
}

pub open spec fn field_number_source(fields: Seq<Entry>, key: Seq<char>) -> Option<Seq<char>> {
    match lookup(fields, key) {
        Some(v) => number_source(v),
        None => None,
    }
}

/// What reading a number from the field `key` gives.
pub open spec fn field_number_reads(fields: Seq<Entry>, key: Seq<char>, r: Option<Decimal>) -> bool {
    match field_number_source(fields, key) {
        Some(t) => reads_as(t, r),
        None => r is None,
    }
}

pub open spec fn field_bool(fields: Seq<Entry>, key: Seq<char>) -> bool {
    match lookup(fields, key) {
        Some(CellValue::Bool(b)) => b,
        _ => false,
    }
}

pub open spec fn field_select(fields: Seq<Entry>, key: Seq<char>) -> Option<Seq<char>> {
    match lookup(fields, key) {
        Some(v) => select_value(v),
        None => None,
    }
}

pub open spec fn field_link_text(fields: Seq<Entry>, key: Seq<char>) -> Option<Seq<char>> {
    match lookup(fields, key) {
        Some(v) => link_value(v, "text"@),
        None => None,
    }
}

pub open spec fn field_link_record_id(fields: Seq<Entry>, key: Seq<char>) -> Option<Seq<char>> {
    match lookup(fields, key) {
        Some(v) => link_value(v, "record_id"@),
        None => None,
    }
}

pub open spec fn field_url(fields: Seq<Entry>, key: Seq<char>) -> Option<Seq<char>> {
    match lookup(fields, key) {
        Some(v) => url_value(v),
        None => None,
    }
}

pub open spec fn field_attachment_url(fields: Seq<Entry>, key: Seq<char>) -> Option<Seq<char>> {
    match lookup(fields, key) {
        Some(v) => attachment_url_value(v),
        None => None,
    }
}

fn copy_text(s: &String) -> (r: Option<String>)
    ensures
        opt_view(r) == Some(s@),
{
    Some(s.clone())
}

fn member_copy(v: &CellValue, key: &str) -> (r: Option<String>)
    ensures
        opt_view(r) == member_text(*v, key@),
{
    match get_member_text(v, key) {
        Some(s) => Some(s.clone()),
        None => None,
    }
}

fn joined_segments(items: &Vec<CellValue>) -> (r: Option<String>)
    ensures
        opt_view(r) == (if has_segment(items@) { Some(segment_texts(items@)) } else { None }),
{
    let mut acc = String::new();
    let mut found = false;
    let mut i: usize = 0;
    assert(items@.take(0) =~= Seq::<CellValue>::empty());
    while i < items.len()
        invariant
            i <= items@.len(),
            acc@ == segment_texts(items@.take(i as int)),
            found <==> exists|k: int| 0 <= k < i && (#[trigger] member_text(items@[k], "text"@)) is Some,
        decreases items@.len() - i,
    {
        assert(items@.take(i + 1).drop_last() =~= items@.take(i as int));
        assert(items@.take(i + 1).last() == items@[i as int]);
        match get_member_text(&items[i], "text") {
            Some(t) => {
                acc.append(t.as_str());
                found = true;
            },
            None => {
                assert(acc@ =~= acc@ + Seq::<char>::empty());
            },
        }
        i = i + 1;
    }
    assert(items@.take(i as int) =~= items@);
    if found {
        Some(acc)
    } else {
        None
    }
}

/// Text field: a string, else joined rich-text segments, else a number's
/// numeral.
pub fn extract_text(fields: &Vec<Entry>, key: &str) -> (r: Option<String>)
    ensures
        opt_view(r) == field_text(fields@, key@),
{
    match find(fields, key) {
        None => None,
        Some(v) => match v {
            CellValue::Text(s) => copy_text(s),
            CellValue::Array(items) => joined_segments(items),
            CellValue::Number(n) => copy_text(n),
            _ => None,
        },
    }
}

/// Number field: a number, or a string that is a numeral.
pub fn extract_number(fields: &Vec<Entry>, key: &str) -> (r: Option<Decimal>)
    ensures
        field_number_reads(fields@, key@, r),
{
    match find(fields, key) {
        None => None,
        Some(v) => match v {
            CellValue::Number(n) => Decimal::parse(n.as_str()),
            CellValue::Text(s) => Decimal::parse(s.as_str()),
            _ => None,
        },
    }
}

/// Checkbox field: its boolean, else `false`.
pub fn extract_bool(fields: &Vec<Entry>, key: &str) -> (r: bool)
    ensures
        r == field_bool(fields@, key@),
{
    match find(fields, key) {
        Some(CellValue::Bool(b)) => *b,
        _ => false,
    }
}

/// Single-choice field: a string, else the `text` member of an object.
pub fn extract_select(fields: &Vec<Entry>, key: &str) -> (r: Option<String>)
    ensures
        opt_view(r) == field_select(fields@, key@),
{
    match find(fields, key) {
        None => None,
        Some(v) => match v {
            CellValue::Text(s) => copy_text(s),
            _ => member_copy(v, "text"),
        },
    }
}

fn first_link(v: &CellValue, key: &str) -> (r: Option<String>)
    ensures
        opt_view(r) == link_value(*v, key@),
{
    match v {
        CellValue::Array(items) => {
            if items.len() == 0 {
                return None;
            }
            let first = &items[0];
            match member_copy(first, key) {
                Some(t) => Some(t),
                None => match first {
                    CellValue::Text(s) => copy_text(s),
                    _ => None,
                },
            }
        },
        _ => None,
    }
}

/// Linked-record field: the display text of the first linked record.
pub fn extract_link_text(fields: &Vec<Entry>, key: &str) -> (r: Option<String>)
    ensures
        opt_view(r) == field_link_text(fields@, key@),
{
    match find(fields, key) {
        None => None,
        Some(v) => first_link(v, "text"),
    }
}

/// Linked-record field: the record id of the first linked record.
pub fn extract_link_record_id(fields: &Vec<Entry>, key: &str) -> (r: Option<String>)
    ensures
        opt_view(r) == field_link_record_id(fields@, key@),
{
    match find(fields, key) {
        None => None,
        Some(v) => first_link(v, "record_id"),
    }
}

/// Phone field: read as text.
pub fn extract_phone(fields: &Vec<Entry>, key: &str) -> (r: Option<String>)
    ensures
        opt_view(r) == field_text(fields@, key@),
{
    extract_text(fields, key)
}

/// Hyperlink field: a string, else the `link` member, else the `text` member.
pub fn extract_url(fields: &Vec<Entry>, key: &str) -> (r: Option<String>)
    ensures
        opt_view(r) == field_url(fields@, key@),
{
    match find(fields, key) {
        None => None,
        Some(v) => match v {
            CellValue::Text(s) => copy_text(s),
            _ => match member_copy(v, "link") {
                Some(l) => Some(l),
                None => member_copy(v, "text"),
            },
        },
    }
}

/// Attachment field: the first file's `tmp_url`, else its `url`.
pub fn extract_attachment_url(fields: &Vec<Entry>, key: &str) -> (r: Option<String>)
    ensures
        opt_view(r) == field_attachment_url(fields@, key@),
{
    match find(fields, key) {
        None => None,
        Some(v) => match v {
            CellValue::Array(items) => {
                if items.len() == 0 {
                    return None;
                }
                match member_copy(&items[0], "tmp_url") {
                    Some(u) => Some(u),
                    None => member_copy(&items[0], "url"),
                }
            },
            _ => None,
        },
    }
}


/// A number field rounded toward zero and held to `lo..=hi`, as a cast from
/// a float does.
pub open spec fn field_int(fields: Seq<Entry>, key: Seq<char>, lo: int, hi: int) -> Option<int> {
    match field_number_source(fields, key) {
        Some(t) => if is_numeral(t) {
            Some(clamp(numeral_trunc(t), lo, hi))
        } else {
            None
        },
        None => None,
    }
}

pub open spec fn field_i32(fields: Seq<Entry>, key: Seq<char>) -> Option<int> {
    field_int(fields, key, i32::MIN as int, i32::MAX as int)
}

pub open spec fn field_i64(fields: Seq<Entry>, key: Seq<char>) -> Option<int> {
    field_int(fields, key, i64::MIN as int, i64::MAX as int)
}

/// A number field as an `i32`, or 0 when there is none.
pub open spec fn field_i32_or_zero(fields: Seq<Entry>, key: Seq<char>) -> int {
    match field_i32(fields, key) {
        Some(x) => x,
        None => 0,
    }
}

pub open spec fn opt_i32(r: Option<i32>) -> Option<int> {
    match r {
        Some(x) => Some(x as int),
        None => None,
    }
}

pub open spec fn opt_i64(r: Option<i64>) -> Option<int> {
    match r {
        Some(x) => Some(x as int),
        None => None,
    }
}

/// A number field rounded toward zero, as an `i32`.
pub fn extract_i32(fields: &Vec<Entry>, key: &str) -> (r: Option<i32>)
    ensures
        opt_i32(r) == field_i32(fields@, key@),
{
    match extract_number(fields, key) {
        Some(d) => Some(d.to_i32()),
        None => None,
    }
}

/// A number field rounded toward zero, as an `i64`.
pub fn extract_i64(fields: &Vec<Entry>, key: &str) -> (r: Option<i64>)
    ensures
        opt_i64(r) == field_i64(fields@, key@),
{
    match extract_number(fields, key) {
        Some(d) => Some(d.to_i64()),
        None => None,
    }
}

/// A number field rounded toward zero, or 0.
pub fn extract_i32_or_zero(fields: &Vec<Entry>, key: &str) -> (r: i32)
    ensures
        r as int == field_i32_or_zero(fields@, key@),
{
    match extract_i32(fields, key) {
        Some(x) => x,
        None => 0,
    }
}

} // verus!
