//! Media records: attachment references, the playlist entries built from
//! them, and the slug that names an asset's output location.

use vstd::prelude::*;

use crate::cell::{find, get_member, get_member_text, member, member_text, CellValue, Entry};
use crate::decimal::{numeral_u64, parse_u64};
use crate::decode::{
    extract_i32_or_zero, extract_i64, extract_select, extract_text, extract_url, field_i32_or_zero,
    field_i64, field_select, field_text, field_url, first_item, opt_i64, opt_view,
};
use crate::records::{or_else, text_or, ParseError};
use crate::text::{chars_of, owned};

verus! {

/// An uploaded file as the source describes it. The pair of token and size
/// identifies its content.
#[derive(Clone, Debug)]
pub struct AttachmentInfo {
    pub file_token: String,
    pub name: String,
    pub size: u64,
}

/// The member `key` of `v`, when it is a number naming a `u64`.
pub open spec fn member_u64(v: CellValue, key: Seq<char>) -> Option<u64> {
    match member(v, key) {
        Some(CellValue::Number(n)) => numeral_u64(n@),
        _ => None,
    }
}

/// The first file of an attachment field, when it has a token, a name and a
/// size.
pub open spec fn attachment_value(v: CellValue) -> Option<(Seq<char>, Seq<char>, u64)> {
    match first_item(v) {
        Some(first) => match (
            member_text(first, "file_token"@),
            member_text(first, "name"@),
            member_u64(first, "size"@),
        ) {
            (Some(t), Some(n), Some(s)) => Some((t, n, s)),
            _ => None,
        },
        None => None,
    }
}

pub open spec fn field_attachment(fields: Seq<Entry>, key: Seq<char>) -> Option<(Seq<char>, Seq<char>, u64)> {
    match crate::cell::lookup(fields, key) {
        Some(v) => attachment_value(v),
        None => None,
    }
}

pub open spec fn attachment_view(a: Option<AttachmentInfo>) -> Option<(Seq<char>, Seq<char>, u64)> {
    match a {
        Some(x) => Some((x.file_token@, x.name@, x.size)),
        None => None,
    }
}

/// The token, name and size of the first file of an attachment field.
pub fn extract_attachment_info(fields: &Vec<Entry>, key: &str) -> (r: Option<AttachmentInfo>)
    ensures
        attachment_view(r) == field_attachment(fields@, key@),
{
    let v = match find(fields, key) {
        Some(v) => v,
        None => return None,
    };
    let first = match v {
        CellValue::Array(items) => {
            if items.len() == 0 {
                return None;
            }
            &items[0]
        },
        _ => return None,
    };
    let file_token = match get_member_text(first, "file_token") {
        Some(t) => t.clone(),
        None => return None,
    };
    let name = match get_member_text(first, "name") {
        Some(n) => n.clone(),
        None => return None,
    };
    let size = match get_member(first, "size") {
        Some(CellValue::Number(n)) => match parse_u64(n.as_str()) {
            Some(s) => s,
            None => return None,
        },
        _ => return None,
    };
    Some(AttachmentInfo { file_token, name, size })
}

/// `video` for `video` or `视频`; `image` for anything else.
pub open spec fn media_kind(raw: Seq<char>) -> Seq<char> {
    if raw == "video"@ || raw == "视频"@ {
        "video"@
    } else {
        "image"@
    }
}

/// Accepts the English and the Chinese name of a media type.
pub fn normalize_media_type(raw: &str) -> (r: &'static str)
    ensures
        r@ == media_kind(raw@),
{
    if crate::text::same_text(raw, "video") || crate::text::same_text(raw, "视频") {
        "video"
    } else {
        "image"
    }
}

/// A media record before its asset is processed.
#[derive(Clone, Debug)]
pub struct RawMediaItem {
    /// `video` or `image`.
    pub media_type: String,
    pub title: Option<String>,
    pub duration: Option<i64>,
    pub sort_order: i32,
    /// The external address, if any.
    pub external_url: Option<String>,
    /// The uploaded file, if any.
    pub attachment: Option<AttachmentInfo>,
}

pub open spec fn raw_media_item_from(f: Seq<Entry>, m: RawMediaItem) -> bool {
    &&& m.media_type@ == media_kind(or_else(field_select(f, "媒体类型"@), "image"@))
    &&& opt_view(m.title) == field_text(f, "标题"@)
    &&& opt_i64(m.duration) == field_i64(f, "时长(ms)"@)
    &&& m.sort_order as int == field_i32_or_zero(f, "排序"@)
    &&& opt_view(m.external_url) == field_url(f, "外部链接"@)
    &&& attachment_view(m.attachment) == field_attachment(f, "文件"@)
}

/// Builds a media record; it needs an attachment or an external link.
pub fn parse_raw_media_item(fields: &Vec<Entry>) -> (r: Result<RawMediaItem, ParseError>)
    ensures
        r is Ok <==> (field_url(fields@, "外部链接"@) is Some || field_attachment(fields@, "文件"@) is Some),
        r matches Err(e) ==> e is MissingMediaSource,
        r matches Ok(m) ==> raw_media_item_from(fields@, m),
{
    let external_url = extract_url(fields, "外部链接");
    let attachment = extract_attachment_info(fields, "文件");
    if external_url.is_none() && attachment.is_none() {
        return Err(ParseError::MissingMediaSource);
    }
    let raw_type = text_or(extract_select(fields, "媒体类型"), "image");
    Ok(RawMediaItem {
        media_type: owned(normalize_media_type(raw_type.as_str())),
        title: extract_text(fields, "标题"),
        duration: extract_i64(fields, "时长(ms)"),
        sort_order: extract_i32_or_zero(fields, "排序"),
        external_url,
        attachment,
    })
}

pub open spec fn is_ascii_upper(c: char) -> bool {
    'A' <= c && c <= 'Z'
}

pub open spec fn is_ascii_alnum(c: char) -> bool {
    ('0' <= c && c <= '9') || ('a' <= c && c <= 'z') || is_ascii_upper(c)
}

pub open spec fn ascii_lower(c: char) -> char {
    if is_ascii_upper(c) {
        ((c as u32 + 32) as u8) as char
    } else {
        c
    }
}

/// Each character of a slug before separators are merged: ASCII letters
/// and digits stay (letters in lower case), characters above ASCII stay, and
/// every other character (blanks, punctuation, controls) becomes `-`.
pub open spec fn slug_char(c: char) -> char {
    if is_ascii_alnum(c) {
        ascii_lower(c)
    } else if c == ' ' {
        '-'
    } else if c > '\x7f' {
        c
    } else {
        '-'
    }
}

/// Runs of `-` merged into one.
pub open spec fn collapse_dashes(s: Seq<char>) -> Seq<char>
    decreases s.len(),
{
    if s.len() == 0 {
        Seq::empty()
    } else {
        let p = collapse_dashes(s.drop_last());
        if s.last() == '-' && p.len() > 0 && p.last() == '-' {
            p
        } else {
            p.push(s.last())
        }
    }
}

pub open spec fn trim_dash_start(s: Seq<char>) -> Seq<char>
    decreases s.len(),
{
    if s.len() > 0 && s[0] == '-' {
        trim_dash_start(s.skip(1))
    } else {
        s
    }
}

pub open spec fn trim_dash_end(s: Seq<char>) -> Seq<char>
    decreases s.len(),
{
    if s.len() > 0 && s.last() == '-' {
        trim_dash_end(s.drop_last())
    } else {
        s
    }
}

/// The slug of a title.
pub open spec fn slug_of(s: Seq<char>) -> Seq<char> {
    trim_dash_end(trim_dash_start(collapse_dashes(s.map_values(|c: char| slug_char(c)))))
}

fn slug_char_exec(c: char) -> (r: char)
    ensures
        r == slug_char(c),
{
    if ('0' <= c && c <= '9') || ('a' <= c && c <= 'z') {
        c
    } else if 'A' <= c && c <= 'Z' {
        ((c as u32 + 32) as u8) as char
    } else if c == ' ' {
        '-'
    } else if c > '\x7f' {
        c
    } else {
        '-'
    }
}

/// A file-system and URL safe name for a title, always the same for the same
/// title.
pub fn slugify(s: &str) -> (r: String)
    ensures
        r@ == slug_of(s@),
{
    let v = chars_of(s);
    let ghost mapped = s@.map_values(|c: char| slug_char(c));
    let mut merged: Vec<char> = Vec::new();
    let mut i: usize = 0;
    assert(mapped.take(0) =~= Seq::<char>::empty());
    while i < v.len()
        invariant
            i <= v@.len(),
            v@ == s@,
            mapped == s@.map_values(|c: char| slug_char(c)),
            merged@ == collapse_dashes(mapped.take(i as int)),
        decreases v@.len() - i,
    {
        let c = slug_char_exec(v[i]);
        assert(mapped.take(i + 1).drop_last() =~= mapped.take(i as int));
        assert(mapped.take(i + 1).last() == c);
        if c == '-' && merged.len() > 0 && merged[merged.len() - 1] == '-' {
        } else {
            merged.push(c);
        }
        i = i + 1;
    }
    assert(mapped.take(i as int) =~= mapped);
    let mut a: usize = 0;
    assert(merged@.skip(0) =~= merged@);
    while a < merged.len() && merged[a] == '-'
        invariant
            a <= merged@.len(),
            trim_dash_start(merged@) == trim_dash_start(merged@.skip(a as int)),
        decreases merged@.len() - a,
    {
        assert(merged@.skip(a as int).skip(1) =~= merged@.skip(a + 1));
        a = a + 1;
    }
    let mut b: usize = merged.len();
    assert(merged@.subrange(a as int, b as int) =~= merged@.skip(a as int));
    while b > a && merged[b - 1] == '-'
        invariant
            a <= b <= merged@.len(),
            trim_dash_end(trim_dash_start(merged@)) == trim_dash_end(merged@.subrange(a as int, b as int)),
        decreases b,
    {
        assert(merged@.subrange(a as int, b as int).drop_last() =~= merged@.subrange(a as int, b - 1));
        b = b - 1;
    }
    crate::text::string_of(&merged, a, b)
}


pub open spec fn no_double_dash(s: Seq<char>) -> bool {
    forall|i: int| 0 <= i < s.len() - 1 ==> !(#[trigger] s[i] == '-' && s[i + 1] == '-')
}

pub open spec fn no_ascii_upper(s: Seq<char>) -> bool {
    forall|i: int| 0 <= i < s.len() ==> !is_ascii_upper(#[trigger] s[i])
}

proof fn lemma_collapse_shape(s: Seq<char>)
    requires
        no_ascii_upper(s),
    ensures
        no_double_dash(collapse_dashes(s)),
        no_ascii_upper(collapse_dashes(s)),
    decreases s.len(),
{
    if s.len() > 0 {
        assert(no_ascii_upper(s.drop_last()));
        lemma_collapse_shape(s.drop_last());
        let p = collapse_dashes(s.drop_last());
        if !(s.last() == '-' && p.len() > 0 && p.last() == '-') {
            let q = p.push(s.last());
            assert forall|i: int| 0 <= i < q.len() - 1 implies !(#[trigger] q[i] == '-' && q[i + 1] == '-') by {
                if i < p.len() - 1 {
                    assert(q[i] == p[i] && q[i + 1] == p[i + 1]);
                }
            }
        }
    }
}

proof fn lemma_trim_start_suffix(s: Seq<char>) -> (k: int)
    ensures
        0 <= k <= s.len(),
        trim_dash_start(s) == s.skip(k),
    decreases s.len(),
{
    if s.len() > 0 && s[0] == '-' {
        let k = lemma_trim_start_suffix(s.skip(1));
        assert(s.skip(1).skip(k) =~= s.skip(k + 1));
        k + 1
    } else {
        assert(s.skip(0) =~= s);
        0
    }
}

proof fn lemma_trim_end_prefix(s: Seq<char>) -> (k: int)
    ensures
        0 <= k <= s.len(),
        trim_dash_end(s) == s.take(k),
    decreases s.len(),
{
    if s.len() > 0 && s.last() == '-' {
        let k = lemma_trim_end_prefix(s.drop_last());
        assert(s.drop_last().take(k) =~= s.take(k));
        k
    } else {
        assert(s.take(s.len() as int) =~= s);
        s.len() as int
    }
}

proof fn lemma_trim_ends(s: Seq<char>)
    ensures
        trim_dash_start(s).len() > 0 ==> trim_dash_start(s)[0] != '-',
        trim_dash_end(s).len() > 0 ==> trim_dash_end(s).last() != '-',
    decreases s.len(),
{
    if s.len() > 0 && s[0] == '-' {
        lemma_trim_ends(s.skip(1));
    }
    if s.len() > 0 && s.last() == '-' {
        lemma_trim_ends(s.drop_last());
    }
}

proof fn lemma_trim_end_keeps_start(s: Seq<char>)
    requires
        s.len() > 0 ==> s[0] != '-',
    ensures
        trim_dash_end(s).len() > 0 ==> trim_dash_end(s)[0] != '-',
    decreases s.len(),
{
    if s.len() > 0 && s.last() == '-' {
        lemma_trim_end_keeps_start(s.drop_last());
    }
}

/// A slug never holds two separators in a row, never starts or ends with
/// one, and holds no ASCII capital letter.
pub proof fn lemma_slug_shape(s: Seq<char>)
    ensures
        no_double_dash(slug_of(s)),
        no_ascii_upper(slug_of(s)),
        slug_of(s).len() > 0 ==> slug_of(s)[0] != '-' && slug_of(s).last() != '-',
{
    let mapped = s.map_values(|c: char| slug_char(c));
    assert forall|i: int| 0 <= i < mapped.len() implies !is_ascii_upper(#[trigger] mapped[i]) by {
        let c = s[i];
        if is_ascii_upper(c) {
            assert((((c as u32 + 32) as u8) as char) as u32 == c as u32 + 32);
        }
    }
    lemma_collapse_shape(mapped);
    let c = collapse_dashes(mapped);
    let k1 = lemma_trim_start_suffix(c);
    let t = c.skip(k1);
    let k2 = lemma_trim_end_prefix(t);
    let u = t.take(k2);
    assert forall|i: int| 0 <= i < u.len() - 1 implies !(#[trigger] u[i] == '-' && u[i + 1] == '-') by {
        assert(u[i] == c[i + k1] && u[i + 1] == c[i + 1 + k1]);
    }
    assert forall|i: int| 0 <= i < u.len() implies !is_ascii_upper(#[trigger] u[i]) by {
        assert(u[i] == c[i + k1]);
    }
    lemma_trim_ends(c);
    lemma_trim_ends(t);
    lemma_trim_end_keeps_start(t);
}

} // verus!
