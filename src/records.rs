//! Typed records built from the fields of one source record, with the
//! required fields of each kind and the defaults of the optional ones.

use vstd::prelude::*;

use crate::cell::{lookup, Entry};
use crate::decimal::{is_numeral, numeral_matches, Decimal};
use crate::decode::{
    extract_attachment_token, extract_attachment_url, field_attachment_token, extract_bool, extract_i32, extract_i32_or_zero, extract_i64,
    extract_link_text, extract_number, extract_phone, extract_select, extract_text, extract_url,
    field_attachment_url, field_bool, field_i32, field_i32_or_zero, field_i64, field_link_text,
    field_number_reads, field_number_source, field_select, field_text, field_url, opt_i32, opt_i64,
    opt_view,
};
use crate::text::{comma_list, comma_pieces, kept_pieces, owned, split_list, trim, views};

verus! {

/// The kinds of record that the source holds.
#[derive(Clone, Copy, Debug, PartialEq, Eq, Structural)]
pub enum RecordKind {
    Brand,
    Category,
    Media,
    Store,
    Product,
    Slogan,
}

/// Why a record was rejected as a whole.
#[derive(Clone, Debug)]
pub enum ParseError {
    /// A required field is absent or unreadable.
    MissingField { kind: RecordKind, field: String },
    /// A media record has neither an attachment nor an external link.
    MissingMediaSource,
}

pub open spec fn is_missing(e: ParseError, kind: RecordKind, field: Seq<char>) -> bool {
    match e {
        ParseError::MissingField { kind: k, field: f } => k == kind && f@ == field,
        _ => false,
    }
}

pub fn missing(kind: RecordKind, field: &str) -> (e: ParseError)
    ensures
        is_missing(e, kind, field@),
{
    ParseError::MissingField { kind, field: owned(field) }
}

pub open spec fn or_else(o: Option<Seq<char>>, d: Seq<char>) -> Seq<char> {
    match o {
        Some(t) => t,
        None => d,
    }
}

pub fn text_or(o: Option<String>, d: &str) -> (r: String)
    ensures
        r@ == or_else(opt_view(o), d@),
{
    match o {
        Some(t) => t,
        None => owned(d),
    }
}

pub fn text_or_default(o: Option<String>) -> (r: String)
    ensures
        r@ == or_else(opt_view(o), Seq::empty()),
{
    match o {
        Some(t) => t,
        None => String::new(),
    }
}

/// A number field, or zero when it is absent or no numeral.
pub open spec fn decimal_or_zero(fields: Seq<Entry>, key: Seq<char>, d: Decimal) -> bool {
    &&& d.wf()
    &&& match field_number_source(fields, key) {
        Some(t) if is_numeral(t) => numeral_matches(t, d),
        _ => !d.negative && d.int_digits@.len() == 0 && d.frac_digits@.len() == 0,
    }
}

pub fn number_or_zero(fields: &Vec<Entry>, key: &str) -> (r: Decimal)
    ensures
        decimal_or_zero(fields@, key@, r),
{
    match extract_number(fields, key) {
        Some(d) => d,
        None => Decimal::zero(),
    }
}

/// A brand.
#[derive(Clone, Debug)]
pub struct Brand {
    pub id: String,
    pub name: String,
    pub logo: Option<String>,
    pub story: Option<String>,
    pub founded_year: Option<i32>,
    pub origin: Option<String>,
}

/// A display category of the storefront.
#[derive(Clone, Debug)]
pub struct DisplayCategory {
    pub id: String,
    pub name: String,
    pub icon: Option<String>,
    pub sort_order: i32,
}

/// The store's own details.
#[derive(Clone, Debug)]
pub struct StoreInfo {
    pub name: String,
    pub phone: String,
    pub qr_code_url: String,
    /// The token of the uploaded QR code image, if any.
    pub qr_file_token: Option<String>,
}

/// One entry of the media playlist.
#[derive(Clone, Debug)]
pub struct MediaItem {
    /// `image` or `video`.
    pub media_type: String,
    pub url: String,
    pub title: Option<String>,
    pub duration: Option<i64>,
    pub sort_order: i32,
}

/// A product before its brand and category are resolved.
#[derive(Clone, Debug)]
pub struct RawProduct {
    pub id: String,
    pub sku: String,
    pub name: String,
    /// Display text of the linked brand.
    pub brand_id_link: Option<String>,
    /// Display text of the linked category.
    pub category_id_link: Option<String>,
    pub specification: String,
    pub unit: String,
    pub retail_price: Decimal,
    pub cost_price: Option<Decimal>,
    pub member_price: Option<Decimal>,
    pub promotion_price: Option<Decimal>,
    pub stock: i32,
    pub alcohol_content: Decimal,
    pub vintage: Option<i32>,
    pub brewing_process: String,
    pub flavor_profile: String,
    pub main_image: String,
    /// The token of the uploaded main image, if any.
    pub main_image_file_token: Option<String>,
    pub short_description: String,
    pub long_description: Option<String>,
    pub status: String,
    pub is_hot: bool,
    pub is_new: bool,
    pub is_promotion: bool,
    pub display_category_ids: Vec<String>,
    pub sort_order: i32,
}

/// What two required text fields decide: success when both read, else the
/// first that does not.
pub open spec fn required_pair(
    fields: Seq<Entry>,
    kind: RecordKind,
    first: Seq<char>,
    second: Seq<char>,
    ok: bool,
    err: Option<ParseError>,
) -> bool {
    &&& ok == (field_text(fields, first) is Some && field_text(fields, second) is Some)
    &&& (err matches Some(e) ==> if field_text(fields, first) is None {
        is_missing(e, kind, first)
    } else {
        is_missing(e, kind, second)
    })
}

pub open spec fn err_of<T>(r: Result<T, ParseError>) -> Option<ParseError> {
    match r {
        Ok(_) => None,
        Err(e) => Some(e),
    }
}

pub open spec fn brand_from(f: Seq<Entry>, b: Brand) -> bool {
    &&& field_text(f, "品牌ID"@) == Some(b.id@)
    &&& field_text(f, "品牌名称"@) == Some(b.name@)
    &&& opt_view(b.logo) == field_attachment_url(f, "品牌Logo"@)
    &&& opt_view(b.story) == field_text(f, "品牌故事"@)
    &&& opt_i32(b.founded_year) == field_i32(f, "创立年份"@)
    &&& opt_view(b.origin) == field_text(f, "产地"@)
}

/// Builds a brand; its id and name are required.
pub fn parse_brand(fields: &Vec<Entry>) -> (r: Result<Brand, ParseError>)
    ensures
        required_pair(fields@, RecordKind::Brand, "品牌ID"@, "品牌名称"@, r is Ok, err_of(r)),
        r matches Ok(b) ==> brand_from(fields@, b),
{
    let id = match extract_text(fields, "品牌ID") {
        Some(t) => t,
        None => return Err(missing(RecordKind::Brand, "品牌ID")),
    };
    let name = match extract_text(fields, "品牌名称") {
        Some(t) => t,
        None => return Err(missing(RecordKind::Brand, "品牌名称")),
    };
    Ok(Brand {
        id,
        name,
        logo: extract_attachment_url(fields, "品牌Logo"),
        story: extract_text(fields, "品牌故事"),
        founded_year: extract_i32(fields, "创立年份"),
        origin: extract_text(fields, "产地"),
    })
}

pub open spec fn display_category_from(f: Seq<Entry>, c: DisplayCategory) -> bool {
    &&& field_text(f, "分类ID"@) == Some(c.id@)
    &&& field_text(f, "分类名称"@) == Some(c.name@)
    &&& opt_view(c.icon) == field_text(f, "图标"@)
    &&& c.sort_order as int == field_i32_or_zero(f, "排序"@)
}

/// Builds a display category; its id and name are required, its order is 0
/// when absent.
pub fn parse_display_category(fields: &Vec<Entry>) -> (r: Result<DisplayCategory, ParseError>)
    ensures
        required_pair(fields@, RecordKind::Category, "分类ID"@, "分类名称"@, r is Ok, err_of(r)),
        r matches Ok(c) ==> display_category_from(fields@, c),
{
    let id = match extract_text(fields, "分类ID") {
        Some(t) => t,
        None => return Err(missing(RecordKind::Category, "分类ID")),
    };
    let name = match extract_text(fields, "分类名称") {
        Some(t) => t,
        None => return Err(missing(RecordKind::Category, "分类名称")),
    };
    Ok(DisplayCategory {
        id,
        name,
        icon: extract_text(fields, "图标"),
        sort_order: extract_i32_or_zero(fields, "排序"),
    })
}

pub open spec fn store_info_from(f: Seq<Entry>, s: StoreInfo) -> bool {
    &&& field_text(f, "店铺名称"@) == Some(s.name@)
    &&& field_text(f, "联系电话"@) == Some(s.phone@)
    &&& s.qr_code_url@ == or_else(field_attachment_url(f, "二维码"@), Seq::empty())
    &&& opt_view(s.qr_file_token) == field_attachment_token(f, "二维码"@)
}

/// Builds the store's details; name and phone are required, the QR code
/// address is empty when absent.
pub fn parse_store_info(fields: &Vec<Entry>) -> (r: Result<StoreInfo, ParseError>)
    ensures
        required_pair(fields@, RecordKind::Store, "店铺名称"@, "联系电话"@, r is Ok, err_of(r)),
        r matches Ok(s) ==> store_info_from(fields@, s),
{
    let name = match extract_text(fields, "店铺名称") {
        Some(t) => t,
        None => return Err(missing(RecordKind::Store, "店铺名称")),
    };
    let phone = match extract_phone(fields, "联系电话") {
        Some(t) => t,
        None => return Err(missing(RecordKind::Store, "联系电话")),
    };
    Ok(StoreInfo {
        name,
        phone,
        qr_code_url: text_or_default(extract_attachment_url(fields, "二维码")),
        qr_file_token: extract_attachment_token(fields, "二维码"),
    })
}

/// Where a media entry's address comes from: the attachment, else the
/// external link.
pub open spec fn media_source(f: Seq<Entry>) -> Option<Seq<char>> {
    match field_attachment_url(f, "文件"@) {
        Some(u) => Some(u),
        None => field_url(f, "外部链接"@),
    }
}

pub open spec fn media_item_from(f: Seq<Entry>, m: MediaItem) -> bool {
    &&& media_source(f) == Some(m.url@)
    &&& m.media_type@ == or_else(field_select(f, "媒体类型"@), "image"@)
    &&& opt_view(m.title) == field_text(f, "标题"@)
    &&& opt_i64(m.duration) == field_i64(f, "时长(ms)"@)
    &&& m.sort_order as int == field_i32_or_zero(f, "排序"@)
}

/// Builds a playlist entry straight from a record: the address is the
/// attachment's, else the external link, and one of them is required.
pub fn parse_media_item(fields: &Vec<Entry>) -> (r: Result<MediaItem, ParseError>)
    ensures
        r is Ok <==> media_source(fields@) is Some,
        r matches Err(e) ==> e is MissingMediaSource,
        r matches Ok(m) ==> media_item_from(fields@, m),
{
    let url = match extract_attachment_url(fields, "文件") {
        Some(u) => u,
        None => match extract_url(fields, "外部链接") {
            Some(u) => u,
            None => return Err(ParseError::MissingMediaSource),
        },
    };
    Ok(MediaItem {
        media_type: text_or(extract_select(fields, "媒体类型"), "image"),
        url,
        title: extract_text(fields, "标题"),
        duration: extract_i64(fields, "时长(ms)"),
        sort_order: extract_i32_or_zero(fields, "排序"),
    })
}

/// A scrolling slogan of the storefront.
#[derive(Clone, Debug)]
pub struct Slogan {
    pub text: String,
    pub sort_order: i32,
    /// Hidden while unchecked.
    pub enabled: bool,
}

pub open spec fn slogan_from(f: Seq<Entry>, s: Slogan) -> bool {
    &&& field_text(f, "标语内容"@) == Some(s.text@)
    &&& s.sort_order as int == field_i32_or_zero(f, "排序"@)
    &&& s.enabled == field_bool(f, "启用"@)
}

/// Builds a slogan; its text is required.
pub fn parse_slogan(fields: &Vec<Entry>) -> (r: Result<Slogan, ParseError>)
    ensures
        r is Ok <==> field_text(fields@, "标语内容"@) is Some,
        r matches Err(e) ==> is_missing(e, RecordKind::Slogan, "标语内容"@),
        r matches Ok(s) ==> slogan_from(fields@, s),
{
    let text = match extract_text(fields, "标语内容") {
        Some(t) => t,
        None => return Err(missing(RecordKind::Slogan, "标语内容")),
    };
    Ok(Slogan { text, sort_order: extract_i32_or_zero(fields, "排序"), enabled: extract_bool(fields, "启用") })
}

pub open spec fn text_or_empty(f: Seq<Entry>, key: Seq<char>) -> Seq<char> {
    or_else(field_text(f, key), Seq::empty())
}

pub open spec fn raw_product_from(f: Seq<Entry>, p: RawProduct) -> bool {
    &&& field_text(f, "商品ID"@) == Some(p.id@)
    &&& p.sku@ == text_or_empty(f, "商品编码"@)
    &&& field_text(f, "商品名称"@) == Some(p.name@)
    &&& opt_view(p.brand_id_link) == field_link_text(f, "品牌"@)
    &&& opt_view(p.category_id_link) == field_link_text(f, "分类"@)
    &&& p.specification@ == text_or_empty(f, "规格"@)
    &&& p.unit@ == or_else(field_select(f, "单位"@), "瓶"@)
    &&& decimal_or_zero(f, "零售价"@, p.retail_price)
    &&& field_number_reads(f, "成本价"@, p.cost_price)
    &&& field_number_reads(f, "会员价"@, p.member_price)
    &&& field_number_reads(f, "促销价"@, p.promotion_price)
    &&& p.stock as int == field_i32_or_zero(f, "库存"@)
    &&& decimal_or_zero(f, "酒精度%"@, p.alcohol_content)
    &&& opt_i32(p.vintage) == field_i32(f, "年份"@)
    &&& p.brewing_process@ == text_or_empty(f, "酿造工艺"@)
    &&& p.flavor_profile@ == text_or_empty(f, "风味描述"@)
    &&& p.main_image@ == or_else(field_attachment_url(f, "商品主图"@), Seq::empty())
    &&& opt_view(p.main_image_file_token) == field_attachment_token(f, "商品主图"@)
    &&& p.short_description@ == text_or_empty(f, "简短描述"@)
    &&& opt_view(p.long_description) == field_text(f, "详细描述"@)
    &&& p.status@ == or_else(field_select(f, "状态"@), "active"@)
    &&& p.is_hot == field_bool(f, "热销"@)
    &&& p.is_new == field_bool(f, "新品"@)
    &&& p.is_promotion == field_bool(f, "促销中"@)
    &&& views(p.display_category_ids@) == comma_list(text_or_empty(f, "展示分类"@))
    &&& p.sort_order as int == field_i32_or_zero(f, "排序"@)
}

/// Builds a product; its id and name are required, every other field has a
/// default.
pub fn parse_raw_product(fields: &Vec<Entry>) -> (r: Result<RawProduct, ParseError>)
    ensures
        required_pair(fields@, RecordKind::Product, "商品ID"@, "商品名称"@, r is Ok, err_of(r)),
        r matches Ok(p) ==> raw_product_from(fields@, p),
{
    let display_text = text_or_default(extract_text(fields, "展示分类"));
    let display_category_ids = split_list(display_text.as_str());
    let main_image = text_or_default(extract_attachment_url(fields, "商品主图"));
    let id = match extract_text(fields, "商品ID") {
        Some(t) => t,
        None => return Err(missing(RecordKind::Product, "商品ID")),
    };
    let sku = text_or_default(extract_text(fields, "商品编码"));
    let name = match extract_text(fields, "商品名称") {
        Some(t) => t,
        None => return Err(missing(RecordKind::Product, "商品名称")),
    };
    Ok(RawProduct {
        id,
        sku,
        name,
        brand_id_link: extract_link_text(fields, "品牌"),
        category_id_link: extract_link_text(fields, "分类"),
        specification: text_or_default(extract_text(fields, "规格")),
        unit: text_or(extract_select(fields, "单位"), "瓶"),
        retail_price: number_or_zero(fields, "零售价"),
        cost_price: extract_number(fields, "成本价"),
        member_price: extract_number(fields, "会员价"),
        promotion_price: extract_number(fields, "促销价"),
        stock: extract_i32_or_zero(fields, "库存"),
        alcohol_content: number_or_zero(fields, "酒精度%"),
        vintage: extract_i32(fields, "年份"),
        brewing_process: text_or_default(extract_text(fields, "酿造工艺")),
        flavor_profile: text_or_default(extract_text(fields, "风味描述")),
        main_image,
        main_image_file_token: extract_attachment_token(fields, "商品主图"),
        short_description: text_or_default(extract_text(fields, "简短描述")),
        long_description: extract_text(fields, "详细描述"),
        status: text_or(extract_select(fields, "状态"), "active"),
        is_hot: extract_bool(fields, "热销"),
        is_new: extract_bool(fields, "新品"),
        is_promotion: extract_bool(fields, "促销中"),
        display_category_ids,
        sort_order: extract_i32_or_zero(fields, "排序"),
    })
}


/// A record that lacks one required field, while the required field before
/// it is there, is rejected with an error that names exactly the missing
/// field.
pub proof fn lemma_missing_field_named<T>(
    f: Seq<Entry>,
    kind: RecordKind,
    first: Seq<char>,
    second: Seq<char>,
    r: Result<T, ParseError>,
    key: Seq<char>,
)
    requires
        required_pair(f, kind, first, second, r is Ok, err_of(r)),
        key == first || key == second,
        field_text(f, key) is None,
        key == second ==> field_text(f, first) is Some,
    ensures
        r matches Err(e) && is_missing(e, kind, key),
{
}

/// The optional fields of a product record.
pub open spec fn product_optional_keys() -> Seq<Seq<char>> {
    seq!["商品编码"@, "品牌"@, "分类"@, "规格"@, "单位"@, "零售价"@, "成本价"@, "会员价"@, "促销价"@, "库存"@, "酒精度%"@, "年份"@, "酿造工艺"@, "风味描述"@, "商品主图"@, "简短描述"@, "详细描述"@, "状态"@, "热销"@, "新品"@, "促销中"@, "展示分类"@, "排序"@]
}

/// A product record that holds its required fields and nothing else gets
/// the default of every optional field.
pub proof fn lemma_product_defaults(f: Seq<Entry>, p: RawProduct)
    requires
        raw_product_from(f, p),
        forall|i: int| 0 <= i < product_optional_keys().len() ==> lookup(f, #[trigger] product_optional_keys()[i]) is None,
    ensures
        p.sku@.len() == 0,
        p.brand_id_link is None,
        p.category_id_link is None,
        p.specification@.len() == 0,
        p.unit@ == "瓶"@,
        p.retail_price.int_digits@.len() == 0 && p.retail_price.frac_digits@.len() == 0 && !p.retail_price.negative,
        p.cost_price is None,
        p.member_price is None,
        p.promotion_price is None,
        p.stock == 0,
        p.alcohol_content.int_digits@.len() == 0 && p.alcohol_content.frac_digits@.len() == 0,
        p.vintage is None,
        p.brewing_process@.len() == 0,
        p.flavor_profile@.len() == 0,
        p.main_image@.len() == 0,
        p.main_image_file_token is None,
        p.short_description@.len() == 0,
        p.long_description is None,
        p.status@ == "active"@,
        !p.is_hot && !p.is_new && !p.is_promotion,
        p.display_category_ids@.len() == 0,
        p.sort_order == 0,
{
    let keys = product_optional_keys();
    assert forall|i: int| 0 <= i < keys.len() implies lookup(f, #[trigger] keys[i]) is None by {}
    assert(lookup(f, keys[0]) is None);
    assert(lookup(f, keys[1]) is None);
    assert(lookup(f, keys[2]) is None);
    assert(lookup(f, keys[3]) is None);
    assert(lookup(f, keys[4]) is None);
    assert(lookup(f, keys[5]) is None);
    assert(lookup(f, keys[6]) is None);
    assert(lookup(f, keys[7]) is None);
    assert(lookup(f, keys[8]) is None);
    assert(lookup(f, keys[9]) is None);
    assert(lookup(f, keys[10]) is None);
    assert(lookup(f, keys[11]) is None);
    assert(lookup(f, keys[12]) is None);
    assert(lookup(f, keys[13]) is None);
    assert(lookup(f, keys[14]) is None);
    assert(lookup(f, keys[15]) is None);
    assert(lookup(f, keys[16]) is None);
    assert(lookup(f, keys[17]) is None);
    assert(lookup(f, keys[18]) is None);
    assert(lookup(f, keys[19]) is None);
    assert(lookup(f, keys[20]) is None);
    assert(lookup(f, keys[21]) is None);
    assert(lookup(f, keys[22]) is None);
    let e = Seq::<char>::empty();
    assert(comma_pieces(e) == seq![e]);
    assert(seq![e].drop_last() =~= Seq::<Seq<char>>::empty());
    assert(trim(e) =~= e);
    assert(seq![e].last() == e);
    assert(kept_pieces(seq![e]) == kept_pieces(seq![e].drop_last()));
    assert(kept_pieces(Seq::<Seq<char>>::empty()) == Seq::<Seq<char>>::empty());
    assert(comma_list(e) =~= Seq::<Seq<char>>::empty());
}

} // verus!
