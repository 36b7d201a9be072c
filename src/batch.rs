//! Parsing many records at once: each record is parsed on its own, and the
//! ones that fail are reported beside the ones that succeed.

use vstd::prelude::*;

use crate::cell::Entry;
use crate::decode::{field_text, field_url};
use crate::media::{field_attachment, parse_raw_media_item, raw_media_item_from, RawMediaItem};
use crate::records::{
    brand_from, display_category_from, err_of, is_missing, parse_brand, parse_display_category,
    parse_raw_product, parse_slogan, parse_store_info, raw_product_from, required_pair, slogan_from,
    store_info_from, Brand, DisplayCategory, ParseError, RawProduct, RecordKind, Slogan, StoreInfo,
};

verus! {

/// One record as the source lists it.
#[derive(Debug)]
pub struct RecordItem {
    pub record_id: String,
    pub fields: Vec<Entry>,
}

/// A kind of record that can be parsed from fields.
pub trait RecordParser {
    type Output;

    /// Whether `fields` make a record of this kind.
    spec fn accepts(fields: Seq<Entry>) -> bool;

    /// Whether `r` is what parsing `fields` gives.
    spec fn yields(fields: Seq<Entry>, r: Result<Self::Output, ParseError>) -> bool;

    fn parse(fields: &Vec<Entry>) -> (r: Result<Self::Output, ParseError>)
        ensures
            r is Ok <==> Self::accepts(fields@),
            Self::yields(fields@, r),
    ;
}

/// A record that was rejected, with where it stood and why.
#[derive(Clone, Debug)]
pub struct Failure {
    pub index: usize,
    pub record_id: String,
    pub error: ParseError,
}

/// The outcome of parsing a batch.
pub struct Batch<T> {
    /// The records that parsed, in source order.
    pub parsed: Vec<T>,
    /// For each parsed record, its position in the source.
    pub sources: Vec<usize>,
    /// The records that did not parse, in source order.
    pub failures: Vec<Failure>,
}

pub open spec fn strictly_increasing(s: Seq<usize>) -> bool {
    forall|a: int, b: int| 0 <= a < b < s.len() ==> s[a] < s[b]
}

pub open spec fn failure_indices(f: Seq<Failure>) -> Seq<usize> {
    f.map_values(|x: Failure| x.index)
}

/// `r` partitions `items`: every record is either parsed, at its place among
/// the parsed ones, or listed as a failure with its id and error.
pub open spec fn is_batch_of<P: RecordParser>(items: Seq<RecordItem>, r: Batch<P::Output>) -> bool {
    &&& r.parsed@.len() == r.sources@.len()
    &&& r.parsed@.len() + r.failures@.len() == items.len()
    &&& strictly_increasing(r.sources@)
    &&& strictly_increasing(failure_indices(r.failures@))
    &&& forall|k: int| 0 <= k < r.sources@.len() ==> {
        &&& (#[trigger] r.sources@[k]) < items.len()
        &&& P::yields(items[r.sources@[k] as int].fields@, Ok(r.parsed@[k]))
    }
    &&& forall|k: int| 0 <= k < r.failures@.len() ==> {
        let f = #[trigger] r.failures@[k];
        &&& f.index < items.len()
        &&& f.record_id@ == items[f.index as int].record_id@
        &&& !P::accepts(items[f.index as int].fields@)
        &&& P::yields(items[f.index as int].fields@, Err(f.error))
    }
    &&& forall|i: int| 0 <= i < items.len() ==> (P::accepts(#[trigger] items[i].fields@) <==> exists|k: int|
        0 <= k < r.sources@.len() && r.sources@[k] == i)
    &&& forall|i: int| 0 <= i < items.len() ==> (!P::accepts(#[trigger] items[i].fields@) <==> exists|k: int|
        0 <= k < r.failures@.len() && r.failures@[k].index == i)
}

/// Parses every record on its own; a failure never stops the others.
pub fn parse_batch<P: RecordParser>(items: &Vec<RecordItem>) -> (r: Batch<P::Output>)
    ensures
        is_batch_of::<P>(items@, r),
{
    let mut parsed: Vec<P::Output> = Vec::new();
    let mut sources: Vec<usize> = Vec::new();
    let mut failures: Vec<Failure> = Vec::new();
    let mut i: usize = 0;
    while i < items.len()
        invariant
            i <= items@.len(),
            parsed@.len() == sources@.len(),
            parsed@.len() + failures@.len() == i,
            strictly_increasing(sources@),
            strictly_increasing(failure_indices(failures@)),
            forall|k: int| 0 <= k < sources@.len() ==> {
                &&& (#[trigger] sources@[k]) < i
                &&& P::yields(items@[sources@[k] as int].fields@, Ok(parsed@[k]))
            },
            forall|k: int| 0 <= k < failures@.len() ==> {
                let f = #[trigger] failures@[k];
                &&& f.index < i
                &&& f.record_id@ == items@[f.index as int].record_id@
                &&& !P::accepts(items@[f.index as int].fields@)
                &&& P::yields(items@[f.index as int].fields@, Err(f.error))
            },
            forall|j: int| 0 <= j < i ==> (P::accepts(#[trigger] items@[j].fields@) <==> exists|k: int|
                0 <= k < sources@.len() && sources@[k] == j),
            forall|j: int| 0 <= j < i ==> (!P::accepts(#[trigger] items@[j].fields@) <==> exists|k: int|
                0 <= k < failures@.len() && failures@[k].index == j),
        decreases items@.len() - i,
    {
        let item = &items[i];
        let ghost old_sources = sources@;
        let ghost old_failures = failures@;
        match P::parse(&item.fields) {
            Ok(v) => {
                parsed.push(v);
                sources.push(i);
                assert forall|j: int| 0 <= j < i + 1 implies (P::accepts(#[trigger] items@[j].fields@)
                    <==> exists|k: int| 0 <= k < sources@.len() && sources@[k] == j) by {
                    if j < i {
                        if P::accepts(items@[j].fields@) {
                            let k = choose|k: int| 0 <= k < old_sources.len() && old_sources[k] == j;
                            assert(sources@[k] == j);
                        } else {
                            if exists|k: int| 0 <= k < sources@.len() && sources@[k] == j {
                                let k = choose|k: int| 0 <= k < sources@.len() && sources@[k] == j;
                                assert(k < old_sources.len());
                                assert(old_sources[k] == j);
                            }
                        }
                    } else {
                        assert(sources@[sources@.len() - 1] == j);
                    }
                }
                assert forall|j: int| 0 <= j < i + 1 implies (!P::accepts(#[trigger] items@[j].fields@)
                    <==> exists|k: int| 0 <= k < failures@.len() && failures@[k].index == j) by {
                    if j == i {
                        if exists|k: int| 0 <= k < failures@.len() && failures@[k].index == j {
                            let k = choose|k: int| 0 <= k < failures@.len() && failures@[k].index == j;
                            assert(failures@[k].index < i);
                        }
                    }
                }
            },
            Err(e) => {
                failures.push(Failure { index: i, record_id: item.record_id.clone(), error: e });
                assert(failure_indices(failures@) =~= failure_indices(old_failures).push(i));
                assert forall|j: int| 0 <= j < i + 1 implies (!P::accepts(#[trigger] items@[j].fields@)
                    <==> exists|k: int| 0 <= k < failures@.len() && failures@[k].index == j) by {
                    if j < i {
                        if !P::accepts(items@[j].fields@) {
                            let k = choose|k: int| 0 <= k < old_failures.len() && old_failures[k].index == j;
                            assert(failures@[k].index == j);
                        } else {
                            if exists|k: int| 0 <= k < failures@.len() && failures@[k].index == j {
                                let k = choose|k: int| 0 <= k < failures@.len() && failures@[k].index == j;
                                assert(k < old_failures.len());
                                assert(old_failures[k].index == j);
                            }
                        }
                    } else {
                        assert(failures@[failures@.len() - 1].index == j);
                    }
                }
                assert forall|j: int| 0 <= j < i + 1 implies (P::accepts(#[trigger] items@[j].fields@)
                    <==> exists|k: int| 0 <= k < sources@.len() && sources@[k] == j) by {
                    if j == i {
                        if exists|k: int| 0 <= k < sources@.len() && sources@[k] == j {
                            let k = choose|k: int| 0 <= k < sources@.len() && sources@[k] == j;
                            assert(sources@[k] < i);
                        }
                    }
                }
            },
        }
        i = i + 1;
    }
    Batch { parsed, sources, failures }
}

/// A batch in which exactly one record is malformed yields every other record
/// and a single failure, at that record's place.
pub proof fn lemma_one_malformed_record<P: RecordParser>(
    items: Seq<RecordItem>,
    r: Batch<P::Output>,
    bad: int,
)
    requires
        is_batch_of::<P>(items, r),
        0 <= bad < items.len(),
        !P::accepts(items[bad].fields@),
        forall|i: int| 0 <= i < items.len() && i != bad ==> P::accepts(#[trigger] items[i].fields@),
    ensures
        r.failures@.len() == 1,
        r.failures@[0].index == bad,
        r.parsed@.len() == items.len() - 1,
{
    assert(!P::accepts(items[bad].fields@));
    let k = choose|k: int| 0 <= k < r.failures@.len() && r.failures@[k].index == bad;
    assert forall|m: int| 0 <= m < r.failures@.len() implies (#[trigger] r.failures@[m]).index == bad by {
        let f = r.failures@[m];
        if f.index != bad {
            assert(P::accepts(items[f.index as int].fields@));
        }
    }
    if r.failures@.len() > 1 {
        let other = if k == 0 { 1int } else { 0int };
        let (a, b) = if other < k { (other, k) } else { (k, other) };
        assert(failure_indices(r.failures@)[a] < failure_indices(r.failures@)[b]);
        assert(r.failures@[a].index == bad && r.failures@[b].index == bad);
    }
}

/// Brands: id and name required.
pub struct BrandRecords;

/// Display categories: id and name required.
pub struct CategoryRecords;

/// Store details: name and phone required.
pub struct StoreRecords;

/// Products: id and name required.
pub struct ProductRecords;

impl RecordParser for BrandRecords {
    type Output = Brand;

    open spec fn accepts(fields: Seq<Entry>) -> bool {
        field_text(fields, "品牌ID"@) is Some && field_text(fields, "品牌名称"@) is Some
    }

    open spec fn yields(fields: Seq<Entry>, r: Result<Brand, ParseError>) -> bool {
        &&& required_pair(fields, RecordKind::Brand, "品牌ID"@, "品牌名称"@, r is Ok, err_of(r))
        &&& (r matches Ok(b) ==> brand_from(fields, b))
    }

    fn parse(fields: &Vec<Entry>) -> (r: Result<Brand, ParseError>) {
        parse_brand(fields)
    }
}

impl RecordParser for CategoryRecords {
    type Output = DisplayCategory;

    open spec fn accepts(fields: Seq<Entry>) -> bool {
        field_text(fields, "分类ID"@) is Some && field_text(fields, "分类名称"@) is Some
    }

    open spec fn yields(fields: Seq<Entry>, r: Result<DisplayCategory, ParseError>) -> bool {
        &&& required_pair(fields, RecordKind::Category, "分类ID"@, "分类名称"@, r is Ok, err_of(r))
        &&& (r matches Ok(c) ==> display_category_from(fields, c))
    }

    fn parse(fields: &Vec<Entry>) -> (r: Result<DisplayCategory, ParseError>) {
        parse_display_category(fields)
    }
}

impl RecordParser for StoreRecords {
    type Output = StoreInfo;

    open spec fn accepts(fields: Seq<Entry>) -> bool {
        field_text(fields, "店铺名称"@) is Some && field_text(fields, "联系电话"@) is Some
    }

    open spec fn yields(fields: Seq<Entry>, r: Result<StoreInfo, ParseError>) -> bool {
        &&& required_pair(fields, RecordKind::Store, "店铺名称"@, "联系电话"@, r is Ok, err_of(r))
        &&& (r matches Ok(s) ==> store_info_from(fields, s))
    }

    fn parse(fields: &Vec<Entry>) -> (r: Result<StoreInfo, ParseError>) {
        parse_store_info(fields)
    }
}

impl RecordParser for ProductRecords {
    type Output = RawProduct;

    open spec fn accepts(fields: Seq<Entry>) -> bool {
        field_text(fields, "商品ID"@) is Some && field_text(fields, "商品名称"@) is Some
    }

    open spec fn yields(fields: Seq<Entry>, r: Result<RawProduct, ParseError>) -> bool {
        &&& required_pair(fields, RecordKind::Product, "商品ID"@, "商品名称"@, r is Ok, err_of(r))
        &&& (r matches Ok(p) ==> raw_product_from(fields, p))
    }

    fn parse(fields: &Vec<Entry>) -> (r: Result<RawProduct, ParseError>) {
        parse_raw_product(fields)
    }
}

/// Media records: an attachment or an external link required.
pub struct MediaRecords;

impl RecordParser for MediaRecords {
    type Output = RawMediaItem;

    open spec fn accepts(fields: Seq<Entry>) -> bool {
        field_url(fields, "外部链接"@) is Some || field_attachment(fields, "文件"@) is Some
    }

    open spec fn yields(fields: Seq<Entry>, r: Result<RawMediaItem, ParseError>) -> bool {
        &&& (r matches Err(e) ==> e is MissingMediaSource)
        &&& (r matches Ok(m) ==> raw_media_item_from(fields, m))
    }

    fn parse(fields: &Vec<Entry>) -> (r: Result<RawMediaItem, ParseError>) {
        parse_raw_media_item(fields)
    }
}

/// Parses media records, keeping the good ones.
pub fn parse_raw_media_items(items: &Vec<RecordItem>) -> (r: Batch<RawMediaItem>)
    ensures
        is_batch_of::<MediaRecords>(items@, r),
{
    parse_batch::<MediaRecords>(items)
}

/// Slogans: text required.
pub struct SloganRecords;

impl RecordParser for SloganRecords {
    type Output = Slogan;

    open spec fn accepts(fields: Seq<Entry>) -> bool {
        field_text(fields, "标语内容"@) is Some
    }

    open spec fn yields(fields: Seq<Entry>, r: Result<Slogan, ParseError>) -> bool {
        &&& (r matches Err(e) ==> is_missing(e, RecordKind::Slogan, "标语内容"@))
        &&& (r matches Ok(s) ==> slogan_from(fields, s))
    }

    fn parse(fields: &Vec<Entry>) -> (r: Result<Slogan, ParseError>) {
        parse_slogan(fields)
    }
}

/// Parses slogan records, keeping the good ones.
pub fn parse_slogans(items: &Vec<RecordItem>) -> (r: Batch<Slogan>)
    ensures
        is_batch_of::<SloganRecords>(items@, r),
{
    parse_batch::<SloganRecords>(items)
}

/// Parses brand records, keeping the good ones.
pub fn parse_brands(items: &Vec<RecordItem>) -> (r: Batch<Brand>)
    ensures
        is_batch_of::<BrandRecords>(items@, r),
{
    parse_batch::<BrandRecords>(items)
}

/// Parses display category records, keeping the good ones.
pub fn parse_display_categories(items: &Vec<RecordItem>) -> (r: Batch<DisplayCategory>)
    ensures
        is_batch_of::<CategoryRecords>(items@, r),
{
    parse_batch::<CategoryRecords>(items)
}

/// Parses product records, keeping the good ones.
pub fn parse_raw_products(items: &Vec<RecordItem>) -> (r: Batch<RawProduct>)
    ensures
        is_batch_of::<ProductRecords>(items@, r),
{
    parse_batch::<ProductRecords>(items)
}

} // verus!
