//! Pieces of a sync run that decide rather than fetch: the store details to
//! use, the catalog categories, and the images the output refers to.

use vstd::prelude::*;

use crate::batch::RecordItem;
use crate::catalog::{Category, ProductDatabase};
use crate::playlist::copy_opt_text;
use crate::records::{parse_store_info, store_info_from, ParseError, RecordKind, StoreInfo};
use crate::storefront::MockData;
use crate::text::owned;

verus! {

/// How a run behaves.
#[derive(Clone, Copy, Debug, PartialEq, Eq, Structural)]
pub struct SyncOptions {
    /// Read and transform only: no downloads, no files written.
    pub dry_run: bool,
    /// Write files but do not commit or push.
    pub no_push: bool,
}

pub open spec fn is_fallback_store(s: StoreInfo) -> bool {
    &&& s.name@ == "绍兴黄酒专卖"@
    &&& s.phone@ == "15936229925"@
    &&& s.qr_code_url@ == "images/qrcode.jpg"@
    &&& s.qr_file_token is None
}

/// The store details used when the store table is empty.
pub fn fallback_store_info() -> (r: StoreInfo)
    ensures
        is_fallback_store(r),
{
    StoreInfo {
        name: owned("绍兴黄酒专卖"),
        phone: owned("15936229925"),
        qr_code_url: owned("images/qrcode.jpg"),
        qr_file_token: None,
    }
}

/// Where the store's QR code image is published, under the published root.
pub fn qr_code_path() -> (r: String)
    ensures
        r@ == "images/qrcode.jpg"@,
{
    owned("images/qrcode.jpg")
}

/// Where a product's uploaded main image is published, under the published
/// root: one file per product id, overwritten on each download.
pub fn product_image_path(id: &str) -> (r: String)
    ensures
        r@ == "images/products/"@ + id@ + ".jpg"@,
{
    let mut r = owned("images/products/");
    r.append(id);
    r.append(".jpg");
    r
}

/// The store details: the first store record, whose failure fails the run,
/// or the fallback when there is no record.
pub fn pick_store_info(items: &Vec<RecordItem>) -> (r: Result<StoreInfo, ParseError>)
    ensures
        items@.len() == 0 ==> (r matches Ok(s) && is_fallback_store(s)),
        items@.len() > 0 ==> {
            &&& crate::records::required_pair(items@[0].fields@, RecordKind::Store, "店铺名称"@, "联系电话"@, r is Ok, crate::records::err_of(r))
            &&& (r matches Ok(s) ==> store_info_from(items@[0].fields@, s))
        },
{
    if items.len() == 0 {
        Ok(fallback_store_info())
    } else {
        parse_store_info(&items[0].fields)
    }
}

/// The catalog category made from a display category: top level, no parent.
pub open spec fn catalog_category_of(c: Category, d: crate::records::DisplayCategory) -> bool {
    &&& c.id@ == d.id@
    &&& c.name@ == d.name@
    &&& c.parent_id is None
    &&& c.level == 1
    &&& c.icon == d.icon
}

/// The catalog's categories, one per display category, in the same order.
pub fn catalog_categories(display: &Vec<crate::records::DisplayCategory>) -> (r: Vec<Category>)
    ensures
        r@.len() == display@.len(),
        forall|i: int| 0 <= i < r@.len() ==> catalog_category_of(#[trigger] r@[i], display@[i]),
{
    let mut r: Vec<Category> = Vec::new();
    let mut i: usize = 0;
    while i < display.len()
        invariant
            i <= display@.len(),
            r@.len() == i,
            forall|k: int| 0 <= k < i ==> catalog_category_of(#[trigger] r@[k], display@[k]),
        decreases display@.len() - i,
    {
        let d = &display[i];
        r.push(Category {
            id: d.id.clone(),
            name: d.name.clone(),
            parent_id: None,
            level: 1,
            icon: copy_opt_text(&d.icon),
        });
        i = i + 1;
    }
    r
}

/// An image that the output refers to, and whose it is.
#[derive(Clone, Debug)]
pub struct ImageRef {
    /// The product's name, or the media entry's title (`untitled` without).
    pub owner: String,
    /// The path under the published root.
    pub path: String,
    pub is_media: bool,
}

/// The products whose main image is not empty, in order.
pub open spec fn with_images(ps: Seq<crate::catalog::Product>) -> Seq<crate::catalog::Product>
    decreases ps.len(),
{
    if ps.len() == 0 {
        Seq::empty()
    } else if ps.last().main_image@.len() > 0 {
        with_images(ps.drop_last()).push(ps.last())
    } else {
        with_images(ps.drop_last())
    }
}

pub open spec fn product_images(db: ProductDatabase) -> Seq<crate::catalog::Product> {
    with_images(db.products@)
}

/// The images to look for under the published root: each product's main
/// image that is not empty, then the address of every playlist entry.
pub fn image_references(db: &ProductDatabase, mock: &MockData) -> (r: Vec<ImageRef>)
    ensures
        r@.len() == product_images(*db).len() + mock.media_playlist@.len(),
        forall|i: int| 0 <= i < product_images(*db).len() ==> {
            &&& !(#[trigger] r@[i]).is_media
            &&& r@[i].owner@ == product_images(*db)[i].name@
            &&& r@[i].path@ == product_images(*db)[i].main_image@
        },
        forall|j: int| 0 <= j < mock.media_playlist@.len() ==> {
            let m = mock.media_playlist@[j];
            let e = #[trigger] r@[product_images(*db).len() + j];
            &&& e.is_media
            &&& e.path@ == m.url@
            &&& e.owner@ == match m.title {
                Some(t) => t@,
                None => "untitled"@,
            }
        },
{
    let mut r: Vec<ImageRef> = Vec::new();
    let mut i: usize = 0;
    let ghost ps = db.products@;
    assert(ps.take(0) =~= Seq::<crate::catalog::Product>::empty());
    while i < db.products.len()
        invariant
            i <= ps.len(),
            ps == db.products@,
            r@.len() == with_images(ps.take(i as int)).len(),
            forall|k: int| 0 <= k < r@.len() ==> {
                let q = with_images(ps.take(i as int))[k];
                &&& !(#[trigger] r@[k]).is_media
                &&& r@[k].owner@ == q.name@
                &&& r@[k].path@ == q.main_image@
            },
        decreases ps.len() - i,
    {
        let p = &db.products[i];
        let ghost before = with_images(ps.take(i as int));
        assert(ps.take(i + 1).drop_last() =~= ps.take(i as int));
        assert(ps.take(i + 1).last() == ps[i as int]);
        if p.main_image.unicode_len() > 0 {
            r.push(ImageRef { owner: p.name.clone(), path: p.main_image.clone(), is_media: false });
        }
        i = i + 1;
    }
    assert(ps.take(i as int) =~= ps);
    let base = r.len();
    let mut j: usize = 0;
    while j < mock.media_playlist.len()
        invariant
            j <= mock.media_playlist@.len(),
            base == product_images(*db).len(),
            r@.len() == base + j,
            forall|k: int| 0 <= k < base ==> {
                &&& !(#[trigger] r@[k]).is_media
                &&& r@[k].owner@ == product_images(*db)[k].name@
                &&& r@[k].path@ == product_images(*db)[k].main_image@
            },
            forall|k: int| 0 <= k < j ==> {
                let m = mock.media_playlist@[k];
                let e = #[trigger] r@[base + k];
                &&& e.is_media
                &&& e.path@ == m.url@
                &&& e.owner@ == match m.title {
                    Some(t) => t@,
                    None => "untitled"@,
                }
            },
        decreases mock.media_playlist@.len() - j,
    {
        let m = &mock.media_playlist[j];
        let owner = match &m.title {
            Some(t) => t.clone(),
            None => owned("untitled"),
        };
        r.push(ImageRef { owner, path: m.url.clone(), is_media: true });
        j = j + 1;
    }
    r
}

} // verus!
