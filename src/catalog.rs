//! The normalized catalog: products with their brand and category resolved,
//! and the weight read from the specification text.

use vstd::prelude::*;

use crate::decimal::{clamp, digits_u64, digits_value, is_numeral, numeral_frac, numeral_int, numeral_negative, numeral_trunc, Decimal};
use crate::playlist::copy_opt_text;
use crate::records::{Brand, RawProduct};
use crate::storefront::is_active;
use crate::text::{chars_of, owned, same_text, string_of, trim, trim_bounds};

verus! {

/// A product category.
#[derive(Clone, Debug)]
pub struct Category {
    pub id: String,
    pub name: String,
    pub parent_id: Option<String>,
    pub level: i32,
    pub icon: Option<String>,
}

/// A supplier.
#[derive(Clone, Debug)]
pub struct Supplier {
    pub id: String,
    pub name: String,
    pub contact: Option<String>,
    pub phone: Option<String>,
    pub address: Option<String>,
}

/// A product of the catalog.
#[derive(Clone, Debug)]
pub struct Product {
    pub id: String,
    pub sku: String,
    pub barcode: String,
    pub name: String,
    pub brand: Brand,
    pub category: Category,
    pub specification: String,
    pub unit: String,
    pub pack_size: i32,
    /// In millilitres.
    pub weight: i32,
    pub retail_price: Decimal,
    pub cost_price: Option<Decimal>,
    pub member_price: Option<Decimal>,
    pub promotion_price: Option<Decimal>,
    pub stock: i32,
    pub safety_stock: i32,
    pub warehouse_location: Option<String>,
    pub origin: String,
    /// In months.
    pub shelf_life: i32,
    pub storage_condition: String,
    pub alcohol_content: Decimal,
    pub vintage: Option<i32>,
    pub brewing_process: String,
    pub flavor_profile: String,
    pub serving_suggestion: Option<String>,
    pub main_image: String,
    pub detail_images: Option<Vec<String>>,
    pub video: Option<String>,
    pub short_description: String,
    pub long_description: Option<String>,
    pub supplier: Option<Supplier>,
    pub status: String,
    pub is_hot: bool,
    pub is_new: bool,
    pub is_promotion: bool,
    pub created_at: String,
    pub updated_at: String,
}

/// The normalized catalog document.
#[derive(Clone, Debug)]
pub struct ProductDatabase {
    pub version: String,
    pub last_updated: String,
    pub brands: Vec<Brand>,
    pub categories: Vec<Category>,
    pub suppliers: Vec<Supplier>,
    pub products: Vec<Product>,
}

pub open spec fn is_m(c: char) -> bool {
    c == 'm' || c == 'M'
}

pub open spec fn is_l(c: char) -> bool {
    c == 'l' || c == 'L'
}

pub open spec fn ends_ml(s: Seq<char>) -> bool {
    s.len() >= 2 && is_m(s[s.len() - 2]) && is_l(s.last())
}

/// `s` without every trailing `ml`, in either case.
pub open spec fn strip_ml(s: Seq<char>) -> Seq<char>
    decreases s.len(),
{
    if ends_ml(s) {
        strip_ml(s.take(s.len() - 2))
    } else {
        s
    }
}

/// `s` without every trailing `l`, in either case.
pub open spec fn strip_l(s: Seq<char>) -> Seq<char>
    decreases s.len(),
{
    if s.len() > 0 && is_l(s.last()) {
        strip_l(s.drop_last())
    } else {
        s
    }
}

/// The digits of a numeral's value times a thousand, fraction dropped.
pub open spec fn thousandfold_digits(t: Seq<char>) -> Seq<char> {
    numeral_int(t) + (numeral_frac(t) + seq!['0', '0', '0']).take(3)
}

pub open spec fn thousandfold_trunc(t: Seq<char>) -> int {
    if numeral_negative(t) {
        -(digits_value(thousandfold_digits(t)) as int)
    } else {
        digits_value(thousandfold_digits(t)) as int
    }
}

/// Millilitres named by a specification such as `500ml` or `2.5L` (either
/// case): the number before `ml`, or a thousand times the number before `L`,
/// rounded toward zero and held to the range of `i32`. When the suffix is
/// there but the number is not, and when there is no suffix, 500.
pub open spec fn weight_of(s: Seq<char>) -> int {
    if ends_ml(s) {
        let t = trim(strip_ml(s));
        if is_numeral(t) {
            clamp(numeral_trunc(t), i32::MIN as int, i32::MAX as int)
        } else {
            500
        }
    } else if s.len() > 0 && is_l(s.last()) {
        let t = trim(strip_l(s));
        if is_numeral(t) {
            clamp(thousandfold_trunc(t), i32::MIN as int, i32::MAX as int)
        } else {
            500
        }
    } else {
        500
    }
}

fn is_m_char(c: char) -> (r: bool)
    ensures
        r == is_m(c),
{
    c == 'm' || c == 'M'
}

fn is_l_char(c: char) -> (r: bool)
    ensures
        r == is_l(c),
{
    c == 'l' || c == 'L'
}

fn signed_clamp_i32(negative: bool, ds: &Vec<char>) -> (r: i32)
    requires
        crate::decimal::all_digits(ds@),
    ensures
        r as int == clamp(
            if negative { -(digits_value(ds@) as int) } else { digits_value(ds@) as int },
            i32::MIN as int,
            i32::MAX as int,
        ),
{
    match digits_u64(ds) {
        None => if negative { i32::MIN } else { i32::MAX },
        Some(m) => {
            if negative {
                if m >= 2147483648 { i32::MIN } else { -(m as i32) }
            } else {
                if m > 2147483647 { i32::MAX } else { m as i32 }
            }
        },
    }
}

/// Reads the millilitres of a specification such as `500ml` or `2.5L`.
pub fn parse_weight(spec: &str) -> (r: i32)
    ensures
        r as int == weight_of(spec@),
{
    let v = chars_of(spec);
    let n = v.len();
    if n >= 2 && is_m_char(v[n - 2]) && is_l_char(v[n - 1]) {
        let mut e: usize = n;
        assert(v@.take(n as int) =~= v@);
        while e >= 2 && is_m_char(v[e - 2]) && is_l_char(v[e - 1])
            invariant
                e <= n == v@.len(),
                strip_ml(v@) == strip_ml(v@.take(e as int)),
            decreases e,
        {
            assert(v@.take(e as int).take(e - 2) =~= v@.take(e - 2));
            e = e - 2;
        }
        assert(v@.take(n as int) =~= v@);
        assert(strip_ml(v@.take(e as int)) == v@.take(e as int));
        let text = number_text(&v, e);
        match Decimal::parse(text.as_str()) {
            Some(d) => d.to_i32(),
            None => 500,
        }
    } else if n >= 1 && is_l_char(v[n - 1]) {
        let mut e: usize = n;
        assert(v@.take(n as int) =~= v@);
        while e >= 1 && is_l_char(v[e - 1])
            invariant
                e <= n == v@.len(),
                strip_l(v@) == strip_l(v@.take(e as int)),
            decreases e,
        {
            assert(v@.take(e as int).drop_last() =~= v@.take(e - 1));
            e = e - 1;
        }
        assert(v@.take(n as int) =~= v@);
        assert(strip_l(v@.take(e as int)) == v@.take(e as int));
        let text = number_text(&v, e);
        match Decimal::parse(text.as_str()) {
            Some(d) => {
                let mut scaled: Vec<char> = Vec::new();
                let mut i: usize = 0;
                while i < d.int_digits.len()
                    invariant
                        i <= d.int_digits@.len(),
                        scaled@ == d.int_digits@.take(i as int),
                    decreases d.int_digits@.len() - i,
                {
                    scaled.push(d.int_digits[i]);
                    i = i + 1;
                    assert(scaled@ =~= d.int_digits@.take(i as int));
                }
                assert(d.int_digits@.take(i as int) =~= d.int_digits@);
                let ghost padded = d.frac_digits@ + seq!['0', '0', '0'];
                let mut k: usize = 0;
                while k < 3
                    invariant
                        k <= 3,
                        padded == d.frac_digits@ + seq!['0', '0', '0'],
                        scaled@ == d.int_digits@ + padded.take(k as int),
                    decreases 3 - k,
                {
                    let c = if k < d.frac_digits.len() { d.frac_digits[k] } else { '0' };
                    assert(c == padded[k as int]);
                    scaled.push(c);
                    k = k + 1;
                    assert(scaled@ =~= d.int_digits@ + padded.take(k as int));
                }
                assert(crate::decimal::all_digits(scaled@));
                signed_clamp_i32(d.negative, &scaled)
            },
            None => 500,
        }
    } else {
        500
    }
}

/// The trimmed text of `v[..e]`.
fn number_text(v: &Vec<char>, e: usize) -> (r: String)
    requires
        e <= v@.len(),
    ensures
        r@ == trim(v@.take(e as int)),
{
    let mut head: Vec<char> = Vec::new();
    let mut i: usize = 0;
    while i < e
        invariant
            i <= e <= v@.len(),
            head@ == v@.take(i as int),
        decreases e - i,
    {
        head.push(v[i]);
        i = i + 1;
        assert(head@ =~= v@.take(i as int));
    }
    let (a, b) = trim_bounds(&head);
    string_of(&head, a, b)
}


/// Position of the brand that `key` names: the last brand whose id or name
/// is `key`, as a map filled id then name, brand after brand, keeps it.
pub open spec fn brand_match(brands: Seq<Brand>, key: Seq<char>) -> Option<int>
    decreases brands.len(),
{
    if brands.len() == 0 {
        None
    } else if brands.last().id@ == key || brands.last().name@ == key {
        Some(brands.len() - 1)
    } else {
        brand_match(brands.drop_last(), key)
    }
}

/// Position of the category that `key` names, in the same way.
pub open spec fn category_match(cats: Seq<Category>, key: Seq<char>) -> Option<int>
    decreases cats.len(),
{
    if cats.len() == 0 {
        None
    } else if cats.last().id@ == key || cats.last().name@ == key {
        Some(cats.len() - 1)
    } else {
        category_match(cats.drop_last(), key)
    }
}

/// The placeholder that stands for a brand that cannot be resolved.
pub open spec fn unknown_brand(b: Brand, name: Seq<char>) -> bool {
    &&& b.id@ == "unknown"@
    &&& b.name@ == name
    &&& b.logo is None
    &&& b.story is None
    &&& b.founded_year is None
    &&& b.origin is None
}

/// The placeholder that stands for a category that cannot be resolved.
pub open spec fn unknown_category(c: Category, name: Seq<char>) -> bool {
    &&& c.id@ == "unknown"@
    &&& c.name@ == name
    &&& c.parent_id is None
    &&& c.level == 2
    &&& c.icon is None
}

/// `b` is the brand that `link` names, else a placeholder named by the link,
/// else one named `未知品牌`.
pub open spec fn brand_resolved(b: Brand, brands: Seq<Brand>, link: Option<String>) -> bool {
    match link {
        Some(l) => match brand_match(brands, l@) {
            Some(i) => b == brands[i],
            None => unknown_brand(b, l@),
        },
        None => unknown_brand(b, "未知品牌"@),
    }
}

/// `c` is the category that `link` names, else a placeholder named by the
/// link, else one named `未分类`.
pub open spec fn category_resolved(c: Category, cats: Seq<Category>, link: Option<String>) -> bool {
    match link {
        Some(l) => match category_match(cats, l@) {
            Some(i) => c == cats[i],
            None => unknown_category(c, l@),
        },
        None => unknown_category(c, "未分类"@),
    }
}

/// A quarter of `x`, rounded toward zero.
pub open spec fn quarter(x: int) -> int {
    if x >= 0 {
        x / 4
    } else {
        -((-x) / 4)
    }
}

pub open spec fn same_decimal(a: Option<Decimal>, b: Option<Decimal>) -> bool {
    match (a, b) {
        (Some(x), Some(y)) => x.same_as(&y),
        (None, None) => true,
        _ => false,
    }
}

/// `p` is the catalog product made from `raw`, stamped `now`.
pub open spec fn product_of(p: Product, raw: RawProduct, brands: Seq<Brand>, cats: Seq<Category>, now: Seq<char>) -> bool {
    &&& p.id@ == raw.id@
    &&& p.sku@ == raw.sku@
    &&& p.barcode@ == Seq::<char>::empty()
    &&& p.name@ == raw.name@
    &&& brand_resolved(p.brand, brands, raw.brand_id_link)
    &&& category_resolved(p.category, cats, raw.category_id_link)
    &&& p.specification@ == raw.specification@
    &&& p.unit@ == raw.unit@
    &&& p.pack_size == 1
    &&& p.weight as int == weight_of(raw.specification@)
    &&& p.retail_price.same_as(&raw.retail_price)
    &&& same_decimal(p.cost_price, raw.cost_price)
    &&& same_decimal(p.member_price, raw.member_price)
    &&& same_decimal(p.promotion_price, raw.promotion_price)
    &&& p.stock == raw.stock
    &&& p.safety_stock as int == quarter(raw.stock as int)
    &&& p.warehouse_location is None
    &&& p.origin@ == "浙江绍兴"@
    &&& p.shelf_life == 36
    &&& p.storage_condition@ == "阴凉干燥处保存"@
    &&& p.alcohol_content.same_as(&raw.alcohol_content)
    &&& p.vintage == raw.vintage
    &&& p.brewing_process@ == raw.brewing_process@
    &&& p.flavor_profile@ == raw.flavor_profile@
    &&& p.serving_suggestion is None
    &&& p.main_image@ == raw.main_image@
    &&& p.detail_images is None
    &&& p.video is None
    &&& p.short_description@ == raw.short_description@
    &&& p.long_description == raw.long_description
    &&& p.supplier is None
    &&& p.status@ == raw.status@
    &&& p.is_hot == raw.is_hot
    &&& p.is_new == raw.is_new
    &&& p.is_promotion == raw.is_promotion
    &&& p.created_at@ == now
    &&& p.updated_at@ == now
}

/// `act` holds the positions of the active products, in source order.
pub open spec fn active_positions_in_order(raw: Seq<RawProduct>, act: Seq<int>) -> bool {
    &&& forall|t: int| 0 <= t < act.len() ==> 0 <= #[trigger] act[t] < raw.len() && is_active(raw[act[t]])
    &&& forall|a: int, b: int| 0 <= a < b < act.len() ==> #[trigger] act[a] < #[trigger] act[b]
    &&& forall|k: int| 0 <= k < raw.len() && is_active(raw[k]) ==> #[trigger] crate::storefront::listed(act, k)
}

/// `db` is the catalog of the active products of `raw`, in source order,
/// with the given brands and categories, stamped `now` and dated `today`.
pub open spec fn database_of(
    db: ProductDatabase,
    raw: Seq<RawProduct>,
    brands: Seq<Brand>,
    cats: Seq<Category>,
    now: Seq<char>,
    today: Seq<char>,
) -> bool {
    &&& db.version@ == "1.0.0"@
    &&& db.last_updated@ == today
    &&& db.brands@ == brands
    &&& db.categories@ == cats
    &&& db.suppliers@.len() == 0
    &&& exists|act: Seq<int>| {
        &&& active_positions_in_order(raw, act)
        &&& db.products@.len() == act.len()
        &&& forall|t: int| 0 <= t < act.len() ==> product_of(#[trigger] db.products@[t], raw[act[t]], brands, cats, now)
    }
}

impl Brand {
    pub fn copy(&self) -> (r: Brand)
        ensures
            r == *self,
    {
        Brand {
            id: self.id.clone(),
            name: self.name.clone(),
            logo: copy_opt_text(&self.logo),
            story: copy_opt_text(&self.story),
            founded_year: self.founded_year,
            origin: copy_opt_text(&self.origin),
        }
    }
}

impl Category {
    pub fn copy(&self) -> (r: Category)
        ensures
            r == *self,
    {
        Category {
            id: self.id.clone(),
            name: self.name.clone(),
            parent_id: copy_opt_text(&self.parent_id),
            level: self.level,
            icon: copy_opt_text(&self.icon),
        }
    }
}

fn copy_opt_decimal(o: &Option<Decimal>) -> (r: Option<Decimal>)
    ensures
        same_decimal(r, *o),
{
    match o {
        Some(d) => Some(d.copy()),
        None => None,
    }
}

fn find_brand(brands: &Vec<Brand>, key: &str) -> (r: Option<usize>)
    ensures
        match r {
            Some(i) => brand_match(brands@, key@) == Some(i as int),
            None => brand_match(brands@, key@) is None,
        },
        r matches Some(i) ==> i < brands@.len(),
{
    let mut found: Option<usize> = None;
    let mut i: usize = 0;
    assert(brands@.take(0) =~= Seq::<Brand>::empty());
    while i < brands.len()
        invariant
            i <= brands@.len(),
            found matches Some(j) ==> j < i,
            match found {
                Some(j) => brand_match(brands@.take(i as int), key@) == Some(j as int),
                None => brand_match(brands@.take(i as int), key@) is None,
            },
        decreases brands@.len() - i,
    {
        assert(brands@.take(i + 1).drop_last() =~= brands@.take(i as int));
        if same_text(brands[i].id.as_str(), key) || same_text(brands[i].name.as_str(), key) {
            found = Some(i);
        }
        i = i + 1;
    }
    assert(brands@.take(i as int) =~= brands@);
    found
}

fn find_category(cats: &Vec<Category>, key: &str) -> (r: Option<usize>)
    ensures
        match r {
            Some(i) => category_match(cats@, key@) == Some(i as int),
            None => category_match(cats@, key@) is None,
        },
        r matches Some(i) ==> i < cats@.len(),
{
    let mut found: Option<usize> = None;
    let mut i: usize = 0;
    assert(cats@.take(0) =~= Seq::<Category>::empty());
    while i < cats.len()
        invariant
            i <= cats@.len(),
            found matches Some(j) ==> j < i,
            match found {
                Some(j) => category_match(cats@.take(i as int), key@) == Some(j as int),
                None => category_match(cats@.take(i as int), key@) is None,
            },
        decreases cats@.len() - i,
    {
        assert(cats@.take(i + 1).drop_last() =~= cats@.take(i as int));
        if same_text(cats[i].id.as_str(), key) || same_text(cats[i].name.as_str(), key) {
            found = Some(i);
        }
        i = i + 1;
    }
    assert(cats@.take(i as int) =~= cats@);
    found
}

fn placeholder_brand(name: String) -> (b: Brand)
    ensures
        unknown_brand(b, name@),
{
    Brand { id: owned("unknown"), name, logo: None, story: None, founded_year: None, origin: None }
}

fn placeholder_category(name: String) -> (c: Category)
    ensures
        unknown_category(c, name@),
{
    Category { id: owned("unknown"), name, parent_id: None, level: 2, icon: None }
}

/// The brand a product links to; a placeholder when the link resolves to
/// none.
pub fn resolve_brand(brands: &Vec<Brand>, link: &Option<String>) -> (b: Brand)
    ensures
        brand_resolved(b, brands@, *link),
{
    match link {
        Some(l) => match find_brand(brands, l.as_str()) {
            Some(i) => brands[i].copy(),
            None => placeholder_brand(l.clone()),
        },
        None => placeholder_brand(owned("未知品牌")),
    }
}

/// The category a product links to; a placeholder when the link resolves to
/// none.
pub fn resolve_category(cats: &Vec<Category>, link: &Option<String>) -> (c: Category)
    ensures
        category_resolved(c, cats@, *link),
{
    match link {
        Some(l) => match find_category(cats, l.as_str()) {
            Some(i) => cats[i].copy(),
            None => placeholder_category(l.clone()),
        },
        None => placeholder_category(owned("未分类")),
    }
}

fn quarter_of(x: i32) -> (r: i32)
    ensures
        r as int == quarter(x as int),
{
    let w = x as i64;
    if w >= 0 {
        (w / 4) as i32
    } else {
        (-((-w) / 4)) as i32
    }
}

/// The catalog product made from an active raw product.
pub fn build_product(raw: &RawProduct, brands: &Vec<Brand>, cats: &Vec<Category>, now: &String) -> (p: Product)
    ensures
        product_of(p, *raw, brands@, cats@, now@),
{
    Product {
        id: raw.id.clone(),
        sku: raw.sku.clone(),
        barcode: String::new(),
        name: raw.name.clone(),
        brand: resolve_brand(brands, &raw.brand_id_link),
        category: resolve_category(cats, &raw.category_id_link),
        specification: raw.specification.clone(),
        unit: raw.unit.clone(),
        pack_size: 1,
        weight: parse_weight(raw.specification.as_str()),
        retail_price: raw.retail_price.copy(),
        cost_price: copy_opt_decimal(&raw.cost_price),
        member_price: copy_opt_decimal(&raw.member_price),
        promotion_price: copy_opt_decimal(&raw.promotion_price),
        stock: raw.stock,
        safety_stock: quarter_of(raw.stock),
        warehouse_location: None,
        origin: owned("浙江绍兴"),
        shelf_life: 36,
        storage_condition: owned("阴凉干燥处保存"),
        alcohol_content: raw.alcohol_content.copy(),
        vintage: raw.vintage,
        brewing_process: raw.brewing_process.clone(),
        flavor_profile: raw.flavor_profile.clone(),
        serving_suggestion: None,
        main_image: raw.main_image.clone(),
        detail_images: None,
        video: None,
        short_description: raw.short_description.clone(),
        long_description: copy_opt_text(&raw.long_description),
        supplier: None,
        status: raw.status.clone(),
        is_hot: raw.is_hot,
        is_new: raw.is_new,
        is_promotion: raw.is_promotion,
        created_at: now.clone(),
        updated_at: now.clone(),
    }
}

/// Builds the catalog from the active products, resolving each product's
/// brand and category by id or name, stamped `now` and dated `today`.
pub fn build_product_database(
    raw_products: &Vec<RawProduct>,
    brands: &Vec<Brand>,
    categories: &Vec<Category>,
    now: &String,
    today: &String,
) -> (db: ProductDatabase)
    ensures
        database_of(db, raw_products@, brands@, categories@, now@, today@),
{
    let mut products: Vec<Product> = Vec::new();
    let ghost mut act: Seq<int> = Seq::empty();
    let mut i: usize = 0;
    while i < raw_products.len()
        invariant
            i <= raw_products@.len(),
            products@.len() == act.len(),
            forall|t: int| 0 <= t < act.len() ==> 0 <= #[trigger] act[t] < i && is_active(raw_products@[act[t]]),
            forall|a: int, b: int| 0 <= a < b < act.len() ==> #[trigger] act[a] < #[trigger] act[b],
            forall|k: int| 0 <= k < i && is_active(raw_products@[k]) ==> #[trigger] crate::storefront::listed(act, k),
            forall|t: int| 0 <= t < act.len() ==> product_of(#[trigger] products@[t], raw_products@[act[t]], brands@, categories@, now@),
        decreases raw_products@.len() - i,
    {
        let raw = &raw_products[i];
        if same_text(raw.status.as_str(), "active") {
            let ghost old_act = act;
            products.push(build_product(raw, brands, categories, now));
            proof {
                act = act.push(i as int);
                assert forall|k: int| 0 <= k < i + 1 && is_active(raw_products@[k]) implies #[trigger] crate::storefront::listed(act, k) by {
                    if k < i {
                        assert(crate::storefront::listed(old_act, k));
                        let j = choose|j: int| 0 <= j < old_act.len() && old_act[j] == k;
                        assert(act[j] == k);
                    } else {
                        assert(act[act.len() - 1] == k);
                    }
                }
            }
        }
        i = i + 1;
    }
    let mut brand_copies: Vec<Brand> = Vec::new();
    let mut b: usize = 0;
    while b < brands.len()
        invariant
            b <= brands@.len(),
            brand_copies@ == brands@.take(b as int),
        decreases brands@.len() - b,
    {
        brand_copies.push(brands[b].copy());
        b = b + 1;
        assert(brand_copies@ =~= brands@.take(b as int));
    }
    assert(brand_copies@ =~= brands@);
    let mut cat_copies: Vec<Category> = Vec::new();
    let mut c: usize = 0;
    while c < categories.len()
        invariant
            c <= categories@.len(),
            cat_copies@ == categories@.take(c as int),
        decreases categories@.len() - c,
    {
        cat_copies.push(categories[c].copy());
        c = c + 1;
        assert(cat_copies@ =~= categories@.take(c as int));
    }
    assert(cat_copies@ =~= categories@);
    let db = ProductDatabase {
        version: owned("1.0.0"),
        last_updated: today.clone(),
        brands: brand_copies,
        categories: cat_copies,
        suppliers: Vec::new(),
        products,
    };
    assert(active_positions_in_order(raw_products@, act));
    db
}

/// Relies on `chrono::Utc::now` and `DateTime::format`: the current UTC time,
/// written as `%Y-%m-%dT%H:%M:%SZ` and as `%Y-%m-%d`.
#[verifier::external_body]
fn utc_now_stamps() -> (r: (String, String)) {
    let now = chrono::Utc::now();
    (now.format("%Y-%m-%dT%H:%M:%SZ").to_string(), now.format("%Y-%m-%d").to_string())
}

/// Builds the catalog stamped with the current time.
pub fn build_product_database_now(
    raw_products: &Vec<RawProduct>,
    brands: &Vec<Brand>,
    categories: &Vec<Category>,
) -> (db: ProductDatabase)
    ensures
        exists|now: Seq<char>, today: Seq<char>| database_of(db, raw_products@, brands@, categories@, now, today),
{
    let (now, today) = utc_now_stamps();
    build_product_database(raw_products, brands, categories, &now, &today)
}

} // verus!
