//! The display-oriented document: store details, ordered playlist and
//! categories, and every active product once per display category.

use vstd::prelude::*;

use crate::decimal::Decimal;
use crate::order::{sort_stable, stably_sorted, SortKey};
use crate::playlist::{order_categories, order_playlist};
use crate::playlist::copy_opt_text;
use crate::records::{DisplayCategory, MediaItem, RawProduct, Slogan, StoreInfo};
use crate::text::same_text;

verus! {

/// A product as one display category lists it.
#[derive(Clone, Debug)]
pub struct MockProduct {
    pub id: String,
    pub name: String,
    pub description: String,
    pub price: Decimal,
    pub image: String,
    pub category_id: String,
}

/// The whole display-oriented document.
#[derive(Clone, Debug)]
pub struct MockData {
    pub store_info: StoreInfo,
    pub media_playlist: Vec<MediaItem>,
    pub categories: Vec<DisplayCategory>,
    pub products: Vec<MockProduct>,
    pub slogans: Vec<Slogan>,
}

pub open spec fn is_active(p: RawProduct) -> bool {
    p.status@ == "active"@
}

/// The id of the entry of `p` in its `k`-th display category: the product's
/// own id in its first category, the id, `-` and the category id in every
/// later one.
pub open spec fn expanded_id(p: RawProduct, k: int) -> Seq<char> {
    let ids = p.display_category_ids@;
    if k == 0 {
        p.id@
    } else {
        p.id@ + "-"@ + ids[k]@
    }
}

/// `m` is the entry of `p` in its `k`-th display category.
pub open spec fn expands_to(p: RawProduct, k: int, m: MockProduct) -> bool {
    &&& m.id@ == expanded_id(p, k)
    &&& m.name@ == p.name@
    &&& m.description@ == p.short_description@
    &&& m.price.same_as(&p.retail_price)
    &&& m.image@ == p.main_image@
    &&& m.category_id@ == p.display_category_ids@[k]@
}

/// How many entries the products at positions `ord` make.
pub open spec fn expanded_len(raw: Seq<RawProduct>, ord: Seq<int>) -> nat
    decreases ord.len(),
{
    if ord.len() == 0 {
        0
    } else {
        expanded_len(raw, ord.drop_last()) + raw[ord.last()].display_category_ids@.len()
    }
}

/// `out` lists, for each product at positions `ord` in turn, its entries in
/// the order of its display categories.
pub open spec fn expansion_of(raw: Seq<RawProduct>, ord: Seq<int>, out: Seq<MockProduct>) -> bool {
    &&& out.len() == expanded_len(raw, ord)
    &&& forall|t: int, k: int|
        0 <= t < ord.len() && 0 <= k < raw[ord[t]].display_category_ids@.len() ==> expands_to(
            raw[ord[t]],
            k,
            #[trigger] out[expanded_len(raw, ord.take(t)) + k],
        )
}

pub open spec fn listed(ord: Seq<int>, k: int) -> bool {
    exists|i: int| 0 <= i < ord.len() && ord[i] == k
}

/// `ord` holds the positions of the active products, ascending by their
/// order and by position where orders are equal.
pub open spec fn active_order(raw: Seq<RawProduct>, ord: Seq<int>) -> bool {
    &&& forall|i: int| 0 <= i < ord.len() ==> 0 <= #[trigger] ord[i] < raw.len() && is_active(raw[ord[i]])
    &&& forall|i: int, j: int| 0 <= i < j < ord.len() ==> {
        ||| raw[#[trigger] ord[i]].sort_order < raw[#[trigger] ord[j]].sort_order
        ||| (raw[ord[i]].sort_order == raw[ord[j]].sort_order && ord[i] < ord[j])
    }
    &&& forall|k: int| 0 <= k < raw.len() && is_active(raw[k]) ==> #[trigger] listed(ord, k)
}

struct Ranked {
    key: i32,
    index: usize,
}

impl SortKey for Ranked {
    closed spec fn key_spec(&self) -> int {
        self.key as int
    }

    fn sort_key(&self) -> (r: i32) {
        self.key
    }
}

/// Positions of the active products, ascending by order, ties by position.
fn active_positions(raw: &Vec<RawProduct>) -> (r: Vec<usize>)
    ensures
        active_order(raw@, r@.map_values(|x: usize| x as int)),
{
    let mut ranked: Vec<Ranked> = Vec::new();
    let mut i: usize = 0;
    while i < raw.len()
        invariant
            i <= raw@.len(),
            forall|j: int| 0 <= j < ranked@.len() ==> {
                &&& (#[trigger] ranked@[j]).index < i
                &&& is_active(raw@[ranked@[j].index as int])
                &&& ranked@[j].key == raw@[ranked@[j].index as int].sort_order
            },
            forall|a: int, b: int| 0 <= a < b < ranked@.len() ==> (#[trigger] ranked@[a]).index < (#[trigger] ranked@[b]).index,
            forall|k: int| 0 <= k < i && is_active(raw@[k]) ==> exists|j: int| 0 <= j < ranked@.len() && (#[trigger] ranked@[j]).index == k,
        decreases raw@.len() - i,
    {
        if same_text(raw[i].status.as_str(), "active") {
            let ghost before = ranked@;
            ranked.push(Ranked { key: raw[i].sort_order, index: i });
            assert forall|k: int| 0 <= k < i + 1 && is_active(raw@[k]) implies exists|j: int| 0 <= j < ranked@.len() && (#[trigger] ranked@[j]).index == k by {
                if k < i {
                    let j = choose|j: int| 0 <= j < before.len() && (#[trigger] before[j]).index == k;
                    assert(ranked@[j] == before[j]);
                } else {
                    assert(ranked@[ranked@.len() - 1].index == k);
                }
            }
        }
        i = i + 1;
    }
    let ghost input = ranked@;
    let sorted = sort_stable(ranked);
    let ghost from = choose|from: Seq<int>| stably_sorted(input, sorted@, from);
    let mut r: Vec<usize> = Vec::new();
    let mut t: usize = 0;
    while t < sorted.len()
        invariant
            t <= sorted@.len(),
            r@.len() == t,
            forall|s: int| 0 <= s < t ==> r@[s] == (#[trigger] sorted@[s]).index,
        decreases sorted@.len() - t,
    {
        r.push(sorted[t].index);
        t = t + 1;
    }
    let ghost ord = r@.map_values(|x: usize| x as int);
    assert forall|a: int, b: int| 0 <= a < b < ord.len() implies {
        ||| raw@[#[trigger] ord[a]].sort_order < raw@[#[trigger] ord[b]].sort_order
        ||| (raw@[ord[a]].sort_order == raw@[ord[b]].sort_order && ord[a] < ord[b])
    } by {
        assert(sorted@[a] == input[from[a]] && sorted@[b] == input[from[b]]);
        if sorted@[a].key_spec() == sorted@[b].key_spec() {
            assert(from[a] < from[b]);
            assert(input[from[a]].index < input[from[b]].index);
        }
    }
    assert forall|i: int| 0 <= i < ord.len() implies 0 <= #[trigger] ord[i] < raw@.len() && is_active(raw@[ord[i]]) by {
        assert(sorted@[i] == input[from[i]]);
    }
    assert forall|k: int| 0 <= k < raw@.len() && is_active(raw@[k]) implies #[trigger] listed(ord, k) by {
        let j = choose|j: int| 0 <= j < input.len() && (#[trigger] input[j]).index == k;
        assert(crate::order::taken_from(from, j));
        let s = choose|s: int| 0 <= s < from.len() && from[s] == j;
        assert(sorted@[s] == input[j]);
        assert(ord[s] == k);
    }
    r
}

fn entry_for(p: &RawProduct, k: usize) -> (m: MockProduct)
    requires
        k < p.display_category_ids@.len(),
    ensures
        expands_to(*p, k as int, m),
{
    let ids = &p.display_category_ids;
    let cat = &ids[k];
    let id = if k == 0 {
        p.id.clone()
    } else {
        let mut s = p.id.clone();
        s.append("-");
        s.append(cat.as_str());
        s
    };
    MockProduct {
        id,
        name: p.name.clone(),
        description: p.short_description.clone(),
        price: p.retail_price.copy(),
        image: p.main_image.clone(),
        category_id: cat.clone(),
    }
}

/// Lists every active product once per display category, products ascending
/// by their order (ties in source order), each product's entries in the
/// order of its categories.
pub fn expand_products(raw: &Vec<RawProduct>) -> (r: Vec<MockProduct>)
    ensures
        exists|ord: Seq<int>| active_order(raw@, ord) && expansion_of(raw@, ord, r@),
{
    let positions = active_positions(raw);
    let ghost ord = positions@.map_values(|x: usize| x as int);
    let mut out: Vec<MockProduct> = Vec::new();
    let mut t: usize = 0;
    assert(ord.take(0) =~= Seq::<int>::empty());
    while t < positions.len()
        invariant
            t <= positions@.len(),
            ord == positions@.map_values(|x: usize| x as int),
            active_order(raw@, ord),
            out@.len() == expanded_len(raw@, ord.take(t as int)),
            forall|s: int, k: int|
                0 <= s < t && 0 <= k < raw@[ord[s]].display_category_ids@.len() ==> expands_to(
                    raw@[ord[s]],
                    k,
                    #[trigger] out@[expanded_len(raw@, ord.take(s)) + k],
                ),
        decreases positions@.len() - t,
    {
        assert(ord[t as int] == positions@[t as int] as int);
        let p = &raw[positions[t]];
        assert(ord.take(t + 1).drop_last() =~= ord.take(t as int));
        let ghost base = out@.len();
        let ghost before = out@;
        let mut k: usize = 0;
        while k < p.display_category_ids.len()
            invariant
                k <= p.display_category_ids@.len(),
                out@.len() == base + k,
                out@.subrange(0, base as int) == before,
                forall|q: int| 0 <= q < k ==> expands_to(*p, q, #[trigger] out@[base + q]),
            decreases p.display_category_ids@.len() - k,
        {
            let m = entry_for(p, k);
            out.push(m);
            assert(out@.subrange(0, base as int) =~= before);
            k = k + 1;
        }
        assert forall|s: int, q: int|
            0 <= s < t + 1 && 0 <= q < raw@[ord[s]].display_category_ids@.len() implies expands_to(
                raw@[ord[s]],
                q,
                #[trigger] out@[expanded_len(raw@, ord.take(s)) + q],
            ) by {
            if s < t {
                lemma_expanded_len_prefix(raw@, ord, s, t as int);
                assert(out@[expanded_len(raw@, ord.take(s)) + q] == before[expanded_len(raw@, ord.take(s)) + q]);
            } else {
                assert(ord[s] == positions@[t as int] as int);
            }
        }
        t = t + 1;
    }
    assert(ord.take(t as int) =~= ord);
    out
}

proof fn lemma_expanded_len_prefix(raw: Seq<RawProduct>, ord: Seq<int>, s: int, t: int)
    requires
        0 <= s < t <= ord.len(),
    ensures
        expanded_len(raw, ord.take(s)) + raw[ord[s]].display_category_ids@.len() <= expanded_len(raw, ord.take(t)),
    decreases t - s,
{
    assert(ord.take(s + 1).drop_last() =~= ord.take(s));
    if s + 1 < t {
        lemma_expanded_len_prefix(raw, ord, s + 1, t);
        lemma_expanded_len_mono(raw, ord, s + 1, t);
    }
}

proof fn lemma_expanded_len_mono(raw: Seq<RawProduct>, ord: Seq<int>, s: int, t: int)
    requires
        0 <= s <= t <= ord.len(),
    ensures
        expanded_len(raw, ord.take(s)) <= expanded_len(raw, ord.take(t)),
    decreases t - s,
{
    if s < t {
        assert(ord.take(t).drop_last() =~= ord.take(t - 1));
        lemma_expanded_len_mono(raw, ord, s, t - 1);
    }
}

/// The document for the storefront.
pub fn build_mock_data(
    raw_products: &Vec<RawProduct>,
    display_categories: &Vec<DisplayCategory>,
    media_items: &Vec<MediaItem>,
    store_info: &StoreInfo,
    slogans: &Vec<Slogan>,
) -> (r: MockData)
    ensures
        r.store_info == *store_info,
        exists|from: Seq<int>| stably_sorted(media_items@, r.media_playlist@, from),
        exists|from: Seq<int>| stably_sorted(display_categories@, r.categories@, from),
        exists|ord: Seq<int>| active_order(raw_products@, ord) && expansion_of(raw_products@, ord, r.products@),
        exists|from: Seq<int>| stably_sorted(enabled_slogans(slogans@), r.slogans@, from),
{
    let products = expand_products(raw_products);
    let mut media: Vec<MediaItem> = Vec::new();
    let mut i: usize = 0;
    while i < media_items.len()
        invariant
            i <= media_items@.len(),
            media@ == media_items@.take(i as int),
        decreases media_items@.len() - i,
    {
        media.push(media_items[i].copy());
        i = i + 1;
        assert(media@ =~= media_items@.take(i as int));
    }
    assert(media@ =~= media_items@);
    let store = StoreInfo {
        name: store_info.name.clone(),
        phone: store_info.phone.clone(),
        qr_code_url: store_info.qr_code_url.clone(),
        qr_file_token: copy_opt_text(&store_info.qr_file_token),
    };
    let ghost media_view = media@;
    let media_playlist = order_playlist(media);
    let categories = order_categories(display_categories);
    let ghost f = choose|f: Seq<int>| stably_sorted(media_view, media_playlist@, f);
    let ghost g = choose|g: Seq<int>| stably_sorted(display_categories@, categories@, g);
    let shown = order_slogans(slogans);
    let ghost h = choose|h: Seq<int>| stably_sorted(enabled_slogans(slogans@), shown@, h);
    let r = MockData { store_info: store, media_playlist, categories, products, slogans: shown };
    assert(stably_sorted(enabled_slogans(slogans@), r.slogans@, h));
    assert(stably_sorted(media_items@, r.media_playlist@, f));
    assert(stably_sorted(display_categories@, r.categories@, g));
    r
}

impl SortKey for Slogan {
    open spec fn key_spec(&self) -> int {
        self.sort_order as int
    }

    fn sort_key(&self) -> (r: i32) {
        self.sort_order
    }
}

/// The enabled slogans, in order.
pub open spec fn enabled_slogans(s: Seq<Slogan>) -> Seq<Slogan>
    decreases s.len(),
{
    if s.len() == 0 {
        Seq::empty()
    } else if s.last().enabled {
        enabled_slogans(s.drop_last()).push(s.last())
    } else {
        enabled_slogans(s.drop_last())
    }
}

/// The slogans to show: the enabled ones, ascending by order, ties kept in
/// the order given.
pub fn order_slogans(slogans: &Vec<Slogan>) -> (r: Vec<Slogan>)
    ensures
        exists|from: Seq<int>| stably_sorted(enabled_slogans(slogans@), r@, from),
{
    let mut shown: Vec<Slogan> = Vec::new();
    let mut i: usize = 0;
    assert(slogans@.take(0) =~= Seq::<Slogan>::empty());
    while i < slogans.len()
        invariant
            i <= slogans@.len(),
            shown@ == enabled_slogans(slogans@.take(i as int)),
        decreases slogans@.len() - i,
    {
        let s = &slogans[i];
        assert(slogans@.take(i + 1).drop_last() =~= slogans@.take(i as int));
        assert(slogans@.take(i + 1).last() == slogans@[i as int]);
        if s.enabled {
            shown.push(Slogan { text: s.text.clone(), sort_order: s.sort_order, enabled: s.enabled });
        }
        i = i + 1;
    }
    assert(slogans@.take(i as int) =~= slogans@);
    sort_stable(shown)
}

/// A product listed in two display categories appears twice: under
/// its own id in the first and under id, `-` and category in the second,
/// with the same name, price and image.
pub proof fn lemma_two_categories(p: RawProduct, first: MockProduct, second: MockProduct)
    requires
        p.display_category_ids@.len() == 2,
        expands_to(p, 0, first),
        expands_to(p, 1, second),
    ensures
        first.id@ == p.id@,
        second.id@ == p.id@ + "-"@ + p.display_category_ids@[1]@,
        first.name@ == second.name@,
        first.price.same_as(&second.price),
        first.image@ == second.image@,
        first.category_id@ == p.display_category_ids@[0]@,
        second.category_id@ == p.display_category_ids@[1]@,
{
}

} // verus!
