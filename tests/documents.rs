use bitable_sync::catalog::{build_product_database, build_product_database_now, resolve_brand, Category};
use bitable_sync::decimal::Decimal;
use bitable_sync::records::{Brand, DisplayCategory, MediaItem, RawProduct, Slogan, StoreInfo};
use bitable_sync::storefront::build_mock_data;
use bitable_sync::sync::{catalog_categories, fallback_store_info, image_references, pick_store_info, product_image_path, qr_code_path};

fn product(id: &str, status: &str, order: i32, cats: &[&str]) -> RawProduct {
    RawProduct {
        id: id.to_string(),
        sku: format!("SKU-{}", id),
        name: format!("name-{}", id),
        brand_id_link: Some("古越龙山".to_string()),
        category_id_link: None,
        specification: "500ml".to_string(),
        unit: "瓶".to_string(),
        retail_price: Decimal::parse("88.5").unwrap(),
        cost_price: None,
        member_price: Some(Decimal::parse("80").unwrap()),
        promotion_price: None,
        stock: -7,
        alcohol_content: Decimal::parse("15").unwrap(),
        vintage: Some(2018),
        brewing_process: String::new(),
        flavor_profile: String::new(),
        main_image: format!("images/{}.jpg", id),
        main_image_file_token: None,
        short_description: "desc".to_string(),
        long_description: None,
        status: status.to_string(),
        is_hot: true,
        is_new: false,
        is_promotion: false,
        display_category_ids: cats.iter().map(|c| c.to_string()).collect(),
        sort_order: order,
    }
}

fn store() -> StoreInfo {
    StoreInfo { name: "店".to_string(), phone: "1".to_string(), qr_code_url: String::new(), qr_file_token: None }
}

fn dcat(id: &str, order: i32) -> DisplayCategory {
    DisplayCategory { id: id.to_string(), name: format!("cat-{}", id), icon: None, sort_order: order }
}

#[test]
fn product_in_two_categories_listed_twice() {
    let mock = build_mock_data(&vec![product("P001", "active", 0, &["A", "B"])], &Vec::new(), &Vec::new(), &store(), &Vec::new());
    assert_eq!(mock.products.len(), 2);
    assert_eq!(mock.products[0].id, "P001");
    assert_eq!(mock.products[1].id, "P001-B");
    assert_eq!(mock.products[0].category_id, "A");
    assert_eq!(mock.products[1].category_id, "B");
    for m in &mock.products {
        assert_eq!(m.name, "name-P001");
        assert_eq!(m.price.to_text(), "88.5");
        assert_eq!(m.image, "images/P001.jpg");
        assert_eq!(m.description, "desc");
    }
}

#[test]
fn storefront_orders_and_filters() {
    let raw = vec![
        product("P001", "active", 2, &["A"]),
        product("P002", "inactive", 0, &["A"]),
        product("P003", "active", 1, &[]),
        product("P004", "active", 1, &["A", "A"]),
        product("P005", "active", 2, &["B"]),
    ];
    let cats = vec![dcat("c1", 5), dcat("c2", 1), dcat("c3", 5), dcat("c4", -1)];
    let media = vec![
        MediaItem { media_type: "image".to_string(), url: "m1".to_string(), title: None, duration: None, sort_order: 3 },
        MediaItem { media_type: "video".to_string(), url: "m2".to_string(), title: None, duration: None, sort_order: 3 },
        MediaItem { media_type: "image".to_string(), url: "m3".to_string(), title: None, duration: None, sort_order: 0 },
    ];
    let slogans = vec![
        Slogan { text: "b".to_string(), sort_order: 2, enabled: true },
        Slogan { text: "hidden".to_string(), sort_order: 0, enabled: false },
        Slogan { text: "a".to_string(), sort_order: 1, enabled: true },
        Slogan { text: "c".to_string(), sort_order: 2, enabled: true },
    ];
    let mock = build_mock_data(&raw, &cats, &media, &store(), &slogans);
    let texts: Vec<&str> = mock.slogans.iter().map(|s| s.text.as_str()).collect();
    assert_eq!(texts, vec!["a", "b", "c"]);
    let ids: Vec<&str> = mock.products.iter().map(|p| p.id.as_str()).collect();
    assert_eq!(ids, vec!["P004", "P004-A", "P001", "P005"]);
    let cat_ids: Vec<&str> = mock.categories.iter().map(|c| c.id.as_str()).collect();
    assert_eq!(cat_ids, vec!["c4", "c2", "c1", "c3"]);
    let urls: Vec<&str> = mock.media_playlist.iter().map(|m| m.url.as_str()).collect();
    assert_eq!(urls, vec!["m3", "m1", "m2"]);
    assert_eq!(mock.store_info.name, "店");
}

fn brand(id: &str, name: &str, origin: &str) -> Brand {
    Brand { id: id.to_string(), name: name.to_string(), logo: None, story: None, founded_year: None, origin: Some(origin.to_string()) }
}

#[test]
fn catalog_resolves_links_and_fills_defaults() {
    let brands = vec![brand("brand_gyl", "古越龙山", "first"), brand("b2", "塔牌", "x")];
    let cats = vec![Category { id: "hot".to_string(), name: "热销".to_string(), parent_id: None, level: 1, icon: None }];
    let mut p2 = product("P002", "active", 0, &[]);
    p2.brand_id_link = Some("b2".to_string());
    p2.category_id_link = Some("热销".to_string());
    p2.specification = "1.5L".to_string();
    let mut p3 = product("P003", "active", 0, &[]);
    p3.brand_id_link = Some("无名".to_string());
    p3.category_id_link = Some("nope".to_string());
    let mut p4 = product("P004", "active", 0, &[]);
    p4.brand_id_link = None;
    let raw = vec![product("P001", "active", 0, &[]), product("P000", "inactive", 0, &[]), p2, p3, p4];
    let db = build_product_database(&raw, &brands, &cats, &"2024-01-02T03:04:05Z".to_string(), &"2024-01-02".to_string());
    assert_eq!(db.version, "1.0.0");
    assert_eq!(db.last_updated, "2024-01-02");
    assert_eq!(db.brands.len(), 2);
    assert_eq!(db.categories.len(), 1);
    assert!(db.suppliers.is_empty());
    let ids: Vec<&str> = db.products.iter().map(|p| p.id.as_str()).collect();
    assert_eq!(ids, vec!["P001", "P002", "P003", "P004"]);
    let p1 = &db.products[0];
    assert_eq!(p1.brand.id, "brand_gyl");
    assert_eq!(p1.category.id, "unknown");
    assert_eq!(p1.category.name, "未分类");
    assert_eq!(p1.category.level, 2);
    assert_eq!(p1.weight, 500);
    assert_eq!(p1.safety_stock, -1);
    assert_eq!(p1.pack_size, 1);
    assert_eq!(p1.shelf_life, 36);
    assert_eq!(p1.origin, "浙江绍兴");
    assert_eq!(p1.storage_condition, "阴凉干燥处保存");
    assert_eq!(p1.barcode, "");
    assert_eq!(p1.created_at, "2024-01-02T03:04:05Z");
    assert_eq!(p1.updated_at, "2024-01-02T03:04:05Z");
    assert_eq!(p1.member_price.as_ref().unwrap().to_text(), "80");
    let p2 = &db.products[1];
    assert_eq!(p2.brand.name, "塔牌");
    assert_eq!(p2.category.id, "hot");
    assert_eq!(p2.weight, 1500);
    let p3 = &db.products[2];
    assert_eq!((p3.brand.id.as_str(), p3.brand.name.as_str()), ("unknown", "无名"));
    assert_eq!((p3.category.id.as_str(), p3.category.name.as_str()), ("unknown", "nope"));
    assert_eq!(db.products[3].brand.name, "未知品牌");
}

#[test]
fn last_brand_with_the_key_wins() {
    let brands = vec![brand("x", "same", "first"), brand("same", "y", "second")];
    let b = resolve_brand(&brands, &Some("same".to_string()));
    assert_eq!(b.origin.as_deref(), Some("second"));
}

#[test]
fn catalog_stamped_now() {
    let db = build_product_database_now(&vec![product("P001", "active", 0, &[])], &Vec::new(), &Vec::new());
    assert_eq!(db.products[0].created_at.len(), 20);
    assert!(db.products[0].created_at.ends_with('Z'));
    assert_eq!(db.last_updated.len(), 10);
    assert!(db.products[0].created_at.starts_with(&db.last_updated));
}

#[test]
fn store_and_categories_for_the_run() {
    let s = pick_store_info(&Vec::new()).unwrap();
    assert_eq!(s.name, fallback_store_info().name);
    assert_eq!(s.qr_code_url, "images/qrcode.jpg");
    assert!(s.qr_file_token.is_none());
    assert_eq!(qr_code_path(), "images/qrcode.jpg");
    assert_eq!(product_image_path("P001"), "images/products/P001.jpg");
    let cats = catalog_categories(&vec![DisplayCategory { id: "hot".to_string(), name: "热销".to_string(), icon: Some("🔥".to_string()), sort_order: 9 }]);
    assert_eq!(cats[0].level, 1);
    assert_eq!(cats[0].icon.as_deref(), Some("🔥"));
    assert!(cats[0].parent_id.is_none());
}

#[test]
fn images_referenced_by_the_output() {
    let mut p = product("P001", "active", 0, &["A"]);
    let mut q = product("P002", "active", 0, &["A"]);
    q.main_image = String::new();
    p.main_image = "images/a.jpg".to_string();
    let db = build_product_database(&vec![p, q], &Vec::new(), &Vec::new(), &"t".to_string(), &"d".to_string());
    let media = vec![MediaItem { media_type: "image".to_string(), url: "images/m.jpg".to_string(), title: None, duration: None, sort_order: 0 }];
    let mock = build_mock_data(&Vec::new(), &Vec::new(), &media, &store(), &Vec::new());
    let refs = image_references(&db, &mock);
    assert_eq!(refs.len(), 2);
    assert_eq!((refs[0].owner.as_str(), refs[0].path.as_str(), refs[0].is_media), ("name-P001", "images/a.jpg", false));
    assert_eq!((refs[1].owner.as_str(), refs[1].path.as_str(), refs[1].is_media), ("untitled", "images/m.jpg", true));
}
