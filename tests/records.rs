use bitable_sync::batch::{parse_brands, parse_raw_products, RecordItem};
use bitable_sync::cell::{CellValue, Entry};
use bitable_sync::records::{
    parse_brand, parse_display_category, parse_media_item, parse_raw_product, parse_slogan, parse_store_info, ParseError,
    RecordKind,
};

fn text(s: &str) -> CellValue {
    CellValue::Text(s.to_string())
}

fn num(s: &str) -> CellValue {
    CellValue::Number(s.to_string())
}

fn obj(members: Vec<(&str, CellValue)>) -> CellValue {
    CellValue::Object(members.into_iter().map(|(k, v)| Entry { key: k.to_string(), value: v }).collect())
}

fn record(fields: Vec<(&str, CellValue)>) -> Vec<Entry> {
    fields.into_iter().map(|(k, v)| Entry { key: k.to_string(), value: v }).collect()
}

fn missing_field(e: &ParseError) -> (RecordKind, String) {
    match e {
        ParseError::MissingField { kind, field } => (*kind, field.clone()),
        other => panic!("unexpected error {:?}", other),
    }
}

#[test]
fn brand_full_and_missing() {
    let f = record(vec![
        ("品牌ID", text("brand_gyl")),
        ("品牌名称", text("古越龙山")),
        ("创立年份", num("1664")),
        ("产地", text("绍兴")),
        ("品牌Logo", CellValue::Array(vec![obj(vec![("tmp_url", text("https://logo"))])])),
    ]);
    let b = parse_brand(&f).unwrap();
    assert_eq!(b.id, "brand_gyl");
    assert_eq!(b.name, "古越龙山");
    assert_eq!(b.founded_year, Some(1664));
    assert_eq!(b.origin.as_deref(), Some("绍兴"));
    assert_eq!(b.logo.as_deref(), Some("https://logo"));
    assert_eq!(b.story, None);

    let only_name = record(vec![("品牌名称", text("x"))]);
    let e = parse_brand(&only_name).unwrap_err();
    assert_eq!(missing_field(&e), (RecordKind::Brand, "品牌ID".to_string()));

    let only_id = record(vec![("品牌ID", text("x"))]);
    let e = parse_brand(&only_id).unwrap_err();
    assert_eq!(missing_field(&e), (RecordKind::Brand, "品牌名称".to_string()));
}

#[test]
fn category_and_store() {
    let c = parse_display_category(&record(vec![("分类ID", text("hot")), ("分类名称", text("热销")), ("排序", num("3"))])).unwrap();
    assert_eq!(c.sort_order, 3);
    assert_eq!(c.icon, None);
    let c0 = parse_display_category(&record(vec![("分类ID", text("a")), ("分类名称", text("b"))])).unwrap();
    assert_eq!(c0.sort_order, 0);
    let e = parse_display_category(&record(vec![("分类名称", text("b"))])).unwrap_err();
    assert_eq!(missing_field(&e), (RecordKind::Category, "分类ID".to_string()));

    let s = parse_store_info(&record(vec![("店铺名称", text("店")), ("联系电话", text("123"))])).unwrap();
    assert_eq!(s.qr_code_url, "");
    assert_eq!(s.qr_file_token, None);
    let q = parse_store_info(&record(vec![
        ("店铺名称", text("店")),
        ("联系电话", num("15936229925")),
        ("二维码", CellValue::Array(vec![obj(vec![("file_token", text("qr_tok")), ("url", text("https://qr"))])])),
    ]))
    .unwrap();
    assert_eq!(q.phone, "15936229925");
    assert_eq!(q.qr_code_url, "https://qr");
    assert_eq!(q.qr_file_token.as_deref(), Some("qr_tok"));
    let e = parse_store_info(&record(vec![("店铺名称", text("店"))])).unwrap_err();
    assert_eq!(missing_field(&e), (RecordKind::Store, "联系电话".to_string()));
}

#[test]
fn media_item_needs_a_source() {
    let m = parse_media_item(&record(vec![
        ("外部链接", text("https://v")),
        ("媒体类型", text("video")),
        ("时长(ms)", num("15000")),
        ("排序", num("2")),
    ]))
    .unwrap();
    assert_eq!(m.url, "https://v");
    assert_eq!(m.media_type, "video");
    assert_eq!(m.duration, Some(15000));
    assert_eq!(m.sort_order, 2);
    let d = parse_media_item(&record(vec![("外部链接", text("https://i"))])).unwrap();
    assert_eq!(d.media_type, "image");
    assert!(matches!(parse_media_item(&record(vec![("标题", text("t"))])), Err(ParseError::MissingMediaSource)));
}

#[test]
fn product_required_fields_named() {
    let e = parse_raw_product(&record(vec![("商品名称", text("n"))])).unwrap_err();
    assert_eq!(missing_field(&e), (RecordKind::Product, "商品ID".to_string()));
    let e = parse_raw_product(&record(vec![("商品ID", text("P001"))])).unwrap_err();
    assert_eq!(missing_field(&e), (RecordKind::Product, "商品名称".to_string()));
}

#[test]
fn product_defaults_with_required_only() {
    let p = parse_raw_product(&record(vec![("商品ID", text("P001")), ("商品名称", text("花雕"))])).unwrap();
    assert_eq!(p.id, "P001");
    assert_eq!(p.name, "花雕");
    assert_eq!(p.sku, "");
    assert_eq!(p.unit, "瓶");
    assert_eq!(p.status, "active");
    assert_eq!(p.retail_price.to_text(), "0");
    assert_eq!(p.alcohol_content.to_text(), "0");
    assert!(p.cost_price.is_none() && p.member_price.is_none() && p.promotion_price.is_none());
    assert_eq!(p.stock, 0);
    assert_eq!(p.sort_order, 0);
    assert_eq!(p.vintage, None);
    assert_eq!(p.main_image, "");
    assert_eq!(p.main_image_file_token, None);
    assert!(p.display_category_ids.is_empty());
    assert!(!p.is_hot && !p.is_new && !p.is_promotion);
    assert_eq!(p.brand_id_link, None);
    assert_eq!(p.long_description, None);
}

#[test]
fn product_display_categories_split_and_trimmed() {
    let p = parse_raw_product(&record(vec![
        ("商品ID", text("P001")),
        ("商品名称", text("n")),
        ("展示分类", text(" hot, huadiao ,, gift ,")),
        ("零售价", num("128.00")),
        ("库存", text("40")),
        ("热销", CellValue::Bool(true)),
        ("品牌", CellValue::Array(vec![obj(vec![("text", text("古越龙山"))])])),
        ("状态", obj(vec![("text", text("inactive"))])),
    ]))
    .unwrap();
    assert_eq!(p.display_category_ids, vec!["hot".to_string(), "huadiao".to_string(), "gift".to_string()]);
    assert_eq!(p.retail_price.to_text(), "128");
    assert_eq!(p.stock, 40);
    assert!(p.is_hot);
    assert_eq!(p.brand_id_link.as_deref(), Some("古越龙山"));
    assert_eq!(p.status, "inactive");
}

#[test]
fn batch_keeps_going_past_a_bad_record() {
    let mut items = Vec::new();
    for i in 0..10 {
        let mut f = vec![("商品ID", text(&format!("P{:03}", i)))];
        if i != 3 {
            f.push(("商品名称", text(&format!("name{}", i))));
        }
        items.push(RecordItem { record_id: format!("rec{}", i), fields: record(f) });
    }
    let batch = parse_raw_products(&items);
    assert_eq!(batch.parsed.len(), 9);
    assert_eq!(batch.failures.len(), 1);
    assert_eq!(batch.failures[0].index, 3);
    assert_eq!(batch.failures[0].record_id, "rec3");
    assert_eq!(missing_field(&batch.failures[0].error), (RecordKind::Product, "商品名称".to_string()));
    assert_eq!(batch.sources, vec![0, 1, 2, 4, 5, 6, 7, 8, 9]);
    assert_eq!(batch.parsed[3].id, "P004");
}

#[test]
fn slogans_parse() {
    let s = parse_slogan(&record(vec![("标语内容", text("欢迎")), ("排序", num("2")), ("启用", CellValue::Bool(true))])).unwrap();
    assert_eq!((s.text.as_str(), s.sort_order, s.enabled), ("欢迎", 2, true));
    let d = parse_slogan(&record(vec![("标语内容", text("x"))])).unwrap();
    assert!(!d.enabled);
    let e = parse_slogan(&record(vec![("排序", num("1"))])).unwrap_err();
    assert_eq!(missing_field(&e), (RecordKind::Slogan, "标语内容".to_string()));
}

#[test]
fn empty_batch() {
    let batch = parse_brands(&Vec::new());
    assert!(batch.parsed.is_empty() && batch.failures.is_empty());
}
