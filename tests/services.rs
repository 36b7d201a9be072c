use bitable_sync::auth::{check_code, read_download_urls, read_token_response, ApiError, TokenCache};
use bitable_sync::batch::RecordItem;
use bitable_sync::bitable::{records_page_url, tables_url, FieldDef, FieldProperty, FieldType, RecordPage, RecordPager};
use bitable_sync::config::{join_path, Config, ConfigError, RepoLayout};
use bitable_sync::git::{commit_message, files_to_stage, has_changes};
use bitable_sync::schema::{define_schemas, guide_records, GUIDE_TABLE};

fn config(root: &str) -> Config {
    Config {
        feishu_app_id: "id".to_string(),
        feishu_app_secret: "SECRET-REDACTED".to_string(),
        bitable_app_token: "app".to_string(),
        table_id_products: "t1".to_string(),
        table_id_brands: "t2".to_string(),
        table_id_display_categories: "t3".to_string(),
        table_id_media: "t4".to_string(),
        table_id_store_info: "t5".to_string(),
        table_id_slogans: String::new(),
        repo_root: root.to_string(),
    }
}

#[test]
fn config_paths() {
    assert_eq!(config("/repo").data_dir(), "/repo/src/data");
    assert_eq!(config("/repo/").public_dir(), "/repo/public");
    assert_eq!(join_path("", "x"), "x");
    assert_eq!(config("/r").layout_paths(), vec!["/r", "/r/.git", "/r/package.json", "/r/src/data", "/r/public"]);
}

#[test]
fn config_validation_order() {
    let all = RepoLayout { root: true, git_dir: true, package_json: true, data_dir: true, public_dir: true };
    let c = config("/r");
    assert_eq!(c.validate(&all), Ok(()));
    assert_eq!(c.validate(&RepoLayout { root: false, git_dir: false, ..all }), Err(ConfigError::MissingRepoRoot));
    assert_eq!(c.validate(&RepoLayout { git_dir: false, package_json: false, ..all }), Err(ConfigError::NotAGitRepository));
    assert_eq!(c.validate(&RepoLayout { package_json: false, ..all }), Err(ConfigError::MissingPackageJson));
    assert_eq!(c.validate(&RepoLayout { data_dir: false, ..all }), Err(ConfigError::MissingDataDir));
    assert_eq!(c.validate(&RepoLayout { public_dir: false, ..all }), Err(ConfigError::MissingPublicDir));
}

#[test]
fn token_cache_refreshes_near_expiry() {
    let mut cache = TokenCache::new();
    assert_eq!(cache.valid_token(0), None);
    cache.store("tok".to_string(), 1000, 7200);
    assert_eq!(cache.slot.as_ref().unwrap().expires_at, 8200);
    assert_eq!(cache.valid_token(1000), Some("tok".to_string()));
    assert_eq!(cache.valid_token(7899), Some("tok".to_string()));
    assert_eq!(cache.valid_token(7900), None);
    cache.store("big".to_string(), i64::MAX - 1, 10);
    assert_eq!(cache.slot.as_ref().unwrap().expires_at, i64::MAX);
}

#[test]
fn token_responses() {
    assert_eq!(read_token_response(0, String::new(), Some("t".to_string()), None).unwrap(), ("t".to_string(), 7200));
    assert_eq!(read_token_response(0, String::new(), Some("t".to_string()), Some(60)).unwrap().1, 60);
    assert!(matches!(read_token_response(0, String::new(), None, Some(60)), Err(ApiError::Incomplete)));
    match read_token_response(99991663, "app not found".to_string(), Some("t".to_string()), None) {
        Err(ApiError::Rejected { code, msg }) => assert_eq!((code, msg.as_str()), (99991663, "app not found")),
        _ => panic!("expected rejection"),
    }
}

#[test]
fn download_address_responses() {
    assert_eq!(read_download_urls(0, String::new(), Some(vec!["u1".to_string(), "u2".to_string()])).unwrap(), "u1");
    assert!(matches!(read_download_urls(0, String::new(), Some(Vec::new())), Err(ApiError::Incomplete)));
    assert!(matches!(read_download_urls(0, String::new(), None), Err(ApiError::Incomplete)));
    assert!(matches!(read_download_urls(5, "no".to_string(), None), Err(ApiError::Rejected { code: 5, .. })));
    assert!(check_code(0, String::new()).is_ok());
    assert!(matches!(check_code(1, "m".to_string()), Err(ApiError::Rejected { code: 1, .. })));
}

#[test]
fn field_definitions() {
    let n = FieldDef::number("零售价", "0.00");
    assert_eq!(n.field_type, 2);
    assert!(matches!(n.property, Some(FieldProperty::Formatter(ref f)) if f == "0.00"));
    let s = FieldDef::single_select("单位", &vec!["瓶".to_string(), "箱".to_string()]);
    assert_eq!(s.field_type, 3);
    assert!(matches!(s.property, Some(FieldProperty::Options(ref o)) if o.len() == 2));
    assert_eq!(FieldDef::text("a").field_type, 1);
    assert_eq!(FieldDef::checkbox("a").field_type, 7);
    assert_eq!(FieldDef::phone("a").field_type, 13);
    assert_eq!(FieldDef::url("a").field_type, 15);
    assert_eq!(FieldDef::attachment("a").field_type, 17);
    let l = FieldDef::link("品牌", "tbl1");
    assert_eq!(l.field_type, 18);
    assert!(matches!(l.property, Some(FieldProperty::LinkedTable(ref t)) if t == "tbl1"));
    assert_eq!(FieldType::DuplexLink.code(), 21);
    assert_eq!(FieldType::DateTime.code(), 5);
}

#[test]
fn api_addresses() {
    assert_eq!(tables_url("app1"), "https://open.feishu.cn/open-apis/bitable/v1/apps/app1/tables");
    assert_eq!(
        records_page_url("app1", "tbl", &None),
        "https://open.feishu.cn/open-apis/bitable/v1/apps/app1/tables/tbl/records?page_size=500"
    );
    assert_eq!(
        records_page_url("app1", "tbl", &Some("pt".to_string())),
        "https://open.feishu.cn/open-apis/bitable/v1/apps/app1/tables/tbl/records?page_size=500&page_token=pt"
    );
}

fn item(id: &str) -> RecordItem {
    RecordItem { record_id: id.to_string(), fields: Vec::new() }
}

#[test]
fn paging_through_records() {
    let mut pager = RecordPager::new();
    pager.absorb(Some(RecordPage { has_more: true, page_token: Some("p2".to_string()), items: Some(vec![item("a"), item("b")]) }));
    assert!(!pager.finished);
    assert_eq!(pager.page_token.as_deref(), Some("p2"));
    pager.absorb(Some(RecordPage { has_more: false, page_token: None, items: Some(vec![item("c")]) }));
    assert!(pager.finished);
    let ids: Vec<&str> = pager.records.iter().map(|r| r.record_id.as_str()).collect();
    assert_eq!(ids, vec!["a", "b", "c"]);
    let mut empty = RecordPager::new();
    empty.absorb(None);
    assert!(empty.finished && empty.records.is_empty());
}

#[test]
fn publish_decisions() {
    assert!(!has_changes("  \n"));
    assert!(has_changes(" M src/data/mockData.ts\n"));
    let files = vec!["src/data/productDatabase.json".to_string(), "README.md".to_string(), "public/videos/a/index.m3u8".to_string(), "public/other.png".to_string()];
    assert_eq!(files_to_stage(&files), vec!["README.md".to_string(), "public/other.png".to_string()]);
    assert_eq!(commit_message("2024-01-01 00:00 UTC"), "chore: sync product data from bitable (2024-01-01 00:00 UTC)");
}

#[test]
fn schemas_and_guide() {
    let s = define_schemas();
    assert_eq!(s.len(), 7);
    assert_eq!(s[GUIDE_TABLE].name, "使用说明 Guide");
    assert_eq!(s[2].fields.len(), 23);
    assert_eq!(s[2].links.len(), 2);
    assert_eq!(s[3].links[0].field_name, "所属品牌");
    assert_eq!(s[3].fields[3].field_name, "外部链接");
    assert_eq!(s[3].fields[3].field_type, 15);
    assert!(matches!(s[2].fields[4].property, Some(FieldProperty::Options(ref o)) if o.len() == 4 && o[3] == "盒"));
    assert_eq!(guide_records().len(), 7);
    assert_eq!(guide_records()[0].table, "品牌表 Brands");
    assert_eq!(guide_records()[5].required, "标语内容");
}
