//! The tables that a fresh app is provisioned with, and the rows of its
//! guide table.

use vstd::prelude::*;

use crate::bitable::{FieldDef, FieldProperty, FieldType};
use crate::text::owned;

verus! {

/// A field that links to another table, added once every table exists.
#[derive(Clone, Debug)]
pub struct LinkSpec {
    pub field_name: String,
    /// Position of the linked table among the schemas.
    pub table_index: usize,
}

/// A table to create.
#[derive(Clone, Debug)]
pub struct TableSchema {
    pub name: String,
    pub view_name: String,
    /// Fields created with the table; link fields come later.
    pub fields: Vec<FieldDef>,
    pub links: Vec<LinkSpec>,
}

/// Position of the guide table among the schemas.
pub const GUIDE_TABLE: usize = 6;

/// A field of type `ty` named `name`, without settings.
pub open spec fn plain_field(f: FieldDef, name: Seq<char>, ty: FieldType) -> bool {
    f.field_name@ == name && f.field_type == ty.code_spec() && f.property is None
}

/// A number field named `name`, shown with `format`.
pub open spec fn number_field(f: FieldDef, name: Seq<char>, format: Seq<char>) -> bool {
    &&& f.field_name@ == name
    &&& f.field_type == FieldType::Number.code_spec()
    &&& f.property matches Some(FieldProperty::Formatter(x)) && x@ == format
}

/// A single-choice field named `name` with the choices `choices`.
pub open spec fn select_field(f: FieldDef, name: Seq<char>, choices: Seq<Seq<char>>) -> bool {
    &&& f.field_name@ == name
    &&& f.field_type == FieldType::SingleSelect.code_spec()
    &&& f.property matches Some(FieldProperty::Options(o)) && o@.len() == choices.len()
        && forall|i: int| 0 <= i < choices.len() ==> (#[trigger] o@[i])@ == choices[i]
}

/// The link field `name` to the table at `index`.
pub open spec fn link_to(l: LinkSpec, name: Seq<char>, index: usize) -> bool {
    l.field_name@ == name && l.table_index == index
}

fn link(field_name: &str, table_index: usize) -> (r: LinkSpec)
    ensures
        link_to(r, field_name@, table_index),
{
    LinkSpec { field_name: owned(field_name), table_index }
}

fn table(name: &str, view_name: &str, fields: Vec<FieldDef>, links: Vec<LinkSpec>) -> (r: TableSchema)
    ensures
        r.name@ == name@,
        r.view_name@ == view_name@,
        r.fields == fields,
        r.links == links,
{
    TableSchema { name: owned(name), view_name: owned(view_name), fields, links }
}

/// The table `品牌表 Brands`.
fn table_0() -> (r: TableSchema)
    ensures
        r.name@ == "品牌表 Brands"@,
        r.view_name@ == "全部品牌"@,
        r.fields@.len() == 6,
        plain_field(r.fields@[0], "品牌ID"@, FieldType::Text),
        plain_field(r.fields@[1], "品牌名称"@, FieldType::Text),
        plain_field(r.fields@[2], "品牌Logo"@, FieldType::Attachment),
        plain_field(r.fields@[3], "品牌故事"@, FieldType::Text),
        number_field(r.fields@[4], "创立年份"@, "0"@),
        plain_field(r.fields@[5], "产地"@, FieldType::Text),
        r.links@.len() == 0,
{
    let mut fields: Vec<FieldDef> = Vec::new();
    fields.push(FieldDef::text("品牌ID"));
    fields.push(FieldDef::text("品牌名称"));
    fields.push(FieldDef::attachment("品牌Logo"));
    fields.push(FieldDef::text("品牌故事"));
    fields.push(FieldDef::number("创立年份", "0"));
    fields.push(FieldDef::text("产地"));
    let mut links: Vec<LinkSpec> = Vec::new();
    table("品牌表 Brands", "全部品牌", fields, links)
}

/// The table `展示分类表 Display Categories`.
fn table_1() -> (r: TableSchema)
    ensures
        r.name@ == "展示分类表 Display Categories"@,
        r.view_name@ == "全部分类"@,
        r.fields@.len() == 4,
        plain_field(r.fields@[0], "分类ID"@, FieldType::Text),
        plain_field(r.fields@[1], "分类名称"@, FieldType::Text),
        plain_field(r.fields@[2], "图标"@, FieldType::Text),
        number_field(r.fields@[3], "排序"@, "0"@),
        r.links@.len() == 0,
{
    let mut fields: Vec<FieldDef> = Vec::new();
    fields.push(FieldDef::text("分类ID"));
    fields.push(FieldDef::text("分类名称"));
    fields.push(FieldDef::text("图标"));
    fields.push(FieldDef::number("排序", "0"));
    let mut links: Vec<LinkSpec> = Vec::new();
    table("展示分类表 Display Categories", "全部分类", fields, links)
}

/// The table `商品表 Products`.
fn table_2() -> (r: TableSchema)
    ensures
        r.name@ == "商品表 Products"@,
        r.view_name@ == "全部商品"@,
        r.fields@.len() == 23,
        plain_field(r.fields@[0], "商品ID"@, FieldType::Text),
        plain_field(r.fields@[1], "商品编码"@, FieldType::Text),
        plain_field(r.fields@[2], "商品名称"@, FieldType::Text),
        plain_field(r.fields@[3], "规格"@, FieldType::Text),
        select_field(r.fields@[4], "单位"@, seq!["瓶"@, "箱"@, "坛"@, "盒"@]),
        number_field(r.fields@[5], "零售价"@, "0.00"@),
        number_field(r.fields@[6], "成本价"@, "0.00"@),
        number_field(r.fields@[7], "会员价"@, "0.00"@),
        number_field(r.fields@[8], "促销价"@, "0.00"@),
        number_field(r.fields@[9], "库存"@, "0"@),
        number_field(r.fields@[10], "酒精度%"@, "0.0"@),
        number_field(r.fields@[11], "年份"@, "0"@),
        plain_field(r.fields@[12], "酿造工艺"@, FieldType::Text),
        plain_field(r.fields@[13], "风味描述"@, FieldType::Text),
        plain_field(r.fields@[14], "商品主图"@, FieldType::Attachment),
        plain_field(r.fields@[15], "简短描述"@, FieldType::Text),
        plain_field(r.fields@[16], "详细描述"@, FieldType::Text),
        select_field(r.fields@[17], "状态"@, seq!["active"@, "inactive"@, "outOfStock"@, "discontinued"@]),
        plain_field(r.fields@[18], "热销"@, FieldType::Checkbox),
        plain_field(r.fields@[19], "新品"@, FieldType::Checkbox),
        plain_field(r.fields@[20], "促销中"@, FieldType::Checkbox),
        plain_field(r.fields@[21], "展示分类"@, FieldType::Text),
        number_field(r.fields@[22], "排序"@, "0"@),
        r.links@.len() == 2,
        link_to(r.links@[0], "品牌"@, 0),
        link_to(r.links@[1], "分类"@, 1),
{
    let mut fields: Vec<FieldDef> = Vec::new();
    fields.push(FieldDef::text("商品ID"));
    fields.push(FieldDef::text("商品编码"));
    fields.push(FieldDef::text("商品名称"));
    fields.push(FieldDef::text("规格"));
    let mut choices: Vec<String> = Vec::new();
    choices.push(owned("瓶"));
    choices.push(owned("箱"));
    choices.push(owned("坛"));
    choices.push(owned("盒"));
    fields.push(FieldDef::single_select("单位", &choices));
    fields.push(FieldDef::number("零售价", "0.00"));
    fields.push(FieldDef::number("成本价", "0.00"));
    fields.push(FieldDef::number("会员价", "0.00"));
    fields.push(FieldDef::number("促销价", "0.00"));
    fields.push(FieldDef::number("库存", "0"));
    fields.push(FieldDef::number("酒精度%", "0.0"));
    fields.push(FieldDef::number("年份", "0"));
    fields.push(FieldDef::text("酿造工艺"));
    fields.push(FieldDef::text("风味描述"));
    fields.push(FieldDef::attachment("商品主图"));
    fields.push(FieldDef::text("简短描述"));
    fields.push(FieldDef::text("详细描述"));
    let mut choices: Vec<String> = Vec::new();
    choices.push(owned("active"));
    choices.push(owned("inactive"));
    choices.push(owned("outOfStock"));
    choices.push(owned("discontinued"));
    fields.push(FieldDef::single_select("状态", &choices));
    fields.push(FieldDef::checkbox("热销"));
    fields.push(FieldDef::checkbox("新品"));
    fields.push(FieldDef::checkbox("促销中"));
    fields.push(FieldDef::text("展示分类"));
    fields.push(FieldDef::number("排序", "0"));
    let mut links: Vec<LinkSpec> = Vec::new();
    links.push(link("品牌", 0));
    links.push(link("分类", 1));
    table("商品表 Products", "全部商品", fields, links)
}

/// The table `轮播媒体表 Media`.
fn table_3() -> (r: TableSchema)
    ensures
        r.name@ == "轮播媒体表 Media"@,
        r.view_name@ == "全部媒体"@,
        r.fields@.len() == 6,
        plain_field(r.fields@[0], "标题"@, FieldType::Text),
        select_field(r.fields@[1], "媒体类型"@, seq!["image"@, "video"@]),
        plain_field(r.fields@[2], "文件"@, FieldType::Attachment),
        plain_field(r.fields@[3], "外部链接"@, FieldType::Url),
        number_field(r.fields@[4], "时长(ms)"@, "0"@),
        number_field(r.fields@[5], "排序"@, "0"@),
        r.links@.len() == 1,
        link_to(r.links@[0], "所属品牌"@, 0),
{
    let mut fields: Vec<FieldDef> = Vec::new();
    fields.push(FieldDef::text("标题"));
    let mut choices: Vec<String> = Vec::new();
    choices.push(owned("image"));
    choices.push(owned("video"));
    fields.push(FieldDef::single_select("媒体类型", &choices));
    fields.push(FieldDef::attachment("文件"));
    fields.push(FieldDef::url("外部链接"));
    fields.push(FieldDef::number("时长(ms)", "0"));
    fields.push(FieldDef::number("排序", "0"));
    let mut links: Vec<LinkSpec> = Vec::new();
    links.push(link("所属品牌", 0));
    table("轮播媒体表 Media", "全部媒体", fields, links)
}

/// The table `店铺信息表 Store Info`.
fn table_4() -> (r: TableSchema)
    ensures
        r.name@ == "店铺信息表 Store Info"@,
        r.view_name@ == "店铺信息"@,
        r.fields@.len() == 3,
        plain_field(r.fields@[0], "店铺名称"@, FieldType::Text),
        plain_field(r.fields@[1], "联系电话"@, FieldType::Phone),
        plain_field(r.fields@[2], "二维码"@, FieldType::Attachment),
        r.links@.len() == 0,
{
    let mut fields: Vec<FieldDef> = Vec::new();
    fields.push(FieldDef::text("店铺名称"));
    fields.push(FieldDef::phone("联系电话"));
    fields.push(FieldDef::attachment("二维码"));
    let mut links: Vec<LinkSpec> = Vec::new();
    table("店铺信息表 Store Info", "店铺信息", fields, links)
}

/// The table `标语表 Slogans`.
fn table_5() -> (r: TableSchema)
    ensures
        r.name@ == "标语表 Slogans"@,
        r.view_name@ == "全部标语"@,
        r.fields@.len() == 3,
        plain_field(r.fields@[0], "标语内容"@, FieldType::Text),
        number_field(r.fields@[1], "排序"@, "0"@),
        plain_field(r.fields@[2], "启用"@, FieldType::Checkbox),
        r.links@.len() == 0,
{
    let mut fields: Vec<FieldDef> = Vec::new();
    fields.push(FieldDef::text("标语内容"));
    fields.push(FieldDef::number("排序", "0"));
    fields.push(FieldDef::checkbox("启用"));
    let mut links: Vec<LinkSpec> = Vec::new();
    table("标语表 Slogans", "全部标语", fields, links)
}

/// The table `使用说明 Guide`.
fn table_6() -> (r: TableSchema)
    ensures
        r.name@ == "使用说明 Guide"@,
        r.view_name@ == "使用说明"@,
        r.fields@.len() == 4,
        plain_field(r.fields@[0], "表名"@, FieldType::Text),
        plain_field(r.fields@[1], "用途"@, FieldType::Text),
        plain_field(r.fields@[2], "必填字段"@, FieldType::Text),
        plain_field(r.fields@[3], "填写说明"@, FieldType::Text),
        r.links@.len() == 0,
{
    let mut fields: Vec<FieldDef> = Vec::new();
    fields.push(FieldDef::text("表名"));
    fields.push(FieldDef::text("用途"));
    fields.push(FieldDef::text("必填字段"));
    fields.push(FieldDef::text("填写说明"));
    let mut links: Vec<LinkSpec> = Vec::new();
    table("使用说明 Guide", "使用说明", fields, links)
}

/// The five data tables, the slogans table and the guide table, in the
/// order that link fields refer to, each with its fields and links.
pub fn define_schemas() -> (r: Vec<TableSchema>)
    ensures
        r@.len() == 7,
        r@[GUIDE_TABLE as int].name@ == "使用说明 Guide"@,
        r@[0].name@ == "品牌表 Brands"@,
        r@[0].view_name@ == "全部品牌"@,
        r@[0].fields@.len() == 6,
        plain_field(r@[0].fields@[0], "品牌ID"@, FieldType::Text),
        plain_field(r@[0].fields@[1], "品牌名称"@, FieldType::Text),
        plain_field(r@[0].fields@[2], "品牌Logo"@, FieldType::Attachment),
        plain_field(r@[0].fields@[3], "品牌故事"@, FieldType::Text),
        number_field(r@[0].fields@[4], "创立年份"@, "0"@),
        plain_field(r@[0].fields@[5], "产地"@, FieldType::Text),
        r@[0].links@.len() == 0,
        r@[1].name@ == "展示分类表 Display Categories"@,
        r@[1].view_name@ == "全部分类"@,
        r@[1].fields@.len() == 4,
        plain_field(r@[1].fields@[0], "分类ID"@, FieldType::Text),
        plain_field(r@[1].fields@[1], "分类名称"@, FieldType::Text),
        plain_field(r@[1].fields@[2], "图标"@, FieldType::Text),
        number_field(r@[1].fields@[3], "排序"@, "0"@),
        r@[1].links@.len() == 0,
        r@[2].name@ == "商品表 Products"@,
        r@[2].view_name@ == "全部商品"@,
        r@[2].fields@.len() == 23,
        plain_field(r@[2].fields@[0], "商品ID"@, FieldType::Text),
        plain_field(r@[2].fields@[1], "商品编码"@, FieldType::Text),
        plain_field(r@[2].fields@[2], "商品名称"@, FieldType::Text),
        plain_field(r@[2].fields@[3], "规格"@, FieldType::Text),
        select_field(r@[2].fields@[4], "单位"@, seq!["瓶"@, "箱"@, "坛"@, "盒"@]),
        number_field(r@[2].fields@[5], "零售价"@, "0.00"@),
        number_field(r@[2].fields@[6], "成本价"@, "0.00"@),
        number_field(r@[2].fields@[7], "会员价"@, "0.00"@),
        number_field(r@[2].fields@[8], "促销价"@, "0.00"@),
        number_field(r@[2].fields@[9], "库存"@, "0"@),
        number_field(r@[2].fields@[10], "酒精度%"@, "0.0"@),
        number_field(r@[2].fields@[11], "年份"@, "0"@),
        plain_field(r@[2].fields@[12], "酿造工艺"@, FieldType::Text),
        plain_field(r@[2].fields@[13], "风味描述"@, FieldType::Text),
        plain_field(r@[2].fields@[14], "商品主图"@, FieldType::Attachment),
        plain_field(r@[2].fields@[15], "简短描述"@, FieldType::Text),
        plain_field(r@[2].fields@[16], "详细描述"@, FieldType::Text),
        select_field(r@[2].fields@[17], "状态"@, seq!["active"@, "inactive"@, "outOfStock"@, "discontinued"@]),
        plain_field(r@[2].fields@[18], "热销"@, FieldType::Checkbox),
        plain_field(r@[2].fields@[19], "新品"@, FieldType::Checkbox),
        plain_field(r@[2].fields@[20], "促销中"@, FieldType::Checkbox),
        plain_field(r@[2].fields@[21], "展示分类"@, FieldType::Text),
        number_field(r@[2].fields@[22], "排序"@, "0"@),
        r@[2].links@.len() == 2,
        link_to(r@[2].links@[0], "品牌"@, 0),
        link_to(r@[2].links@[1], "分类"@, 1),
        r@[3].name@ == "轮播媒体表 Media"@,
        r@[3].view_name@ == "全部媒体"@,
        r@[3].fields@.len() == 6,
        plain_field(r@[3].fields@[0], "标题"@, FieldType::Text),
        select_field(r@[3].fields@[1], "媒体类型"@, seq!["image"@, "video"@]),
        plain_field(r@[3].fields@[2], "文件"@, FieldType::Attachment),
        plain_field(r@[3].fields@[3], "外部链接"@, FieldType::Url),
        number_field(r@[3].fields@[4], "时长(ms)"@, "0"@),
        number_field(r@[3].fields@[5], "排序"@, "0"@),
        r@[3].links@.len() == 1,
        link_to(r@[3].links@[0], "所属品牌"@, 0),
        r@[4].name@ == "店铺信息表 Store Info"@,
        r@[4].view_name@ == "店铺信息"@,
        r@[4].fields@.len() == 3,
        plain_field(r@[4].fields@[0], "店铺名称"@, FieldType::Text),
        plain_field(r@[4].fields@[1], "联系电话"@, FieldType::Phone),
        plain_field(r@[4].fields@[2], "二维码"@, FieldType::Attachment),
        r@[4].links@.len() == 0,
        r@[5].name@ == "标语表 Slogans"@,
        r@[5].view_name@ == "全部标语"@,
        r@[5].fields@.len() == 3,
        plain_field(r@[5].fields@[0], "标语内容"@, FieldType::Text),
        number_field(r@[5].fields@[1], "排序"@, "0"@),
        plain_field(r@[5].fields@[2], "启用"@, FieldType::Checkbox),
        r@[5].links@.len() == 0,
        r@[6].name@ == "使用说明 Guide"@,
        r@[6].view_name@ == "使用说明"@,
        r@[6].fields@.len() == 4,
        plain_field(r@[6].fields@[0], "表名"@, FieldType::Text),
        plain_field(r@[6].fields@[1], "用途"@, FieldType::Text),
        plain_field(r@[6].fields@[2], "必填字段"@, FieldType::Text),
        plain_field(r@[6].fields@[3], "填写说明"@, FieldType::Text),
        r@[6].links@.len() == 0,
        forall|t: int, l: int| 0 <= t < r@.len() && 0 <= l < r@[t].links@.len()
            ==> (#[trigger] r@[t].links@[l]).table_index < r@.len(),
{
    let mut r: Vec<TableSchema> = Vec::new();
    r.push(table_0());
    r.push(table_1());
    r.push(table_2());
    r.push(table_3());
    r.push(table_4());
    r.push(table_5());
    r.push(table_6());
    r
}

/// One row of the guide table.
#[derive(Clone, Debug)]
pub struct GuideRow {
    /// `表名`
    pub table: String,
    /// `用途`
    pub purpose: String,
    /// `必填字段`
    pub required: String,
    /// `填写说明`
    pub notes: String,
}

pub open spec fn row_is(r: GuideRow, table: Seq<char>, purpose: Seq<char>, required: Seq<char>, notes: Seq<char>) -> bool {
    &&& r.table@ == table
    &&& r.purpose@ == purpose
    &&& r.required@ == required
    &&& r.notes@ == notes
}

fn guide_row(table: &str, purpose: &str, required: &str, notes: &str) -> (r: GuideRow)
    ensures
        row_is(r, table@, purpose@, required@, notes@),
{
    GuideRow { table: owned(table), purpose: owned(purpose), required: owned(required), notes: owned(notes) }
}

/// The rows of the guide table: one per table, then general notes.
pub fn guide_records() -> (r: Vec<GuideRow>)
    ensures
        r@.len() == 7,
        row_is(r@[0], "品牌表 Brands"@, "管理黄酒品牌信息。每个品牌一行。"@, "品牌ID、品牌名称"@, "品牌ID格式如 brand_gyl、brand_nz。品牌Logo可直接上传图片附件。品牌故事支持多行文本。"@),
        row_is(r@[1], "展示分类表 Display Categories"@, "定义网站首页的商品展示分类（如热销、花雕、礼盒等）。"@, "分类ID、分类名称"@, "分类ID如 hot、huadiao、jiafan、gift。图标填emoji（如🔥、🏺）。排序数字越小越靠前。"@),
        row_is(r@[2], "商品表 Products"@, "所有商品的详细信息。每件商品一行，是最核心的数据表。"@, "商品ID、商品名称、零售价"@, "商品ID格式如 P001。品牌和分类通过关联字段选择（不用手填ID）。单位从下拉选项中选。状态: active=上架, inactive=下架, outOfStock=缺货。热销/新品/促销中打勾即可。展示分类填分类ID用逗号分隔（如 hot,huadiao）。商品主图可直接上传图片。"@),
        row_is(r@[3], "轮播媒体表 Media"@, "管理首页轮播区的图片和视频素材。"@, "媒体类型 + 文件或外部链接（二选一）"@, "媒体类型选 image 或 video。图片/视频可直接上传到「文件」字段，或填写「外部链接」URL。所属品牌通过关联选择。排序数字越小越靠前。视频可填时长(毫秒)。"@),
        row_is(r@[4], "店铺信息表 Store Info"@, "店铺基本信息，只需填一行。"@, "店铺名称、联系电话"@, "只需要一行数据。二维码可直接上传图片附件（微信收款码等）。"@),
        row_is(r@[5], "标语表 Slogans"@, "管理页面滚动标语/公告。每条标语一行。"@, "标语内容"@, "标语内容填写要展示的文字，可以包含emoji。排序数字越小越靠前。取消「启用」复选框可暂时隐藏某条标语。"@),
        row_is(r@[6], "⚠️ 注意事项"@, "数据会自动同步到网站，请谨慎修改。"@, "—"@, "1. 修改后同步工具会自动拉取数据并更新网站\n2. 删除商品前请先将状态改为 inactive\n3. 图片建议尺寸: 商品图 800×800，品牌Logo 400×400，轮播图 1920×1080\n4. 本表（使用说明）不会同步，仅供参考"@),
{
    let mut r: Vec<GuideRow> = Vec::new();
    r.push(guide_row("品牌表 Brands", "管理黄酒品牌信息。每个品牌一行。", "品牌ID、品牌名称", "品牌ID格式如 brand_gyl、brand_nz。品牌Logo可直接上传图片附件。品牌故事支持多行文本。"));
    r.push(guide_row("展示分类表 Display Categories", "定义网站首页的商品展示分类（如热销、花雕、礼盒等）。", "分类ID、分类名称", "分类ID如 hot、huadiao、jiafan、gift。图标填emoji（如🔥、🏺）。排序数字越小越靠前。"));
    r.push(guide_row("商品表 Products", "所有商品的详细信息。每件商品一行，是最核心的数据表。", "商品ID、商品名称、零售价", "商品ID格式如 P001。品牌和分类通过关联字段选择（不用手填ID）。单位从下拉选项中选。状态: active=上架, inactive=下架, outOfStock=缺货。热销/新品/促销中打勾即可。展示分类填分类ID用逗号分隔（如 hot,huadiao）。商品主图可直接上传图片。"));
    r.push(guide_row("轮播媒体表 Media", "管理首页轮播区的图片和视频素材。", "媒体类型 + 文件或外部链接（二选一）", "媒体类型选 image 或 video。图片/视频可直接上传到「文件」字段，或填写「外部链接」URL。所属品牌通过关联选择。排序数字越小越靠前。视频可填时长(毫秒)。"));
    r.push(guide_row("店铺信息表 Store Info", "店铺基本信息，只需填一行。", "店铺名称、联系电话", "只需要一行数据。二维码可直接上传图片附件（微信收款码等）。"));
    r.push(guide_row("标语表 Slogans", "管理页面滚动标语/公告。每条标语一行。", "标语内容", "标语内容填写要展示的文字，可以包含emoji。排序数字越小越靠前。取消「启用」复选框可暂时隐藏某条标语。"));
    r.push(guide_row("⚠️ 注意事项", "数据会自动同步到网站，请谨慎修改。", "—", "1. 修改后同步工具会自动拉取数据并更新网站\n2. 删除商品前请先将状态改为 inactive\n3. 图片建议尺寸: 商品图 800×800，品牌Logo 400×400，轮播图 1920×1080\n4. 本表（使用说明）不会同步，仅供参考"));
    r
}

} // verus!
