//! The tabular source's API: field definitions, addresses, and reading a
//! table page after page.

use vstd::prelude::*;

use crate::batch::RecordItem;
use crate::text::owned;

verus! {

/// The field types of the tabular source.
#[derive(Clone, Copy, Debug, PartialEq, Eq, Structural)]
pub enum FieldType {
    Text,
    Number,
    SingleSelect,
    MultiSelect,
    DateTime,
    Checkbox,
    Person,
    Phone,
    Url,
    Attachment,
    SingleLink,
    DuplexLink,
}

impl FieldType {
    /// The number that the source uses for the type.
    pub open spec fn code_spec(self) -> i32 {
        match self {
            FieldType::Text => 1,
            FieldType::Number => 2,
            FieldType::SingleSelect => 3,
            FieldType::MultiSelect => 4,
            FieldType::DateTime => 5,
            FieldType::Checkbox => 7,
            FieldType::Person => 11,
            FieldType::Phone => 13,
            FieldType::Url => 15,
            FieldType::Attachment => 17,
            FieldType::SingleLink => 18,
            FieldType::DuplexLink => 21,
        }
    }

    pub fn code(self) -> (r: i32)
        ensures
            r == self.code_spec(),
    {
        match self {
            FieldType::Text => 1,
            FieldType::Number => 2,
            FieldType::SingleSelect => 3,
            FieldType::MultiSelect => 4,
            FieldType::DateTime => 5,
            FieldType::Checkbox => 7,
            FieldType::Person => 11,
            FieldType::Phone => 13,
            FieldType::Url => 15,
            FieldType::Attachment => 17,
            FieldType::SingleLink => 18,
            FieldType::DuplexLink => 21,
        }
    }
}

/// Extra settings of a field.
#[derive(Clone, Debug)]
pub enum FieldProperty {
    /// Number display format, such as `0` or `0.00`.
    Formatter(String),
    /// The choices of a single-choice field.
    Options(Vec<String>),
    /// The table that a link field points to.
    LinkedTable(String),
}

/// A field to create.
#[derive(Clone, Debug)]
pub struct FieldDef {
    pub field_name: String,
    pub field_type: i32,
    pub property: Option<FieldProperty>,
}

impl FieldDef {
    pub fn text(name: &str) -> (r: FieldDef)
        ensures
            r.field_name@ == name@,
            r.field_type == FieldType::Text.code_spec(),
            r.property is None,
    {
        FieldDef { field_name: owned(name), field_type: FieldType::Text.code(), property: None }
    }

    pub fn number(name: &str, formatter: &str) -> (r: FieldDef)
        ensures
            r.field_name@ == name@,
            r.field_type == FieldType::Number.code_spec(),
            r.property matches Some(FieldProperty::Formatter(f)) && f@ == formatter@,
    {
        FieldDef {
            field_name: owned(name),
            field_type: FieldType::Number.code(),
            property: Some(FieldProperty::Formatter(owned(formatter))),
        }
    }

    pub fn single_select(name: &str, options: &Vec<String>) -> (r: FieldDef)
        ensures
            r.field_name@ == name@,
            r.field_type == FieldType::SingleSelect.code_spec(),
            r.property matches Some(FieldProperty::Options(o)) && o@ == options@,
    {
        let mut opts: Vec<String> = Vec::new();
        let mut i: usize = 0;
        while i < options.len()
            invariant
                i <= options@.len(),
                opts@ == options@.take(i as int),
            decreases options@.len() - i,
        {
            opts.push(options[i].clone());
            i = i + 1;
            assert(opts@ =~= options@.take(i as int));
        }
        assert(opts@ =~= options@);
        FieldDef {
            field_name: owned(name),
            field_type: FieldType::SingleSelect.code(),
            property: Some(FieldProperty::Options(opts)),
        }
    }

    pub fn checkbox(name: &str) -> (r: FieldDef)
        ensures
            r.field_name@ == name@,
            r.field_type == FieldType::Checkbox.code_spec(),
            r.property is None,
    {
        FieldDef { field_name: owned(name), field_type: FieldType::Checkbox.code(), property: None }
    }

    pub fn phone(name: &str) -> (r: FieldDef)
        ensures
            r.field_name@ == name@,
            r.field_type == FieldType::Phone.code_spec(),
            r.property is None,
    {
        FieldDef { field_name: owned(name), field_type: FieldType::Phone.code(), property: None }
    }

    pub fn attachment(name: &str) -> (r: FieldDef)
        ensures
            r.field_name@ == name@,
            r.field_type == FieldType::Attachment.code_spec(),
            r.property is None,
    {
        FieldDef { field_name: owned(name), field_type: FieldType::Attachment.code(), property: None }
    }

    pub fn url(name: &str) -> (r: FieldDef)
        ensures
            r.field_name@ == name@,
            r.field_type == FieldType::Url.code_spec(),
            r.property is None,
    {
        FieldDef { field_name: owned(name), field_type: FieldType::Url.code(), property: None }
    }

    pub fn link(name: &str, linked_table_id: &str) -> (r: FieldDef)
        ensures
            r.field_name@ == name@,
            r.field_type == FieldType::SingleLink.code_spec(),
            r.property matches Some(FieldProperty::LinkedTable(t)) && t@ == linked_table_id@,
    {
        FieldDef {
            field_name: owned(name),
            field_type: FieldType::SingleLink.code(),
            property: Some(FieldProperty::LinkedTable(owned(linked_table_id))),
        }
    }
}

/// A table of the source.
#[derive(Clone, Debug)]
pub struct TableInfo {
    pub table_id: String,
    pub name: String,
    pub revision: Option<i64>,
}

/// A wiki node and the object it embeds.
#[derive(Clone, Debug)]
pub struct WikiNode {
    pub node_token: String,
    pub obj_token: String,
    pub obj_type: String,
    pub title: String,
}

pub open spec fn api_base() -> Seq<char> {
    "https://open.feishu.cn/open-apis"@
}

pub open spec fn tables_path(app_token: Seq<char>) -> Seq<char> {
    api_base() + "/bitable/v1/apps/"@ + app_token + "/tables"@
}

/// Address of the tables of an app.
pub fn tables_url(app_token: &str) -> (r: String)
    ensures
        r@ == tables_path(app_token@),
{
    let mut r = owned("https://open.feishu.cn/open-apis");
    r.append("/bitable/v1/apps/");
    r.append(app_token);
    r.append("/tables");
    r
}

/// Records asked for per page.
pub const PAGE_SIZE: u32 = 500;

/// Address of one page of a table's records, continuing from `page_token`
/// when there is one.
pub fn records_page_url(app_token: &str, table_id: &str, page_token: &Option<String>) -> (r: String)
    ensures
        r@ == tables_path(app_token@) + "/"@ + table_id@ + "/records?page_size=500"@ + match page_token {
            Some(t) => "&page_token="@ + t@,
            None => Seq::<char>::empty(),
        },
{
    let mut r = tables_url(app_token);
    r.append("/");
    r.append(table_id);
    r.append("/records?page_size=500");
    match page_token {
        Some(t) => {
            r.append("&page_token=");
            r.append(t.as_str());
        },
        None => {},
    }
    r
}

/// One page of records as the source sends it.
pub struct RecordPage {
    pub has_more: bool,
    pub page_token: Option<String>,
    pub items: Option<Vec<RecordItem>>,
}

/// Reading a table page after page.
pub struct RecordPager {
    /// The records read so far, in order.
    pub records: Vec<RecordItem>,
    /// Where the next page starts.
    pub page_token: Option<String>,
    pub finished: bool,
}

impl RecordPager {
    pub fn new() -> (r: RecordPager)
        ensures
            r.records@.len() == 0,
            r.page_token is None,
            !r.finished,
    {
        RecordPager { records: Vec::new(), page_token: None, finished: false }
    }

    /// Takes in the data of a successful answer: its records are added, and
    /// reading goes on from the page token it gives while it says there is
    /// more. An answer without data ends the reading.
    pub fn absorb(&mut self, data: Option<RecordPage>)
        ensures
            match data {
                None => final(self).finished && final(self).records@ == old(self).records@,
                Some(p) => {
                    &&& final(self).records@ == old(self).records@ + match p.items {
                        Some(v) => v@,
                        None => Seq::empty(),
                    }
                    &&& final(self).finished == !p.has_more
                    &&& (p.has_more ==> final(self).page_token == p.page_token)
                },
            },
    {
        match data {
            None => {
                self.finished = true;
            },
            Some(p) => {
                let RecordPage { has_more, page_token, items } = p;
                match items {
                    Some(v) => {
                        let mut v = v;
                        self.records.append(&mut v);
                    },
                    None => {
                        assert(self.records@ =~= self.records@ + Seq::<RecordItem>::empty());
                    },
                }
                if has_more {
                    self.page_token = page_token;
                    self.finished = false;
                } else {
                    self.finished = true;
                }
            },
        }
    }
}

} // verus!
