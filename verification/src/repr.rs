//! Records of the catalog as the Python bindings describe them, and their text forms.

use vstd::prelude::*;

use crate::credentials::CredentialPayload;
use crate::records::Share;
use crate::text::push_char;

verus! {

/// The decimal digit for `d` in `0..10`.
pub open spec fn digit_char(d: int) -> char {
    ('0' as int + d) as char
}

/// The decimal form of a natural number, without leading zeros.
pub open spec fn decimal_nat(n: nat) -> Seq<char>
    decreases n,
{
    if n < 10 {
        seq![digit_char(n as int)]
    } else {
        decimal_nat(n / 10).push(digit_char((n % 10) as int))
    }
}

/// The decimal form of an integer, with a leading `-` where it is negative.
pub open spec fn decimal(n: int) -> Seq<char> {
    if n < 0 {
        seq!['-'] + decimal_nat((-n) as nat)
    } else {
        decimal_nat(n as nat)
    }
}

/// Appends the decimal digits of `n` to `s`.
fn push_decimal(s: &mut String, n: u64)
    ensures
        final(s)@ == old(s)@ + decimal_nat(n as nat),
    decreases n,
{
    if n >= 10 {
        push_decimal(s, n / 10);
    }
    let d: u8 = (n % 10) as u8;
    let c = (48u8 + d) as char;
    assert(c == digit_char((n % 10) as int));
    push_char(s, c);
    assert(s@ =~= old(s)@ + decimal_nat(n as nat));
}

/// The decimal form of a number, as `i64::to_string` writes it.
pub(crate) fn i64_text(n: i64) -> (r: String)
    ensures
        r@ == decimal(n as int),
{
    let mut s = String::new();
    if n < 0 {
        push_char(&mut s, '-');
        let m: u64 = (0i128 - n as i128) as u64;
        push_decimal(&mut s, m);
    } else {
        push_decimal(&mut s, n as u64);
    }
    assert(s@ =~= decimal(n as int));
    s
}

/// The decimal form of a number, as `i32::to_string` writes it.
pub(crate) fn i32_text(n: i32) -> (r: String)
    ensures
        r@ == decimal(n as int),
{
    i64_text(n as i64)
}

/// The text `None`.
pub open spec fn none_text() -> Seq<char> {
    seq!['N', 'o', 'n', 'e']
}

/// The text `true` or `false`.
pub open spec fn bool_text(b: bool) -> Seq<char> {
    if b {
        seq!['t', 'r', 'u', 'e']
    } else {
        seq!['f', 'a', 'l', 's', 'e']
    }
}

/// An optional text, or `None`.
pub open spec fn opt_text(o: Option<String>) -> Seq<char> {
    match o {
        Some(s) => s@,
        None => none_text(),
    }
}

/// An optional number in decimal, or `None`.
pub open spec fn opt_i64_text(o: Option<i64>) -> Seq<char> {
    match o {
        Some(n) => decimal(n as int),
        None => none_text(),
    }
}

/// An optional number in decimal, or `None`.
pub open spec fn opt_i32_text(o: Option<i32>) -> Seq<char> {
    match o {
        Some(n) => decimal(n as int),
        None => none_text(),
    }
}

/// An optional flag, or `None`.
pub open spec fn opt_bool_text(o: Option<bool>) -> Seq<char> {
    match o {
        Some(b) => bool_text(b),
        None => none_text(),
    }
}

/// A list of texts in brackets, separated by `, `.
pub open spec fn list_text(items: Seq<Seq<char>>) -> Seq<char> {
    seq!['['] + join_comma(items) + seq![']']
}

/// Texts separated by `, `.
pub open spec fn join_comma(items: Seq<Seq<char>>) -> Seq<char>
    decreases items.len(),
{
    if items.len() == 0 {
        Seq::empty()
    } else if items.len() == 1 {
        items[0]
    } else {
        join_comma(items.drop_last()) + seq![',', ' '] + items.last()
    }
}

pub(crate) fn none_string() -> (r: String)
    ensures
        r@ == none_text(),
{
    let s = String::from_str("None");
    proof {
        reveal_strlit("None");
    }
    assert(s@ =~= none_text());
    s
}

pub(crate) fn opt_string(o: &Option<String>) -> (r: String)
    ensures
        r@ == opt_text(*o),
{
    match o {
        Some(s) => s.clone(),
        None => none_string(),
    }
}

pub(crate) fn opt_i64_string(o: &Option<i64>) -> (r: String)
    ensures
        r@ == opt_i64_text(*o),
{
    match o {
        Some(n) => i64_text(*n),
        None => none_string(),
    }
}

pub(crate) fn opt_i32_string(o: &Option<i32>) -> (r: String)
    ensures
        r@ == opt_i32_text(*o),
{
    match o {
        Some(n) => i32_text(*n),
        None => none_string(),
    }
}

pub(crate) fn bool_string(b: bool) -> (r: String)
    ensures
        r@ == bool_text(b),
{
    let s = if b {
        String::from_str("true")
    } else {
        String::from_str("false")
    };
    proof {
        reveal_strlit("true");
        reveal_strlit("false");
    }
    assert(s@ =~= bool_text(b));
    s
}

pub(crate) fn opt_bool_string(o: &Option<bool>) -> (r: String)
    ensures
        r@ == opt_bool_text(*o),
{
    match o {
        Some(b) => bool_string(*b),
        None => none_string(),
    }
}

pub(crate) fn list_string(items: &Vec<String>) -> (r: String)
    ensures
        r@ == list_text(items.deep_view()),
{
    let mut s = String::new();
    push_char(&mut s, '[');
    let n = items.len();
    let mut body = String::new();
    for i in 0..n
        invariant
            n == items@.len(),
            body@ == join_comma(items.deep_view().take(i as int)),
    {
        if i > 0 {
            push_char(&mut body, ',');
            push_char(&mut body, ' ');
        }
        body.append(items[i].as_str());
        proof {
            let t = items.deep_view().take(i + 1);
            assert(t.drop_last() =~= items.deep_view().take(i as int));
            if i == 0 {
                assert(items.deep_view().take(0) =~= Seq::<Seq<char>>::empty());
            }
        }
    }
    assert(items.deep_view().take(n as int) =~= items.deep_view());
    s.append(body.as_str());
    push_char(&mut s, ']');
    s
}

/// A catalog as the bindings describe it.
#[derive(Debug, Clone, PartialEq, Eq)]
pub struct CatalogInfo {
    pub id: Option<String>,
    pub name: String,
    pub owner: Option<String>,
    pub comment: Option<String>,
    pub storage_root: Option<String>,
    pub provider_name: Option<String>,
    pub share_name: Option<String>,
    pub catalog_type: Option<i32>,
    pub created_at: Option<i64>,
    pub created_by: Option<String>,
    pub updated_at: Option<i64>,
    pub updated_by: Option<String>,
}

/// The text form of a catalog info, as the Python bindings print it.
pub open spec fn catalog_info_repr(x: CatalogInfo) -> Seq<char> {
    "CatalogInfo(id="@ + opt_text(x.id) + ", name="@ + x.name@ + ", owner="@ + opt_text(x.owner) + ", comment="@ + opt_text(x.comment) + ", storage_root="@ + opt_text(x.storage_root) + ", provider_name="@ + opt_text(x.provider_name) + ", share_name="@ + opt_text(x.share_name) + ", catalog_type="@ + opt_i32_text(x.catalog_type) + ", created_at="@ + opt_i64_text(x.created_at) + ", created_by="@ + opt_text(x.created_by) + ", updated_at="@ + opt_i64_text(x.updated_at) + ", updated_by="@ + opt_text(x.updated_by) + ")"@
}

impl CatalogInfo {
    /// The text form of this catalog info.
    pub fn repr(&self) -> (r: String)
        ensures
            r@ == catalog_info_repr(*self),
    {
        let mut s = String::new();
        s.append("CatalogInfo(id=");
        let t = opt_string(&self.id);
        s.append(t.as_str());
        s.append(", name=");
        let t = self.name.clone();
        s.append(t.as_str());
        s.append(", owner=");
        let t = opt_string(&self.owner);
        s.append(t.as_str());
        s.append(", comment=");
        let t = opt_string(&self.comment);
        s.append(t.as_str());
        s.append(", storage_root=");
        let t = opt_string(&self.storage_root);
        s.append(t.as_str());
        s.append(", provider_name=");
        let t = opt_string(&self.provider_name);
        s.append(t.as_str());
        s.append(", share_name=");
        let t = opt_string(&self.share_name);
        s.append(t.as_str());
        s.append(", catalog_type=");
        let t = opt_i32_string(&self.catalog_type);
        s.append(t.as_str());
        s.append(", created_at=");
        let t = opt_i64_string(&self.created_at);
        s.append(t.as_str());
        s.append(", created_by=");
        let t = opt_string(&self.created_by);
        s.append(t.as_str());
        s.append(", updated_at=");
        let t = opt_i64_string(&self.updated_at);
        s.append(t.as_str());
        s.append(", updated_by=");
        let t = opt_string(&self.updated_by);
        s.append(t.as_str());
        s.append(")");
        assert(s@ =~= catalog_info_repr(*self));
        s
    }
}

/// A schema as the bindings describe it.
#[derive(Debug, Clone, PartialEq, Eq)]
pub struct SchemaInfo {
    pub name: String,
    pub catalog_name: String,
    pub comment: Option<String>,
    pub full_name: String,
    pub owner: Option<String>,
    pub created_at: Option<i64>,
    pub created_by: Option<String>,
    pub updated_at: Option<i64>,
    pub updated_by: Option<String>,
    pub schema_id: Option<String>,
}

/// The text form of a schema info, as the Python bindings print it.
pub open spec fn schema_info_repr(x: SchemaInfo) -> Seq<char> {
    "SchemaInfo(name="@ + x.name@ + ", catalog_name="@ + x.catalog_name@ + ", comment="@ + opt_text(x.comment) + ", full_name="@ + x.full_name@ + ", owner="@ + opt_text(x.owner) + ", created_at="@ + opt_i64_text(x.created_at) + ", created_by="@ + opt_text(x.created_by) + ", updated_at="@ + opt_i64_text(x.updated_at) + ", updated_by="@ + opt_text(x.updated_by) + ", schema_id="@ + opt_text(x.schema_id) + ")"@
}

impl SchemaInfo {
    /// The text form of this schema info.
    pub fn repr(&self) -> (r: String)
        ensures
            r@ == schema_info_repr(*self),
    {
        let mut s = String::new();
        s.append("SchemaInfo(name=");
        let t = self.name.clone();
        s.append(t.as_str());
        s.append(", catalog_name=");
        let t = self.catalog_name.clone();
        s.append(t.as_str());
        s.append(", comment=");
        let t = opt_string(&self.comment);
        s.append(t.as_str());
        s.append(", full_name=");
        let t = self.full_name.clone();
        s.append(t.as_str());
        s.append(", owner=");
        let t = opt_string(&self.owner);
        s.append(t.as_str());
        s.append(", created_at=");
        let t = opt_i64_string(&self.created_at);
        s.append(t.as_str());
        s.append(", created_by=");
        let t = opt_string(&self.created_by);
        s.append(t.as_str());
        s.append(", updated_at=");
        let t = opt_i64_string(&self.updated_at);
        s.append(t.as_str());
        s.append(", updated_by=");
        let t = opt_string(&self.updated_by);
        s.append(t.as_str());
        s.append(", schema_id=");
        let t = opt_string(&self.schema_id);
        s.append(t.as_str());
        s.append(")");
        assert(s@ =~= schema_info_repr(*self));
        s
    }
}

/// A table as the bindings describe it; its type and data source format are enum codes.
#[derive(Debug, Clone, PartialEq, Eq)]
pub struct TableInfo {
    pub name: String,
    pub catalog_name: String,
    pub schema_name: String,
    pub table_type: i32,
    pub data_source_format: i32,
    pub comment: Option<String>,
    pub owner: Option<String>,
    pub storage_location: Option<String>,
    pub created_at: Option<i64>,
    pub created_by: Option<String>,
    pub updated_at: Option<i64>,
    pub updated_by: Option<String>,
    pub table_id: Option<String>,
}

/// The text form of a table info, as the Python bindings print it.
pub open spec fn table_info_repr(x: TableInfo) -> Seq<char> {
    "TableInfo(name="@ + x.name@ + ", catalog_name="@ + x.catalog_name@ + ", schema_name="@ + x.schema_name@ + ", table_type="@ + decimal(x.table_type as int) + ", data_source_format="@ + decimal(x.data_source_format as int) + ", comment="@ + opt_text(x.comment) + ", owner="@ + opt_text(x.owner) + ", storage_location="@ + opt_text(x.storage_location) + ", created_at="@ + opt_i64_text(x.created_at) + ", created_by="@ + opt_text(x.created_by) + ", updated_at="@ + opt_i64_text(x.updated_at) + ", updated_by="@ + opt_text(x.updated_by) + ", table_id="@ + opt_text(x.table_id) + ")"@
}

impl TableInfo {
    /// The text form of this table info.
    pub fn repr(&self) -> (r: String)
        ensures
            r@ == table_info_repr(*self),
    {
        let mut s = String::new();
        s.append("TableInfo(name=");
        let t = self.name.clone();
        s.append(t.as_str());
        s.append(", catalog_name=");
        let t = self.catalog_name.clone();
        s.append(t.as_str());
        s.append(", schema_name=");
        let t = self.schema_name.clone();
        s.append(t.as_str());
        s.append(", table_type=");
        let t = i32_text(self.table_type);
        s.append(t.as_str());
        s.append(", data_source_format=");
        let t = i32_text(self.data_source_format);
        s.append(t.as_str());
        s.append(", comment=");
        let t = opt_string(&self.comment);
        s.append(t.as_str());
        s.append(", owner=");
        let t = opt_string(&self.owner);
        s.append(t.as_str());
        s.append(", storage_location=");
        let t = opt_string(&self.storage_location);
        s.append(t.as_str());
        s.append(", created_at=");
        let t = opt_i64_string(&self.created_at);
        s.append(t.as_str());
        s.append(", created_by=");
        let t = opt_string(&self.created_by);
        s.append(t.as_str());
        s.append(", updated_at=");
        let t = opt_i64_string(&self.updated_at);
        s.append(t.as_str());
        s.append(", updated_by=");
        let t = opt_string(&self.updated_by);
        s.append(t.as_str());
        s.append(", table_id=");
        let t = opt_string(&self.table_id);
        s.append(t.as_str());
        s.append(")");
        assert(s@ =~= table_info_repr(*self));
        s
    }
}

/// A column as the bindings describe it; its type name is an enum code.
#[derive(Debug, Clone, PartialEq, Eq)]
pub struct ColumnInfo {
    pub name: String,
    pub type_text: String,
    pub type_json: String,
    pub column_type: i32,
    pub type_precision: Option<i32>,
    pub type_scale: Option<i32>,
    pub type_interval_type: Option<String>,
    pub position: Option<i32>,
    pub comment: Option<String>,
    pub nullable: Option<bool>,
    pub partition_index: Option<i32>,
}

/// The text form of a column info, as the Python bindings print it.
pub open spec fn column_info_repr(x: ColumnInfo) -> Seq<char> {
    "ColumnInfo(name="@ + x.name@ + ", type_text="@ + x.type_text@ + ", type_json="@ + x.type_json@ + ", type_name="@ + decimal(x.column_type as int) + ", type_precision="@ + opt_i32_text(x.type_precision) + ", type_scale="@ + opt_i32_text(x.type_scale) + ", type_interval_type="@ + opt_text(x.type_interval_type) + ", position="@ + opt_i32_text(x.position) + ", comment="@ + opt_text(x.comment) + ", nullable="@ + opt_bool_text(x.nullable) + ", partition_index="@ + opt_i32_text(x.partition_index) + ")"@
}

impl ColumnInfo {
    /// The text form of this column info.
    pub fn repr(&self) -> (r: String)
        ensures
            r@ == column_info_repr(*self),
    {
        let mut s = String::new();
        s.append("ColumnInfo(name=");
        let t = self.name.clone();
        s.append(t.as_str());
        s.append(", type_text=");
        let t = self.type_text.clone();
        s.append(t.as_str());
        s.append(", type_json=");
        let t = self.type_json.clone();
        s.append(t.as_str());
        s.append(", type_name=");
        let t = i32_text(self.column_type);
        s.append(t.as_str());
        s.append(", type_precision=");
        let t = opt_i32_string(&self.type_precision);
        s.append(t.as_str());
        s.append(", type_scale=");
        let t = opt_i32_string(&self.type_scale);
        s.append(t.as_str());
        s.append(", type_interval_type=");
        let t = opt_string(&self.type_interval_type);
        s.append(t.as_str());
        s.append(", position=");
        let t = opt_i32_string(&self.position);
        s.append(t.as_str());
        s.append(", comment=");
        let t = opt_string(&self.comment);
        s.append(t.as_str());
        s.append(", nullable=");
        let t = opt_bool_string(&self.nullable);
        s.append(t.as_str());
        s.append(", partition_index=");
        let t = opt_i32_string(&self.partition_index);
        s.append(t.as_str());
        s.append(")");
        assert(s@ =~= column_info_repr(*self));
        s
    }
}

/// A token issued to a recipient.
#[derive(Debug, Clone, PartialEq, Eq)]
pub struct RecipientToken {
    pub id: String,
    pub created_at: i64,
    pub created_by: String,
    pub activation_url: String,
    pub expiration_time: i64,
    pub updated_at: i64,
    pub updated_by: String,
}

/// The text form of a recipient token, as the Python bindings print it.
pub open spec fn recipient_token_repr(x: RecipientToken) -> Seq<char> {
    "RecipientToken(id="@ + x.id@ + ", created_at="@ + decimal(x.created_at as int) + ", created_by="@ + x.created_by@ + ", activation_url="@ + x.activation_url@ + ", expiration_time="@ + decimal(x.expiration_time as int) + ", updated_at="@ + decimal(x.updated_at as int) + ", updated_by="@ + x.updated_by@ + ")"@
}

impl RecipientToken {
    /// The text form of this recipient token.
    pub fn repr(&self) -> (r: String)
        ensures
            r@ == recipient_token_repr(*self),
    {
        let mut s = String::new();
        s.append("RecipientToken(id=");
        let t = self.id.clone();
        s.append(t.as_str());
        s.append(", created_at=");
        let t = i64_text(self.created_at);
        s.append(t.as_str());
        s.append(", created_by=");
        let t = self.created_by.clone();
        s.append(t.as_str());
        s.append(", activation_url=");
        let t = self.activation_url.clone();
        s.append(t.as_str());
        s.append(", expiration_time=");
        let t = i64_text(self.expiration_time);
        s.append(t.as_str());
        s.append(", updated_at=");
        let t = i64_text(self.updated_at);
        s.append(t.as_str());
        s.append(", updated_by=");
        let t = self.updated_by.clone();
        s.append(t.as_str());
        s.append(")");
        assert(s@ =~= recipient_token_repr(*self));
        s
    }
}

/// A recipient as the bindings describe it; its authentication type is an enum code.
#[derive(Debug, Clone, PartialEq, Eq)]
pub struct RecipientInfo {
    pub id: Option<String>,
    pub name: String,
    pub authentication_type: i32,
    pub owner: String,
    pub comment: Option<String>,
    pub created_at: Option<i64>,
    pub created_by: Option<String>,
    pub updated_at: Option<i64>,
    pub updated_by: Option<String>,
    pub tokens: Vec<RecipientToken>,
}

/// The text form of a recipient info, as the Python bindings print it.
pub open spec fn recipient_info_repr(x: RecipientInfo) -> Seq<char> {
    "RecipientInfo(id="@ + opt_text(x.id) + ", name="@ + x.name@ + ", authentication_type="@ + decimal(x.authentication_type as int) + ", owner="@ + x.owner@ + ", comment="@ + opt_text(x.comment) + ", created_at="@ + opt_i64_text(x.created_at) + ", created_by="@ + opt_text(x.created_by) + ", updated_at="@ + opt_i64_text(x.updated_at) + ", updated_by="@ + opt_text(x.updated_by) + ", tokens="@ + list_text(x.tokens@.map_values(|t: RecipientToken| recipient_token_repr(t))) + ")"@
}

impl RecipientInfo {
    /// The text form of this recipient info.
    pub fn repr(&self) -> (r: String)
        ensures
            r@ == recipient_info_repr(*self),
    {
        let mut s = String::new();
        s.append("RecipientInfo(id=");
        let t = opt_string(&self.id);
        s.append(t.as_str());
        s.append(", name=");
        let t = self.name.clone();
        s.append(t.as_str());
        s.append(", authentication_type=");
        let t = i32_text(self.authentication_type);
        s.append(t.as_str());
        s.append(", owner=");
        let t = self.owner.clone();
        s.append(t.as_str());
        s.append(", comment=");
        let t = opt_string(&self.comment);
        s.append(t.as_str());
        s.append(", created_at=");
        let t = opt_i64_string(&self.created_at);
        s.append(t.as_str());
        s.append(", created_by=");
        let t = opt_string(&self.created_by);
        s.append(t.as_str());
        s.append(", updated_at=");
        let t = opt_i64_string(&self.updated_at);
        s.append(t.as_str());
        s.append(", updated_by=");
        let t = opt_string(&self.updated_by);
        s.append(t.as_str());
        s.append(", tokens=");
        let t = self.tokens_repr();
        s.append(t.as_str());
        s.append(")");
        assert(s@ =~= recipient_info_repr(*self));
        s
    }
}

impl RecipientInfo {
    /// The text forms of this recipient's tokens, in order, as a bracketed list.
    fn tokens_repr(&self) -> (r: String)
        ensures
            r@ == list_text(self.tokens@.map_values(|t: RecipientToken| recipient_token_repr(t))),
    {
        let mut v: Vec<String> = Vec::new();
        let n = self.tokens.len();
        for i in 0..n
            invariant
                n == self.tokens@.len(),
                v.deep_view() =~= self.tokens@.take(i as int).map_values(
                    |t: RecipientToken| recipient_token_repr(t),
                ),
        {
            let t = self.tokens[i].repr();
            let ghost prev = v.deep_view();
            let ghost tv = t@;
            v.push(t);
            proof {
                assert(v.deep_view() =~= prev.push(tv));
                assert(self.tokens@.take(i + 1) =~= self.tokens@.take(i as int).push(
                    self.tokens@[i as int],
                ));
            }
        }
        assert(self.tokens@.take(n as int) =~= self.tokens@);
        list_string(&v)
    }
}

/// A credential as the bindings describe it; its purpose is an enum code. The secret
/// itself is never printed.
#[derive(Debug, Clone, PartialEq, Eq)]
pub struct CredentialInfo {
    pub id: Option<String>,
    pub name: String,
    pub purpose: i32,
    /// The secret itself; it is never printed.
    pub credential: Option<CredentialPayload>,
    pub read_only: bool,
    pub owner: Option<String>,
    pub comment: Option<String>,
    pub created_at: Option<i64>,
    pub created_by: Option<String>,
    pub updated_at: Option<i64>,
    pub updated_by: Option<String>,
}

/// The text form of a credential info, as the Python bindings print it.
pub open spec fn credential_info_repr(x: CredentialInfo) -> Seq<char> {
    "CredentialInfo(id="@ + opt_text(x.id) + ", name="@ + x.name@ + ", purpose="@ + decimal(x.purpose as int) + ", credential='***', read_only="@ + bool_text(x.read_only) + ", owner="@ + opt_text(x.owner) + ", comment="@ + opt_text(x.comment) + ", created_at="@ + opt_i64_text(x.created_at) + ", created_by="@ + opt_text(x.created_by) + ", updated_at="@ + opt_i64_text(x.updated_at) + ", updated_by="@ + opt_text(x.updated_by) + ")"@
}

impl CredentialInfo {
    /// The text form of this credential info.
    pub fn repr(&self) -> (r: String)
        ensures
            r@ == credential_info_repr(*self),
    {
        let mut s = String::new();
        s.append("CredentialInfo(id=");
        let t = opt_string(&self.id);
        s.append(t.as_str());
        s.append(", name=");
        let t = self.name.clone();
        s.append(t.as_str());
        s.append(", purpose=");
        let t = i32_text(self.purpose);
        s.append(t.as_str());
        s.append(", credential='***', read_only=");
        let t = bool_string(self.read_only);
        s.append(t.as_str());
        s.append(", owner=");
        let t = opt_string(&self.owner);
        s.append(t.as_str());
        s.append(", comment=");
        let t = opt_string(&self.comment);
        s.append(t.as_str());
        s.append(", created_at=");
        let t = opt_i64_string(&self.created_at);
        s.append(t.as_str());
        s.append(", created_by=");
        let t = opt_string(&self.created_by);
        s.append(t.as_str());
        s.append(", updated_at=");
        let t = opt_i64_string(&self.updated_at);
        s.append(t.as_str());
        s.append(", updated_by=");
        let t = opt_string(&self.updated_by);
        s.append(t.as_str());
        s.append(")");
        assert(s@ =~= credential_info_repr(*self));
        s
    }
}

/// An external location as the bindings describe it.
#[derive(Debug, Clone, PartialEq, Eq)]
pub struct ExternalLocationInfo {
    pub name: String,
    pub url: String,
    pub credential_name: String,
    pub read_only: bool,
    pub comment: Option<String>,
    pub owner: Option<String>,
    pub credential_id: String,
    pub created_at: Option<i64>,
    pub created_by: Option<String>,
    pub updated_at: Option<i64>,
    pub updated_by: Option<String>,
    pub browse_only: Option<bool>,
    pub external_location_id: Option<String>,
}

/// The text form of an external location info, as the Python bindings print it.
pub open spec fn external_location_info_repr(x: ExternalLocationInfo) -> Seq<char> {
    "ExternalLocationInfo(name="@ + x.name@ + ", url="@ + x.url@ + ", credential_name="@ + x.credential_name@ + ", read_only="@ + bool_text(x.read_only) + ", comment="@ + opt_text(x.comment) + ", owner="@ + opt_text(x.owner) + ", credential_id="@ + x.credential_id@ + ", created_at="@ + opt_i64_text(x.created_at) + ", created_by="@ + opt_text(x.created_by) + ", updated_at="@ + opt_i64_text(x.updated_at) + ", updated_by="@ + opt_text(x.updated_by) + ", browse_only="@ + opt_bool_text(x.browse_only) + ", external_location_id="@ + opt_text(x.external_location_id) + ")"@
}

impl ExternalLocationInfo {
    /// The text form of this external location info.
    pub fn repr(&self) -> (r: String)
        ensures
            r@ == external_location_info_repr(*self),
    {
        let mut s = String::new();
        s.append("ExternalLocationInfo(name=");
        let t = self.name.clone();
        s.append(t.as_str());
        s.append(", url=");
        let t = self.url.clone();
        s.append(t.as_str());
        s.append(", credential_name=");
        let t = self.credential_name.clone();
        s.append(t.as_str());
        s.append(", read_only=");
        let t = bool_string(self.read_only);
        s.append(t.as_str());
        s.append(", comment=");
        let t = opt_string(&self.comment);
        s.append(t.as_str());
        s.append(", owner=");
        let t = opt_string(&self.owner);
        s.append(t.as_str());
        s.append(", credential_id=");
        let t = self.credential_id.clone();
        s.append(t.as_str());
        s.append(", created_at=");
        let t = opt_i64_string(&self.created_at);
        s.append(t.as_str());
        s.append(", created_by=");
        let t = opt_string(&self.created_by);
        s.append(t.as_str());
        s.append(", updated_at=");
        let t = opt_i64_string(&self.updated_at);
        s.append(t.as_str());
        s.append(", updated_by=");
        let t = opt_string(&self.updated_by);
        s.append(t.as_str());
        s.append(", browse_only=");
        let t = opt_bool_string(&self.browse_only);
        s.append(t.as_str());
        s.append(", external_location_id=");
        let t = opt_string(&self.external_location_id);
        s.append(t.as_str());
        s.append(")");
        assert(s@ =~= external_location_info_repr(*self));
        s
    }
}

/// The text form of a share, as the Python bindings print it.
pub open spec fn share_repr(x: Share) -> Seq<char> {
    "Share(id="@ + opt_text(x.id) + ", name="@ + x.name@ + ", comment="@ + opt_text(x.comment) + ", owner="@ + opt_text(x.owner) + ", created_at="@ + opt_i64_text(x.created_at) + ", created_by="@ + opt_text(x.created_by) + ", updated_at="@ + opt_i64_text(x.updated_at) + ", updated_by="@ + opt_text(x.updated_by) + ")"@
}

impl Share {
    /// The text form of this share.
    pub fn repr(&self) -> (r: String)
        ensures
            r@ == share_repr(*self),
    {
        let mut s = String::new();
        s.append("Share(id=");
        let t = opt_string(&self.id);
        s.append(t.as_str());
        s.append(", name=");
        let t = self.name.clone();
        s.append(t.as_str());
        s.append(", comment=");
        let t = opt_string(&self.comment);
        s.append(t.as_str());
        s.append(", owner=");
        let t = opt_string(&self.owner);
        s.append(t.as_str());
        s.append(", created_at=");
        let t = opt_i64_string(&self.created_at);
        s.append(t.as_str());
        s.append(", created_by=");
        let t = opt_string(&self.created_by);
        s.append(t.as_str());
        s.append(", updated_at=");
        let t = opt_i64_string(&self.updated_at);
        s.append(t.as_str());
        s.append(", updated_by=");
        let t = opt_string(&self.updated_by);
        s.append(t.as_str());
        s.append(")");
        assert(s@ =~= share_repr(*self));
        s
    }
}

} // verus!
