//! Hierarchical resource names and references to resources.

use vstd::prelude::*;

use crate::identifiers::{hyphenated, uuid_hyphenated};
use crate::text::{join_with, split_on};

verus! {

/// A (possibly nested) resource name: a path of field-name segments, outermost first.
#[derive(Debug, Clone, PartialEq, Eq, Hash, PartialOrd, Ord)]
pub struct ResourceName {
    pub path: Vec<String>,
}

impl View for ResourceName {
    type V = Seq<Seq<char>>;

    open spec fn view(&self) -> Seq<Seq<char>> {
        self.path.deep_view()
    }
}

/// A character that may stand in an unquoted segment: ASCII alphanumeric or `_`.
pub open spec fn is_simple_char(c: char) -> bool {
    ('a' <= c && c <= 'z') || ('A' <= c && c <= 'Z') || ('0' <= c && c <= '9') || c == '_'
}

/// Whether a segment is written in backticks: it is empty, starts with a digit, or
/// holds a character that is not simple.
pub open spec fn needs_quotes(seg: Seq<char>) -> bool {
    seg.len() == 0 || ('0' <= seg[0] && seg[0] <= '9') || exists|i: int|
        0 <= i < seg.len() && !is_simple_char(#[trigger] seg[i])
}

/// A segment with every backtick doubled.
pub open spec fn escape_backticks(seg: Seq<char>) -> Seq<char>
    decreases seg.len(),
{
    if seg.len() == 0 {
        Seq::empty()
    } else {
        let e = escape_backticks(seg.drop_last());
        if seg.last() == '`' {
            e.push('`').push('`')
        } else {
            e.push(seg.last())
        }
    }
}

/// How one segment is written in the dotted form.
pub open spec fn display_segment(seg: Seq<char>) -> Seq<char> {
    if needs_quotes(seg) {
        seq!['`'] + escape_backticks(seg) + seq!['`']
    } else {
        seg
    }
}

/// The dotted, backtick-escaped string form of a name.
pub open spec fn display_name(path: Seq<Seq<char>>) -> Seq<char> {
    join_with(path.map_values(|s: Seq<char>| display_segment(s)), '.')
}

/// Calls `olai_store::ResourceName::from_naive_str_split`, which splits a text at
/// every `.` (`str::split`), and hands back the segments.
#[verifier::external_body]
fn naive_split(name: &str) -> (r: Vec<String>)
    ensures
        r.deep_view() == split_on(name@, '.'),
{
    olai_store::ResourceName::from_naive_str_split(name).into_inner()
}

/// Calls the `Display` of `olai_store::ResourceName`: the segments joined by `.`, a
/// segment that is empty, starts with a digit or holds a character other than an ASCII
/// alphanumeric or `_` written in backticks with its backticks doubled.
#[verifier::external_body]
fn format_name(path: &Vec<String>) -> (r: String)
    ensures
        r@ == display_name(path.deep_view()),
{
    olai_store::ResourceName::from(path.clone()).to_string()
}

impl ResourceName {
    /// Creates a resource name from its segments.
    pub fn new(path: Vec<String>) -> (r: ResourceName)
        ensures
            r@ == path.deep_view(),
    {
        ResourceName { path }
    }

    /// Naively splits a text at its dots to make a resource name.
    pub fn from_naive_str_split(name: &str) -> (r: ResourceName)
        ensures
            r@ == split_on(name@, '.'),
    {
        ResourceName { path: naive_split(name) }
    }

    /// The segments of this name.
    pub fn path(&self) -> (r: &[String])
        ensures
            r@ == self.path@,
    {
        self.path.as_slice()
    }

    /// The dotted, backtick-escaped string form of this name.
    pub fn to_string(&self) -> (r: String)
        ensures
            r@ == display_name(self@),
    {
        format_name(&self.path)
    }
}

/// Whether a character may stand in a name given to `resource_name`.
pub open spec fn is_name_char(c: char) -> bool {
    is_simple_char(c) || c == '.'
}

/// Whether every character of a text may stand in a name given to `resource_name`.
pub open spec fn is_plain_dotted(s: Seq<char>) -> bool {
    forall|i: int| 0 <= i < s.len() ==> is_name_char(#[trigger] s[i])
}

/// Makes a nested name out of a text of simple segments separated by dots, such as
/// `"a.b.c"`. Only ASCII alphanumerics, `_` and `.` may stand in the text.
pub fn resource_name(name: &str) -> (r: ResourceName)
    requires
        is_plain_dotted(name@),
    ensures
        r@ == split_on(name@, '.'),
{
    ResourceName::from_naive_str_split(name)
}

/// What a reference designates, as a mathematical value.
pub ghost enum RefView {
    Uuid(u128),
    Name(Seq<Seq<char>>),
    Undefined,
}

/// A reference to a resource: by id, by name, or no particular resource.
#[derive(Debug, Clone, PartialEq, Eq, Hash)]
pub enum ResourceRef {
    /// References a resource by its unique identifier.
    Uuid(u128),
    /// References a resource by its hierarchical name.
    Name(ResourceName),
    /// Not referencing a specific resource (a wildcard).
    Undefined,
}

impl View for ResourceRef {
    type V = RefView;

    open spec fn view(&self) -> RefView {
        match self {
            ResourceRef::Uuid(u) => RefView::Uuid(*u),
            ResourceRef::Name(n) => RefView::Name(n@),
            ResourceRef::Undefined => RefView::Undefined,
        }
    }
}

/// The string form of a reference: the hyphenated UUID, the dotted name, or `*`.
pub open spec fn ref_display(r: RefView) -> Seq<char> {
    match r {
        RefView::Uuid(u) => hyphenated(u),
        RefView::Name(n) => display_name(n),
        RefView::Undefined => seq!['*'],
    }
}

impl ResourceRef {
    /// Whether this reference is the wildcard.
    pub fn is_undefined(&self) -> (r: bool)
        ensures
            r == (self@ is Undefined),
    {
        match self {
            ResourceRef::Undefined => true,
            _ => false,
        }
    }

    /// A reference by name.
    pub fn name(name: ResourceName) -> (r: ResourceRef)
        ensures
            r@ == RefView::Name(name@),
    {
        ResourceRef::Name(name)
    }

    /// The string form of this reference.
    pub fn to_string(&self) -> (r: String)
        ensures
            r@ == ref_display(self@),
    {
        match self {
            ResourceRef::Uuid(u) => uuid_hyphenated(*u),
            ResourceRef::Name(n) => n.to_string(),
            ResourceRef::Undefined => {
                let s = String::from_str("*");
                proof {
                    reveal_strlit("*");
                }
                s
            },
        }
    }
}

impl From<u128> for ResourceRef {
    fn from(id: u128) -> (r: ResourceRef) {
        ResourceRef::Uuid(id)
    }
}

impl vstd::std_specs::convert::FromSpecImpl<u128> for ResourceRef {
    open spec fn obeys_from_spec() -> bool {
        true
    }

    open spec fn from_spec(id: u128) -> ResourceRef {
        ResourceRef::Uuid(id)
    }
}

impl From<ResourceName> for ResourceRef {
    fn from(name: ResourceName) -> (r: ResourceRef) {
        ResourceRef::Name(name)
    }
}

impl vstd::std_specs::convert::FromSpecImpl<ResourceName> for ResourceRef {
    open spec fn obeys_from_spec() -> bool {
        true
    }

    open spec fn from_spec(name: ResourceName) -> ResourceRef {
        ResourceRef::Name(name)
    }
}

} // verus!
