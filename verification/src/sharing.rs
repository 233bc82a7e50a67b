//! Objects shared through a share, and changes to shares, with the constructors and text
//! forms that the Python bindings expose.

use vstd::prelude::*;

use crate::repr::{
    decimal, i32_text, list_string, list_text, none_string, none_text, opt_bool_string,
    opt_bool_text, opt_i32_string, opt_i32_text, opt_i64_string, opt_i64_text, opt_string,
    opt_text,
};

verus! {

/// An object shared through a share.
#[derive(Debug, Clone, PartialEq, Eq)]
pub struct DataObject {
    pub name: String,
    pub data_object_type: i32,
    pub added_at: Option<i64>,
    pub added_by: Option<String>,
    pub comment: Option<String>,
    pub shared_as: Option<String>,
    pub partitions: Vec<String>,
    pub enable_cdf: Option<bool>,
    pub history_data_sharing_status: Option<i32>,
    pub start_version: Option<i64>,
}

/// The text form of a share object, as the Python bindings print it.
pub open spec fn data_object_repr(d: DataObject) -> Seq<char> {
    "DataObject(name="@ + d.name@ + ", data_object_type="@ + decimal(d.data_object_type as int) + ", added_at="@ + opt_i64_text(d.added_at) + ", added_by="@ + opt_text(d.added_by) + ", comment="@ + opt_text(d.comment) + ", shared_as="@ + opt_text(d.shared_as) + ", partitions="@ + list_text(d.partitions.deep_view()) + ", enable_cdf="@ + opt_bool_text(d.enable_cdf) + ", history_data_sharing_status="@ + opt_i32_text(d.history_data_sharing_status) + ", start_version="@ + opt_i64_text(d.start_version) + ")"@
}

impl DataObject {
    /// A share object; absent partitions become the empty list.
    pub fn new(
        name: String,
        data_object_type: i32,
        added_at: Option<i64>,
        added_by: Option<String>,
        comment: Option<String>,
        shared_as: Option<String>,
        partitions: Option<Vec<String>>,
        enable_cdf: Option<bool>,
        history_data_sharing_status: Option<i32>,
        start_version: Option<i64>,
    ) -> (r: DataObject)
        ensures
            r.name == name,
            r.data_object_type == data_object_type,
            r.added_at == added_at,
            r.added_by == added_by,
            r.comment == comment,
            r.shared_as == shared_as,
            partitions matches Some(p) ==> r.partitions == p,
            partitions is None ==> r.partitions@.len() == 0,
            r.enable_cdf == enable_cdf,
            r.history_data_sharing_status == history_data_sharing_status,
            r.start_version == start_version,
    {
        let partitions = match partitions {
            Some(p) => p,
            None => Vec::new(),
        };
        DataObject {
            name,
            data_object_type,
            added_at,
            added_by,
            comment,
            shared_as,
            partitions,
            enable_cdf,
            history_data_sharing_status,
            start_version,
        }
    }

    /// The text form of this share object.
    pub fn repr(&self) -> (r: String)
        ensures
            r@ == data_object_repr(*self),
    {
        let mut s = String::new();
        s.append("DataObject(name=");
        let t = self.name.clone();
        s.append(t.as_str());
        s.append(", data_object_type=");
        let t = i32_text(self.data_object_type);
        s.append(t.as_str());
        s.append(", added_at=");
        let t = opt_i64_string(&self.added_at);
        s.append(t.as_str());
        s.append(", added_by=");
        let t = opt_string(&self.added_by);
        s.append(t.as_str());
        s.append(", comment=");
        let t = opt_string(&self.comment);
        s.append(t.as_str());
        s.append(", shared_as=");
        let t = opt_string(&self.shared_as);
        s.append(t.as_str());
        s.append(", partitions=");
        let t = list_string(&self.partitions);
        s.append(t.as_str());
        s.append(", enable_cdf=");
        let t = opt_bool_string(&self.enable_cdf);
        s.append(t.as_str());
        s.append(", history_data_sharing_status=");
        let t = opt_i32_string(&self.history_data_sharing_status);
        s.append(t.as_str());
        s.append(", start_version=");
        let t = opt_i64_string(&self.start_version);
        s.append(t.as_str());
        s.append(")");
        assert(s@ =~= data_object_repr(*self));
        s
    }
}

/// A change to a share: an action code and the object it applies to.
#[derive(Debug, Clone, PartialEq, Eq)]
pub struct DataObjectUpdate {
    pub action: i32,
    pub data_object: Option<DataObject>,
}

/// The text form of a share change, as the Python bindings print it.
pub open spec fn data_object_update_repr(u: DataObjectUpdate) -> Seq<char> {
    "DataObjectUpdate(action="@ + decimal(u.action as int) + ", data_object="@ + match u.data_object {
        Some(d) => data_object_repr(d),
        None => none_text(),
    } + ")"@
}

impl DataObjectUpdate {
    /// A change applying `action` to `data_object`.
    pub fn new(action: i32, data_object: DataObject) -> (r: DataObjectUpdate)
        ensures
            r == (DataObjectUpdate { action, data_object: Some(data_object) }),
    {
        DataObjectUpdate { action, data_object: Some(data_object) }
    }

    /// The text form of this change.
    pub fn repr(&self) -> (r: String)
        ensures
            r@ == data_object_update_repr(*self),
    {
        let mut s = String::new();
        s.append("DataObjectUpdate(action=");
        let a = i32_text(self.action);
        s.append(a.as_str());
        s.append(", data_object=");
        let d = match &self.data_object {
            Some(d) => d.repr(),
            None => none_string(),
        };
        s.append(d.as_str());
        s.append(")");
        assert(s@ =~= data_object_update_repr(*self));
        s
    }
}

} // verus!
