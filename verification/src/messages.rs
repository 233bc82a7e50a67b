//! Messages nested in the resource records.

use vstd::prelude::*;

verus! {

/// A parameter of a function.
#[derive(Debug, Clone, PartialEq, Eq, Default)]
pub struct FunctionParameterInfo {
    pub name: String,
    pub type_text: String,
    /// The parameter's type in JSON form.
    pub type_json: Option<String>,
    /// The column type code.
    pub column_type: i32,
    pub type_precision: Option<i32>,
    pub type_scale: Option<i32>,
    pub type_interval_type: Option<String>,
    pub position: Option<i32>,
    /// The parameter mode code.
    pub parameter_mode: i32,
    /// The parameter type code.
    pub parameter_type: i32,
    pub parameter_default: Option<String>,
    pub comment: Option<String>,
}

/// The parameters of a function, in order.
#[derive(Debug, Clone, PartialEq, Eq, Default)]
pub struct FunctionParameterInfos {
    pub parameters: Vec<FunctionParameterInfo>,
}

/// An allowed value of a tag policy.
#[derive(Debug, Clone, PartialEq, Eq, Default)]
pub struct TagValue {
    pub name: String,
}

} // verus!
