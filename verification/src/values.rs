//! The dynamically typed value model of the SQL proxy.
//!
//! `DynamicValue` is the interchange type for both bound parameters and
//! returned cells.  `ParamValue` is the inbound surface: the scalar kinds of
//! `DynamicValue` plus `Composite`, which stands for the nested kinds of the
//! external interchange format (arrays, objects) that have no safe binding.
//! `CellModel` models what a SQLite cell holds: exactly one of the engine's
//! five storage classes.

use vstd::prelude::*;
use vstd::string::StringExecFns;
use vstd::utf8::encode_utf8;

verus! {

/// Ghost mirror of `DynamicValue`.  Floats are carried as their IEEE-754
/// bit pattern, so that exact bit equality can be stated.
pub enum ValueModel {
    Null,
    Boolean(bool),
    Integer(i64),
    Float(u64),
    Text(Seq<char>),
}

/// Ghost mirror of `ParamValue`.
pub enum ParamModel {
    Null,
    Boolean(bool),
    Integer(i64),
    Float(u64),
    Text(Seq<char>),
    Composite,
}

/// Ghost model of one stored cell of a result row: the engine's storage
/// classes.  A text cell whose bytes are not valid UTF-8 is modelled as a
/// `Blob` of those bytes, which reads exactly the same through every typed
/// read the proxy performs.
pub enum CellModel {
    Null,
    Integer(i64),
    Real(u64),
    Text(Seq<char>),
    Blob(Seq<u8>),
}

/// The declared storage class of a result column, as the engine reports it.
#[derive(Clone, Copy, Debug, PartialEq, Eq, Structural)]
pub enum DeclaredClass {
    Integer,
    Real,
    Text,
    Blob,
    /// No declared type, or a tag outside the four storage classes.
    Other,
}

/// The interchange value: a tagged union over null, boolean, 64-bit signed
/// integer, 64-bit IEEE float (carried as its bit pattern) and UTF-8 text.
#[derive(Clone, Debug, PartialEq)]
pub enum DynamicValue {
    Null,
    Boolean(bool),
    Integer(i64),
    /// IEEE-754 bit pattern of a 64-bit float.
    Float(u64),
    Text(String),
}

/// An inbound parameter value: the scalar interchange kinds, or `Composite`
/// for a nested kind (array, object) that cannot be bound.
#[derive(Clone, Debug, PartialEq)]
pub enum ParamValue {
    Null,
    Boolean(bool),
    Integer(i64),
    /// IEEE-754 bit pattern of a 64-bit float.
    Float(u64),
    Text(String),
    Composite,
}

/// One stored cell of a result row, as plain values.
#[derive(Clone, Debug, PartialEq)]
pub enum RawCell {
    Null,
    Integer(i64),
    /// IEEE-754 bit pattern of a 64-bit float.
    Real(u64),
    Text(String),
    Blob(Vec<u8>),
}

/// A request: statement text and an ordered parameter list.
#[derive(Clone, Debug)]
pub struct SqlQuery {
    pub sql: String,
    pub params: Vec<ParamValue>,
}

/// One materialized result row: column names and values, positionally
/// aligned.  Duplicate column names are allowed.
#[derive(Clone, Debug, PartialEq)]
pub struct SqlRow {
    pub columns: Vec<String>,
    pub values: Vec<DynamicValue>,
}

/// Ghost mirror of `SqlRow`.
pub struct RowModel {
    pub columns: Seq<Seq<char>>,
    pub values: Seq<ValueModel>,
}

/// Why an execution failed.
#[derive(Clone, Debug, PartialEq)]
pub enum ExecutionError {
    /// No database location was resolved before the call.
    NoDatabaseSelected,
    /// The engine could not open the resolved location.
    ConnectionFailed(String),
    /// Statement preparation or execution failed.
    QueryFailed(String),
    /// The parameter at this position has no safe binding.
    UnbindableParameter(usize),
}

impl View for DynamicValue {
    type V = ValueModel;

    open spec fn view(&self) -> ValueModel {
        match self {
            DynamicValue::Null => ValueModel::Null,
            DynamicValue::Boolean(b) => ValueModel::Boolean(*b),
            DynamicValue::Integer(i) => ValueModel::Integer(*i),
            DynamicValue::Float(bits) => ValueModel::Float(*bits),
            DynamicValue::Text(s) => ValueModel::Text(s@),
        }
    }
}

impl DeepView for DynamicValue {
    type V = ValueModel;

    open spec fn deep_view(&self) -> ValueModel {
        self.view()
    }
}

impl View for ParamValue {
    type V = ParamModel;

    open spec fn view(&self) -> ParamModel {
        match self {
            ParamValue::Null => ParamModel::Null,
            ParamValue::Boolean(b) => ParamModel::Boolean(*b),
            ParamValue::Integer(i) => ParamModel::Integer(*i),
            ParamValue::Float(bits) => ParamModel::Float(*bits),
            ParamValue::Text(s) => ParamModel::Text(s@),
            ParamValue::Composite => ParamModel::Composite,
        }
    }
}

impl DeepView for ParamValue {
    type V = ParamModel;

    open spec fn deep_view(&self) -> ParamModel {
        self.view()
    }
}

impl View for RawCell {
    type V = CellModel;

    open spec fn view(&self) -> CellModel {
        match self {
            RawCell::Null => CellModel::Null,
            RawCell::Integer(i) => CellModel::Integer(*i),
            RawCell::Real(bits) => CellModel::Real(*bits),
            RawCell::Text(s) => CellModel::Text(s@),
            RawCell::Blob(b) => CellModel::Blob(b@),
        }
    }
}

impl View for SqlRow {
    type V = RowModel;

    open spec fn view(&self) -> RowModel {
        RowModel { columns: self.columns.deep_view(), values: self.values.deep_view() }
    }
}

impl DeepView for SqlRow {
    type V = RowModel;

    open spec fn deep_view(&self) -> RowModel {
        self.view()
    }
}

/// Names the string the `base64` crate's standard alphabet, padded encoding
/// produces for a byte sequence; applied by the `ensures` of the encoding
/// wrapper.
pub uninterp spec fn base64_of(bytes: Seq<u8>) -> Seq<char>;

/// What a typed read as a 64-bit signed integer yields from a stored cell:
/// the engine hands an integer back only from an integer cell, and `Null`
/// reads as nothing rather than as zero.
pub open spec fn int_read(c: CellModel) -> Option<i64> {
    match c {
        CellModel::Integer(v) => Some(v),
        _ => None,
    }
}

/// What a typed read as a 64-bit float yields from a stored cell.
pub open spec fn real_read(c: CellModel) -> Option<u64> {
    match c {
        CellModel::Real(bits) => Some(bits),
        _ => None,
    }
}

/// What a typed read as UTF-8 text yields from a stored cell.
pub open spec fn text_read(c: CellModel) -> Option<Seq<char>> {
    match c {
        CellModel::Text(s) => Some(s),
        _ => None,
    }
}

/// What a typed read as raw bytes yields from a stored cell.  The engine
/// hands bytes back from a blob cell and from a text cell, whose UTF-8
/// encoding it stores.
pub open spec fn blob_read(c: CellModel) -> Option<Seq<u8>> {
    match c {
        CellModel::Blob(b) => Some(b),
        CellModel::Text(s) => Some(encode_utf8(s)),
        _ => None,
    }
}

/// Maps the engine-reported type tag of a column to its declared storage
/// class.  Everything outside the four storage classes — including the
/// explicit "no declared type" tag — classifies as `Other`.
pub open spec fn classify_spec(name: Seq<char>) -> DeclaredClass {
    if name == "INTEGER"@ {
        DeclaredClass::Integer
    } else if name == "REAL"@ {
        DeclaredClass::Real
    } else if name == "TEXT"@ {
        DeclaredClass::Text
    } else if name == "BLOB"@ {
        DeclaredClass::Blob
    } else {
        DeclaredClass::Other
    }
}

/// The conversion table from a stored cell to the interchange value, keyed
/// on the column's declared storage class.  A failed read degrades to
/// `Null` for that cell alone.  A column without a usable declared class is
/// probed as integer, then float, then text, in that order, first success
/// winning; raw bytes under such a column do not convert.
pub open spec fn cell_value_model(class: DeclaredClass, c: CellModel) -> ValueModel {
    match class {
        DeclaredClass::Integer => match int_read(c) {
            Some(v) => ValueModel::Integer(v),
            None => ValueModel::Null,
        },
        DeclaredClass::Real => match real_read(c) {
            Some(bits) => ValueModel::Float(bits),
            None => ValueModel::Null,
        },
        DeclaredClass::Text => match text_read(c) {
            Some(s) => ValueModel::Text(s),
            None => ValueModel::Null,
        },
        DeclaredClass::Blob => match blob_read(c) {
            Some(b) => ValueModel::Text(base64_of(b)),
            None => ValueModel::Null,
        },
        DeclaredClass::Other => match int_read(c) {
            Some(v) => ValueModel::Integer(v),
            None => match real_read(c) {
                Some(bits) => ValueModel::Float(bits),
                None => match text_read(c) {
                    Some(s) => ValueModel::Text(s),
                    None => ValueModel::Null,
                },
            },
        },
    }
}

/// Whether an inbound parameter has a safe binding.
pub open spec fn bindable(p: ParamModel) -> bool {
    !(p is Composite)
}

/// The interchange value a bindable parameter binds as.
pub open spec fn scalar_value(p: ParamModel) -> ValueModel {
    match p {
        ParamModel::Null => ValueModel::Null,
        ParamModel::Boolean(b) => ValueModel::Boolean(b),
        ParamModel::Integer(i) => ValueModel::Integer(i),
        ParamModel::Float(bits) => ValueModel::Float(bits),
        ParamModel::Text(s) => ValueModel::Text(s),
        ParamModel::Composite => ValueModel::Null,
    }
}

/// Law: a stored SQL NULL converts to the null interchange value under
/// every declared storage class — never to a default zero value.
pub proof fn lemma_null_preserved(class: DeclaredClass)
    ensures
        cell_value_model(class, CellModel::Null) == ValueModel::Null,
{
}

/// Law: under a column without a usable declared class, the probe order is
/// integer, then float, then text, first success winning: a stored integer
/// is reported as that integer and never as text or float; a non-integer
/// stored float is reported as that float, bit pattern unchanged; stored
/// text is reported as text only when it reads neither as integer nor as
/// float.
pub proof fn lemma_untyped_probe_order(c: CellModel)
    ensures
        int_read(c) matches Some(v) ==> cell_value_model(DeclaredClass::Other, c)
            == ValueModel::Integer(v),
        int_read(c) is None ==> (real_read(c) matches Some(bits) ==> cell_value_model(
            DeclaredClass::Other,
            c,
        ) == ValueModel::Float(bits)),
        int_read(c) is None && real_read(c) is None ==> (text_read(c) matches Some(s)
            ==> cell_value_model(DeclaredClass::Other, c) == ValueModel::Text(s)),
        int_read(c) is None && real_read(c) is None && text_read(c) is None ==> cell_value_model(
            DeclaredClass::Other,
            c,
        ) == ValueModel::Null,
{
}

impl ExecutionError {
    /// The descriptive string surfaced across the external boundary: the
    /// detail carried by a connection or query failure, unchanged and never
    /// swallowed, and a fixed description for the other variants.
    pub fn message(&self) -> (m: String)
        ensures
            match self {
                ExecutionError::NoDatabaseSelected => m@
                    == "No database is selected in the current path"@,
                ExecutionError::ConnectionFailed(detail) => m@ == detail@,
                ExecutionError::QueryFailed(detail) => m@ == detail@,
                ExecutionError::UnbindableParameter(_) => m@
                    == "Parameter value kind has no safe binding"@,
            },
    {
        match self {
            ExecutionError::NoDatabaseSelected => {
                String::from_str("No database is selected in the current path")
            },
            ExecutionError::ConnectionFailed(detail) => detail.clone(),
            ExecutionError::QueryFailed(detail) => detail.clone(),
            ExecutionError::UnbindableParameter(_) => {
                String::from_str("Parameter value kind has no safe binding")
            },
        }
    }
}

} // verus!
