//! The value marshaller: the pure conversion between stored cells and
//! interchange values, the classification of engine-reported column type
//! tags, and the validation of inbound parameters.

use vstd::prelude::*;
use vstd::string::StrSliceExecFns;
use vstd::string::StringExecFns;

use crate::engine::{base64_encode, cells_of, probe_blob, probe_int, probe_real, probe_text};
use crate::values::{
    bindable, cell_value_model, classify_spec, scalar_value, DeclaredClass, DynamicValue,
    ExecutionError, ParamValue, RawCell,
};

use sqlx::sqlite::SqliteRow;

verus! {

/// Maps an engine-reported column type tag to its declared storage class.
pub fn classify(name: &String) -> (c: DeclaredClass)
    ensures
        c == classify_spec(name@),
{
    let integer_tag = String::from_str("INTEGER");
    let real_tag = String::from_str("REAL");
    let text_tag = String::from_str("TEXT");
    let blob_tag = String::from_str("BLOB");
    if *name == integer_tag {
        DeclaredClass::Integer
    } else if *name == real_tag {
        DeclaredClass::Real
    } else if *name == text_tag {
        DeclaredClass::Text
    } else if *name == blob_tag {
        DeclaredClass::Blob
    } else {
        DeclaredClass::Other
    }
}

/// The pure, total conversion from a stored cell to the interchange value,
/// keyed on the column's declared storage class: integer, float and text
/// cells pass through under their own class, raw bytes encode as base64
/// text, a failed read degrades to `Null`, and a column without a usable
/// class is probed as integer, then float, then text, first success
/// winning.
pub fn cell_to_value(class: DeclaredClass, cell: &RawCell) -> (v: DynamicValue)
    ensures
        v@ == cell_value_model(class, cell@),
{
    match class {
        DeclaredClass::Integer => match cell {
            RawCell::Integer(i) => DynamicValue::Integer(*i),
            _ => DynamicValue::Null,
        },
        DeclaredClass::Real => match cell {
            RawCell::Real(bits) => DynamicValue::Float(*bits),
            _ => DynamicValue::Null,
        },
        DeclaredClass::Text => match cell {
            RawCell::Text(s) => DynamicValue::Text(s.clone()),
            _ => DynamicValue::Null,
        },
        DeclaredClass::Blob => match cell {
            RawCell::Blob(b) => DynamicValue::Text(base64_encode(b)),
            RawCell::Text(s) => {
                let bytes = s.as_str().as_bytes_vec();
                DynamicValue::Text(base64_encode(&bytes))
            },
            _ => DynamicValue::Null,
        },
        DeclaredClass::Other => match cell {
            RawCell::Integer(i) => DynamicValue::Integer(*i),
            RawCell::Real(bits) => DynamicValue::Float(*bits),
            RawCell::Text(s) => DynamicValue::Text(s.clone()),
            _ => DynamicValue::Null,
        },
    }
}

/// Reads the stored cell at a column position of a fetched row, as plain
/// values, by typed reads in probe order.
pub fn read_cell(row: &SqliteRow, i: usize) -> (c: RawCell)
    requires
        i < cells_of(*row).len(),
    ensures
        c@ == cells_of(*row)[i as int],
{
    if let Some(v) = probe_int(row, i) {
        return RawCell::Integer(v);
    }
    if let Some(bits) = probe_real(row, i) {
        return RawCell::Real(bits);
    }
    if let Some(s) = probe_text(row, i) {
        return RawCell::Text(s);
    }
    if let Some(b) = probe_blob(row, i) {
        return RawCell::Blob(b);
    }
    RawCell::Null
}

/// Validates an inbound parameter list and maps it, in order, to the
/// interchange values that will be bound.  Fails on the first parameter —
/// and only on a parameter — whose kind has no safe binding.
pub fn bindable_parameters(params: &Vec<ParamValue>) -> (r: Result<
    Vec<DynamicValue>,
    ExecutionError,
>)
    ensures
        match r {
            Ok(vs) => vs@.len() == params@.len() && (forall|j: int|
                0 <= j < params@.len() ==> bindable(#[trigger] params@[j]@)) && (forall|j: int|
                0 <= j < params@.len() ==> (#[trigger] vs@[j])@ == scalar_value(params@[j]@)),
            Err(e) => e matches ExecutionError::UnbindableParameter(i) && i < params@.len()
                && !bindable(params@[i as int]@) && (forall|j: int|
                0 <= j < i ==> bindable(#[trigger] params@[j]@)),
        },
{
    let mut out: Vec<DynamicValue> = Vec::new();
    let mut idx: usize = 0;
    while idx < params.len()
        invariant
            idx <= params@.len(),
            out@.len() == idx,
            forall|j: int| 0 <= j < idx ==> bindable(#[trigger] params@[j]@),
            forall|j: int| 0 <= j < idx ==> (#[trigger] out@[j])@ == scalar_value(params@[j]@),
        decreases params@.len() - idx,
    {
        match &params[idx] {
            ParamValue::Null => out.push(DynamicValue::Null),
            ParamValue::Boolean(b) => out.push(DynamicValue::Boolean(*b)),
            ParamValue::Integer(v) => out.push(DynamicValue::Integer(*v)),
            ParamValue::Float(bits) => out.push(DynamicValue::Float(*bits)),
            ParamValue::Text(s) => out.push(DynamicValue::Text(s.clone())),
            ParamValue::Composite => {
                return Err(ExecutionError::UnbindableParameter(idx));
            },
        }
        idx += 1;
    }
    Ok(out)
}

} // verus!
