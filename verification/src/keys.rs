//! The metadata key of field ids, and the names under which the parts of nested columns are
//! looked up.

use vstd::prelude::*;

verus! {

/// The name under which the elements of a list are looked up.
pub const LIST_ELEMENT_NAME: &'static str = "element";

/// The name under which the keys of a map are looked up.
pub const MAP_KEY_NAME: &'static str = "key";

/// The name under which the values of a map are looked up.
pub const MAP_VALUE_NAME: &'static str = "value";

/// The metadata key under which a field carries its id.
pub open spec fn field_id_key() -> Seq<char> {
    "PARQUET:field_id"@
}

/// Gives `parquet::arrow::PARQUET_FIELD_ID_META_KEY` as a `String`. Taken on trust: that this
/// constant is the text `PARQUET:field_id`.
#[verifier::external_body]
pub(crate) fn field_id_meta_key() -> (key: String)
    ensures
        key@ == field_id_key(),
{
    parquet::arrow::PARQUET_FIELD_ID_META_KEY.to_string()
}

} // verus!
