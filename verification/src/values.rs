use vstd::prelude::*;

verus! {

/// A raw value read from one column of a result row, as the store yields it.
///
/// Integer and text values carry their contents; `Null` is the SQL null.
/// `Other` stands for any stored value of a kind the record layer has no use
/// for (reals, blobs); decoding such a value into a typed field fails.
#[derive(Debug)]
pub enum SqlValue {
    Null,
    Int(i64),
    Text(String),
    Other,
}

/// The mathematical shape of a raw column value.
pub enum ValueV {
    NullV,
    IntV(int),
    TextV(Seq<char>),
    OtherV,
}

impl View for SqlValue {
    type V = ValueV;

    open spec fn view(&self) -> ValueV {
        match self {
            SqlValue::Null => ValueV::NullV,
            SqlValue::Int(i) => ValueV::IntV(*i as int),
            SqlValue::Text(s) => ValueV::TextV(s@),
            SqlValue::Other => ValueV::OtherV,
        }
    }
}

/// The views of a whole raw row.
pub open spec fn row_view(r: Seq<SqlValue>) -> Seq<ValueV> {
    r.map_values(|v: SqlValue| v@)
}

/// The views of a whole raw result set.
pub open spec fn rows_view(rows: Seq<Vec<SqlValue>>) -> Seq<Seq<ValueV>> {
    rows.map_values(|r: Vec<SqlValue>| row_view(r@))
}

} // verus!
