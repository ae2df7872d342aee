use vstd::prelude::*;
use crate::values::{SqlValue, ValueV, row_view, rows_view};
use crate::records::{DbError, JoinedRow, JoinedRowV, User, UserV, joined_rows_view, users_view};

verus! {

/// The typed user a raw row stands for, if the row has the expected shape:
/// an integer identifier within i32 range, a text name and a text email.
/// Any other shape (too few or too many columns, a null, a value of another
/// kind, an identifier out of range) stands for no user at all.
pub open spec fn user_of_row(r: Seq<ValueV>) -> Option<UserV> {
    if r.len() == 3 {
        match (r[0], r[1], r[2]) {
            (ValueV::IntV(i), ValueV::TextV(n), ValueV::TextV(e)) => {
                if i32::MIN as int <= i <= i32::MAX as int {
                    Some(UserV { id: i, name: n, email: e })
                } else {
                    None
                }
            },
            _ => None,
        }
    } else {
        None
    }
}

/// The decoded joined row a raw row stands for, if the row has the expected
/// shape: the three user columns followed by a species column that is either
/// text (the row matched a plant) or null (the user owns no plant).
pub open spec fn joined_row_of(r: Seq<ValueV>) -> Option<JoinedRowV> {
    if r.len() == 4 {
        match (r[0], r[1], r[2]) {
            (ValueV::IntV(i), ValueV::TextV(n), ValueV::TextV(e)) => {
                if i32::MIN as int <= i <= i32::MAX as int {
                    match r[3] {
                        ValueV::TextV(sp) => Some(
                            JoinedRowV { id: i, name: n, email: e, species: Some(sp) },
                        ),
                        ValueV::NullV => Some(
                            JoinedRowV { id: i, name: n, email: e, species: None },
                        ),
                        _ => None,
                    }
                } else {
                    None
                }
            },
            _ => None,
        }
    } else {
        None
    }
}

/// Whether every raw row of a result set decodes as a user record.
pub open spec fn all_users_decode(raws: Seq<Seq<ValueV>>) -> bool {
    forall|i: int| 0 <= i < raws.len() ==> #[trigger] user_of_row(raws[i]) is Some
}

/// The user records match the raw rows pointwise, in order.
pub open spec fn users_match_rows(raws: Seq<Seq<ValueV>>, us: Seq<UserV>) -> bool {
    &&& us.len() == raws.len()
    &&& forall|i: int| 0 <= i < raws.len() ==> #[trigger] user_of_row(raws[i]) == Some(us[i])
}

/// Whether every raw row of a joined result set decodes.
pub open spec fn all_joined_decode(raws: Seq<Seq<ValueV>>) -> bool {
    forall|i: int| 0 <= i < raws.len() ==> #[trigger] joined_row_of(raws[i]) is Some
}

/// The decoded joined rows match the raw rows pointwise, in order.
pub open spec fn joined_match_rows(raws: Seq<Seq<ValueV>>, rs: Seq<JoinedRowV>) -> bool {
    &&& rs.len() == raws.len()
    &&& forall|i: int| 0 <= i < raws.len() ==> #[trigger] joined_row_of(raws[i]) == Some(rs[i])
}

/// Decode one raw row into a user record, or fail where the row does not
/// have the expected user shape.
pub fn map_user_row(row: &Vec<SqlValue>) -> (r: Result<User, DbError>)
    ensures
        match r {
            Ok(u) => user_of_row(row_view(row@)) == Some(u@),
            Err(e) => e == DbError::DecodeError && user_of_row(row_view(row@)) is None,
        },
{
    if row.len() != 3 {
        return Err(DbError::DecodeError);
    }
    let id: i32 = match &row[0] {
        SqlValue::Int(i) => {
            if *i < i32::MIN as i64 || *i > i32::MAX as i64 {
                return Err(DbError::DecodeError);
            }
            *i as i32
        },
        _ => {
            return Err(DbError::DecodeError);
        },
    };
    let name: String = match &row[1] {
        SqlValue::Text(s) => s.clone(),
        _ => {
            return Err(DbError::DecodeError);
        },
    };
    let email: String = match &row[2] {
        SqlValue::Text(s) => s.clone(),
        _ => {
            return Err(DbError::DecodeError);
        },
    };
    Ok(User { id, name, email })
}

/// Decode one raw row of the joined query into a joined row record, or fail
/// where the row does not have the expected joined shape.
pub fn map_joined_row(row: &Vec<SqlValue>) -> (r: Result<JoinedRow, DbError>)
    ensures
        match r {
            Ok(j) => joined_row_of(row_view(row@)) == Some(j@),
            Err(e) => e == DbError::DecodeError && joined_row_of(row_view(row@)) is None,
        },
{
    if row.len() != 4 {
        return Err(DbError::DecodeError);
    }
    let id: i32 = match &row[0] {
        SqlValue::Int(i) => {
            if *i < i32::MIN as i64 || *i > i32::MAX as i64 {
                return Err(DbError::DecodeError);
            }
            *i as i32
        },
        _ => {
            return Err(DbError::DecodeError);
        },
    };
    let name: String = match &row[1] {
        SqlValue::Text(s) => s.clone(),
        _ => {
            return Err(DbError::DecodeError);
        },
    };
    let email: String = match &row[2] {
        SqlValue::Text(s) => s.clone(),
        _ => {
            return Err(DbError::DecodeError);
        },
    };
    let species: Option<String> = match &row[3] {
        SqlValue::Text(s) => Some(s.clone()),
        SqlValue::Null => None,
        _ => {
            return Err(DbError::DecodeError);
        },
    };
    Ok(JoinedRow { id, name, email, species })
}

/// Decode a whole result set of user rows, in order; fail on the first row
/// that does not decode.
pub fn map_user_rows(rows: &Vec<Vec<SqlValue>>) -> (r: Result<Vec<User>, DbError>)
    ensures
        match r {
            Ok(us) => users_match_rows(rows_view(rows@), users_view(us@)),
            Err(e) => e == DbError::DecodeError && !all_users_decode(rows_view(rows@)),
        },
{
    let mut out: Vec<User> = Vec::new();
    let n: usize = rows.len();
    let mut idx: usize = 0;
    while idx < n
        invariant
            n == rows@.len(),
            idx <= n,
            out@.len() == idx,
            forall|j: int| 0 <= j < idx as int
                ==> #[trigger] user_of_row(rows_view(rows@)[j]) == Some(users_view(out@)[j]),
        decreases n - idx,
    {
        match map_user_row(&rows[idx]) {
            Ok(u) => {
                out.push(u);
            },
            Err(e) => {
                proof {
                    assert(user_of_row(rows_view(rows@)[idx as int]) is None);
                }
                return Err(e);
            },
        }
        idx += 1;
    }
    Ok(out)
}

/// Decode a whole result set of joined rows, in order; fail on the first row
/// that does not decode.
pub fn map_joined_rows(rows: &Vec<Vec<SqlValue>>) -> (r: Result<Vec<JoinedRow>, DbError>)
    ensures
        match r {
            Ok(js) => joined_match_rows(rows_view(rows@), joined_rows_view(js@)),
            Err(e) => e == DbError::DecodeError && !all_joined_decode(rows_view(rows@)),
        },
{
    let mut out: Vec<JoinedRow> = Vec::new();
    let n: usize = rows.len();
    let mut idx: usize = 0;
    while idx < n
        invariant
            n == rows@.len(),
            idx <= n,
            out@.len() == idx,
            forall|j: int| 0 <= j < idx as int
                ==> #[trigger] joined_row_of(rows_view(rows@)[j]) == Some(joined_rows_view(out@)[j]),
        decreases n - idx,
    {
        match map_joined_row(&rows[idx]) {
            Ok(j) => {
                out.push(j);
            },
            Err(e) => {
                proof {
                    assert(joined_row_of(rows_view(rows@)[idx as int]) is None);
                }
                return Err(e);
            },
        }
        idx += 1;
    }
    Ok(out)
}

} // verus!
