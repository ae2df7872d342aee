use vstd::prelude::*;
use crate::aggregator::{aggregate, folded, lemma_children_owner, lemma_folded_well_formed};
use crate::records::{
    DbError, JoinedRowV, User, UserWithPlants, UserWithPlantsV, joined_rows_view, users_view,
};
use crate::row_mapper::{joined_row_of, map_joined_rows, map_user_rows, users_match_rows};
use crate::values::{SqlValue, ValueV, rows_view};

verus! {

#[verifier::external_type_specification]
#[verifier::external_body]
pub struct ExConnection(rusqlite::Connection);

#[verifier::external_type_specification]
#[verifier::external_body]
pub struct ExSqliteError(rusqlite::Error);

#[verifier::external_type_specification]
#[verifier::external_body]
pub struct ExRawValue(rusqlite::types::Value);

/// Relies on rusqlite::types::Value: one arm for each variant a stored
/// value can take. Integer and text contents are moved across unchanged;
/// reals and blobs are kinds the record layer has no field for, so they
/// map to the rejected kind.
#[verifier::external_body]
fn value_of(v: rusqlite::types::Value) -> SqlValue {
    match v {
        rusqlite::types::Value::Null => SqlValue::Null,
        rusqlite::types::Value::Integer(i) => SqlValue::Int(i),
        rusqlite::types::Value::Text(s) => SqlValue::Text(s),
        rusqlite::types::Value::Real(_) => SqlValue::Other,
        rusqlite::types::Value::Blob(_) => SqlValue::Other,
    }
}

/// Relies on rusqlite's Connection::prepare, Statement::query, Rows::next
/// and Row::get to run `SELECT id, name, email FROM users` and hand back
/// every result row as raw stored values, in the order the store yields
/// them. What rows come back depends on the store alone; each one carries
/// the statement's three columns.
#[verifier::external_body]
fn run_users_query(conn: &rusqlite::Connection) -> (r: Result<
    Vec<Vec<SqlValue>>,
    rusqlite::Error,
>)
    ensures
        r is Ok ==> forall|i: int|
            0 <= i < r->Ok_0@.len() ==> #[trigger] r->Ok_0@[i]@.len() == 3,
{
    let mut stmt = conn.prepare("SELECT id, name, email FROM users")?;
    let mut rows = stmt.query([])?;
    let mut out: Vec<Vec<SqlValue>> = Vec::new();
    while let Some(row) = rows.next()? {
        let mut vals: Vec<SqlValue> = Vec::new();
        for i in 0..3 {
            vals.push(value_of(row.get(i)?));
        }
        out.push(vals);
    }
    Ok(out)
}

/// Every row whose leading column holds an integer holds exactly the
/// queried identifier there.
pub open spec fn integer_ids_match(raws: Seq<Seq<ValueV>>, qid: int) -> bool {
    forall|i: int|
        0 <= i < raws.len() && (#[trigger] raws[i]).len() > 0 && raws[i][0] is IntV
            ==> raws[i][0]->IntV_0 == qid
}

/// Relies on the same rusqlite calls to run the left join
/// `SELECT users.id, users.name, users.email, plants.species FROM users
/// LEFT JOIN plants ON users.id = plants.user_id WHERE users.id = ?1`
/// with the queried identifier bound, and hand back every result row as
/// raw stored values, in the order the store yields them. What rows come
/// back depends on the store alone; each one carries the statement's four
/// columns. Because the statement filters on `users.id = ?1` with the
/// identifier bound as an integer, and an integer-stored value compares
/// equal to an integer only on exact numeric equality, a returned row
/// whose id column holds an integer holds the queried identifier.
#[verifier::external_body]
fn run_user_plants_query(conn: &rusqlite::Connection, id: i32) -> (r: Result<
    Vec<Vec<SqlValue>>,
    rusqlite::Error,
>)
    ensures
        r is Ok ==> forall|i: int|
            0 <= i < r->Ok_0@.len() ==> #[trigger] r->Ok_0@[i]@.len() == 4,
        r is Ok ==> integer_ids_match(rows_view(r->Ok_0@), id as int),
{
    let sql = "SELECT users.id, users.name, users.email, plants.species \
        FROM users LEFT JOIN plants ON users.id = plants.user_id \
        WHERE users.id = ?1";
    let mut stmt = conn.prepare(sql)?;
    let mut rows = stmt.query([id])?;
    let mut out: Vec<Vec<SqlValue>> = Vec::new();
    while let Some(row) = rows.next()? {
        let mut vals: Vec<SqlValue> = Vec::new();
        for i in 0..4 {
            vals.push(value_of(row.get(i)?));
        }
        out.push(vals);
    }
    Ok(out)
}

/// List all users: run the users query against the given connection and
/// decode every returned row, in the store's order.
///
/// A connection or query failure surfaces as a store error and a row of an
/// unexpected shape as a decode error; an empty relation is an empty list,
/// not an error. Any returned list is the pointwise decoding of the raw
/// rows the store yielded.
pub fn fetch_users_from_db(conn: &rusqlite::Connection) -> (r: Result<Vec<User>, DbError>)
    ensures
        r is Err ==> (r->Err_0 == DbError::StoreError || r->Err_0 == DbError::DecodeError),
        r is Ok ==> exists|raws: Seq<Seq<ValueV>>|
            #[trigger] users_match_rows(raws, users_view(r->Ok_0@)),
{
    let raw = match run_users_query(conn) {
        Ok(raw) => raw,
        Err(_) => {
            return Err(DbError::StoreError);
        },
    };
    match map_user_rows(&raw) {
        Ok(us) => {
            proof {
                assert(users_match_rows(rows_view(raw@), users_view(us@)));
            }
            Ok(us)
        },
        Err(e) => Err(e),
    }
}

/// Look one user up by identifier, together with the plants it owns: run
/// the left-joined query against the given connection, decode every
/// returned row and fold them into one record.
///
/// A connection or query failure surfaces as a store error, a row of an
/// unexpected shape as a decode error, and an empty row set (the user does
/// not exist) as not-found. Any returned record carries the queried
/// identifier as its user's, is well formed (every plant belongs to that
/// user), and is the fold of the decoded rows: its user comes from the
/// first row, its plants from the rows with a non-null species in arrival
/// order, every one owned by the queried identifier.
pub fn get_user_with_plants_from_db(conn: &rusqlite::Connection, id: i32) -> (r: Result<
    UserWithPlants,
    DbError,
>)
    ensures
        r is Ok ==> r->Ok_0@.user.id == id as int,
        r is Ok ==> r->Ok_0@.wf(),
        r is Ok ==> exists|rows: Seq<JoinedRowV>|
            #[trigger] folded(id as int, rows) == Ok::<UserWithPlantsV, DbError>(r->Ok_0@),
        r is Ok ==> forall|i: int|
            0 <= i < r->Ok_0@.plants.len() ==> #[trigger] r->Ok_0@.plants[i].user_id == id as int,
{
    let raw = match run_user_plants_query(conn, id) {
        Ok(raw) => raw,
        Err(_) => {
            return Err(DbError::StoreError);
        },
    };
    let jrows = match map_joined_rows(&raw) {
        Ok(js) => js,
        Err(e) => {
            return Err(e);
        },
    };
    let r = aggregate(id, &jrows);
    proof {
        if r is Ok {
            let rv = rows_view(raw@);
            let jr = joined_rows_view(jrows@);
            assert(folded(id as int, jr) == Ok::<UserWithPlantsV, DbError>(r->Ok_0@));
            assert(jr.len() >= 1);
            assert forall|i: int| 0 <= i < jr.len() implies #[trigger] jr[i].id == id as int by {
                assert(joined_row_of(rv[i]) == Some(jr[i]));
                assert(rv[i][0] is IntV);
                assert(rv[i][0]->IntV_0 == id as int);
            }
            lemma_children_owner(id as int, jr);
            lemma_folded_well_formed(id as int, jr);
        }
    }
    r
}

} // verus!
