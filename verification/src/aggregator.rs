use vstd::prelude::*;
use crate::records::{
    DbError, JoinedRow, JoinedRowV, Plant, PlantV, User, UserV, UserWithPlants, UserWithPlantsV,
    joined_rows_view,
};

verus! {

/// The plants collected from a joined row set, in arrival order: one plant
/// for each row whose species column is non-null, owned by the queried
/// identifier.
pub open spec fn children_of(qid: int, rows: Seq<JoinedRowV>) -> Seq<PlantV>
    decreases rows.len(),
{
    if rows.len() == 0 {
        Seq::empty()
    } else {
        let rest = children_of(qid, rows.drop_last());
        match rows.last().species {
            Some(sp) => rest.push(PlantV { species: sp, user_id: qid }),
            None => rest,
        }
    }
}

/// What folding an ordered joined row set for one queried identifier yields:
/// an empty set means the user does not exist; otherwise the user is read
/// off the first row alone, and the plants off every row with a non-null
/// species, preserving arrival order.
pub open spec fn folded(qid: int, rows: Seq<JoinedRowV>) -> Result<UserWithPlantsV, DbError> {
    if rows.len() == 0 {
        Err(DbError::NotFoundError)
    } else {
        Ok(
            (UserWithPlantsV {
                user: UserV { id: rows[0].id, name: rows[0].name, email: rows[0].email },
                plants: children_of(qid, rows),
            }),
        )
    }
}

/// Fold an ordered joined row set into one user with its plants.
///
/// No rows at all mean the queried user does not exist. Otherwise the user
/// comes from the first row's parent columns, and each row with a non-null
/// species contributes one plant owned by the queried identifier, in the
/// order the rows arrived.
pub fn aggregate(qid: i32, rows: &Vec<JoinedRow>) -> (r: Result<UserWithPlants, DbError>)
    ensures
        rows@.len() == 0 ==> r == Err::<UserWithPlants, DbError>(DbError::NotFoundError),
        match r {
            Ok(u) => folded(qid as int, joined_rows_view(rows@)) == Ok::<UserWithPlantsV, DbError>(u@),
            Err(e) => folded(qid as int, joined_rows_view(rows@)) == Err::<UserWithPlantsV, DbError>(e),
        },
{
    let ghost jr = joined_rows_view(rows@);
    let mut user: Option<User> = None;
    let mut plants: Vec<Plant> = Vec::new();
    let n: usize = rows.len();
    let mut idx: usize = 0;
    while idx < n
        invariant
            n == rows@.len(),
            jr == joined_rows_view(rows@),
            idx <= n,
            user is Some <==> idx > 0,
            user is Some ==> user->Some_0@ == (UserV {
                id: jr[0].id,
                name: jr[0].name,
                email: jr[0].email,
            }),
            plants@.map_values(|p: Plant| p@) == children_of(qid as int, jr.take(idx as int)),
        decreases n - idx,
    {
        let row = &rows[idx];
        if user.is_none() {
            user = Some(User { id: row.id, name: row.name.clone(), email: row.email.clone() });
        }
        match &row.species {
            Some(sp) => {
                plants.push(Plant { species: sp.clone(), user_id: qid });
            },
            None => {},
        }
        proof {
            assert(jr.take(idx as int + 1).drop_last() =~= jr.take(idx as int));
            assert(jr.take(idx as int + 1).last() == jr[idx as int]);
            assert(jr[idx as int] == rows@[idx as int]@);
        }
        idx += 1;
    }
    proof {
        assert(jr.take(n as int) =~= jr);
    }
    match user {
        Some(u) => Ok(UserWithPlants { user: u, plants }),
        None => Err(DbError::NotFoundError),
    }
}

/// Every plant the fold collects is owned by the queried identifier.
pub proof fn lemma_children_owner(qid: int, rows: Seq<JoinedRowV>)
    ensures
        forall|i: int| 0 <= i < children_of(qid, rows).len()
            ==> #[trigger] children_of(qid, rows)[i].user_id == qid,
    decreases rows.len(),
{
    if rows.len() > 0 {
        lemma_children_owner(qid, rows.drop_last());
        let rest = children_of(qid, rows.drop_last());
        assert forall|i: int| 0 <= i < children_of(qid, rows).len()
            implies #[trigger] children_of(qid, rows)[i].user_id == qid by {
            if i < rest.len() {
                assert(children_of(qid, rows)[i] == rest[i]);
            }
        }
    }
}

/// A matched user with no plants: every row of a non-empty joined row set
/// carries a null species, so the fold succeeds with an empty plant
/// sequence.
pub proof fn lemma_no_species_no_children(qid: int, rows: Seq<JoinedRowV>)
    requires
        rows.len() >= 1,
        forall|i: int| 0 <= i < rows.len() ==> #[trigger] rows[i].species is None,
    ensures
        folded(qid, rows) is Ok,
        folded(qid, rows)->Ok_0.plants.len() == 0,
{
    lemma_children_none(qid, rows);
}

proof fn lemma_children_none(qid: int, rows: Seq<JoinedRowV>)
    requires
        forall|i: int| 0 <= i < rows.len() ==> #[trigger] rows[i].species is None,
    ensures
        children_of(qid, rows).len() == 0,
    decreases rows.len(),
{
    if rows.len() > 0 {
        lemma_children_none(qid, rows.drop_last());
    }
}

/// N rows for one identifier, every one with a non-null species: the fold
/// succeeds with exactly N plants, in row arrival order, each owned by the
/// queried identifier.
pub proof fn lemma_all_species_children(qid: int, rows: Seq<JoinedRowV>)
    requires
        rows.len() >= 1,
        forall|i: int| 0 <= i < rows.len() ==> #[trigger] rows[i].species is Some,
        forall|i: int| 0 <= i < rows.len() ==> #[trigger] rows[i].id == qid,
    ensures
        folded(qid, rows) is Ok,
        folded(qid, rows)->Ok_0.plants.len() == rows.len(),
        forall|i: int| 0 <= i < rows.len()
            ==> #[trigger] folded(qid, rows)->Ok_0.plants[i] == (PlantV {
                species: rows[i].species->Some_0,
                user_id: qid,
            }),
{
    lemma_children_some(qid, rows);
}

proof fn lemma_children_some(qid: int, rows: Seq<JoinedRowV>)
    requires
        forall|i: int| 0 <= i < rows.len() ==> #[trigger] rows[i].species is Some,
    ensures
        children_of(qid, rows).len() == rows.len(),
        forall|i: int| 0 <= i < rows.len()
            ==> #[trigger] children_of(qid, rows)[i] == (PlantV {
                species: rows[i].species->Some_0,
                user_id: qid,
            }),
    decreases rows.len(),
{
    if rows.len() > 0 {
        lemma_children_some(qid, rows.drop_last());
    }
}

/// The fold of a non-empty row set filtered to the queried identifier is
/// well formed: the parent comes from the first row, so when every row
/// carries the queried identifier, every collected plant is owned by the
/// user the fold returns.
pub proof fn lemma_folded_well_formed(qid: int, rows: Seq<JoinedRowV>)
    requires
        rows.len() >= 1,
        forall|i: int| 0 <= i < rows.len() ==> #[trigger] rows[i].id == qid,
    ensures
        folded(qid, rows) is Ok,
        folded(qid, rows)->Ok_0.wf(),
{
    lemma_children_owner(qid, rows);
    assert(rows[0].id == qid);
}

} // verus!
