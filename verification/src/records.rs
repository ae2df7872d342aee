use vstd::prelude::*;

verus! {

/// Why an operation against the store failed.
///
/// `DecodeError`: a result row did not have the expected shape.
/// `StoreError`: the connection or the query itself failed.
/// `NotFoundError`: no row matched the requested identifier.
#[derive(Clone, Copy, Debug, PartialEq, Eq, Structural)]
pub enum DbError {
    DecodeError,
    StoreError,
    NotFoundError,
}

/// A user record as read from one row of the users relation.
#[derive(Debug, PartialEq)]
pub struct User {
    pub id: i32,
    pub name: String,
    pub email: String,
}

/// The mathematical shape of a user record.
pub struct UserV {
    pub id: int,
    pub name: Seq<char>,
    pub email: Seq<char>,
}

impl View for User {
    type V = UserV;

    open spec fn view(&self) -> UserV {
        UserV { id: self.id as int, name: self.name@, email: self.email@ }
    }
}

/// A plant record: a species owned by one user.
#[derive(Debug, PartialEq)]
pub struct Plant {
    pub species: String,
    pub user_id: i32,
}

/// The mathematical shape of a plant record.
pub struct PlantV {
    pub species: Seq<char>,
    pub user_id: int,
}

impl View for Plant {
    type V = PlantV;

    open spec fn view(&self) -> PlantV {
        PlantV { species: self.species@, user_id: self.user_id as int }
    }
}

/// One row of the joined user/plant query, already decoded: the parent
/// columns and, where the row matched a plant, its species.
#[derive(Debug, PartialEq)]
pub struct JoinedRow {
    pub id: i32,
    pub name: String,
    pub email: String,
    pub species: Option<String>,
}

/// The mathematical shape of a decoded joined row.
pub struct JoinedRowV {
    pub id: int,
    pub name: Seq<char>,
    pub email: Seq<char>,
    pub species: Option<Seq<char>>,
}

impl View for JoinedRow {
    type V = JoinedRowV;

    open spec fn view(&self) -> JoinedRowV {
        JoinedRowV {
            id: self.id as int,
            name: self.name@,
            email: self.email@,
            species: match self.species {
                Some(s) => Some(s@),
                None => None,
            },
        }
    }
}

/// A user together with the ordered plants it owns.
#[derive(Debug, PartialEq)]
pub struct UserWithPlants {
    pub user: User,
    pub plants: Vec<Plant>,
}

/// The mathematical shape of a user with its plants.
pub struct UserWithPlantsV {
    pub user: UserV,
    pub plants: Seq<PlantV>,
}

impl UserWithPlantsV {
    /// Every plant in the sequence belongs to the user it is paired with.
    pub open spec fn wf(self) -> bool {
        forall|i: int| 0 <= i < self.plants.len() ==> #[trigger] self.plants[i].user_id == self.user.id
    }
}

impl View for UserWithPlants {
    type V = UserWithPlantsV;

    open spec fn view(&self) -> UserWithPlantsV {
        UserWithPlantsV { user: self.user@, plants: self.plants@.map_values(|p: Plant| p@) }
    }
}

/// The views of a sequence of decoded joined rows.
pub open spec fn joined_rows_view(rows: Seq<JoinedRow>) -> Seq<JoinedRowV> {
    rows.map_values(|r: JoinedRow| r@)
}

/// The views of a sequence of user records.
pub open spec fn users_view(users: Seq<User>) -> Seq<UserV> {
    users.map_values(|u: User| u@)
}

} // verus!
