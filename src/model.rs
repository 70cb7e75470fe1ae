use vstd::prelude::*;

use crate::store::{has_arity, Table};

verus! {

/// Why a registry operation was refused.
#[derive(Debug, Clone, Copy, PartialEq, Eq, Structural)]
pub enum RegistryError {
    /// A record was to be created under an identifier already in use.
    AlreadyExists,
    /// A record was to be changed or removed under an identifier not in use.
    NotFound,
    /// A referenced identifier names no record of the referenced collection.
    InvalidReference,
}

/// Outcome of an operation that changes the registry.
pub type Outcome = Result<(), RegistryError>;

/// Number of fields of a user.
pub const USER_ARITY: usize = 5;
/// Number of fields of a survey.
pub const SURVEY_ARITY: usize = 6;
/// Number of fields of a candidate.
pub const CANDIDATE_ARITY: usize = 2;
/// Number of fields of a vote.
pub const VOTE_ARITY: usize = 3;
/// Number of fields of an administrator.
pub const ADMIN_ARITY: usize = 3;

/// Position of a survey's name.
pub const SURVEY_NAME: usize = 0;
/// Position of a survey's description.
pub const SURVEY_DESCRIPTION: usize = 1;
/// Position of a survey's end date.
pub const SURVEY_END_DATE: usize = 3;
/// Position of a survey's winning candidate.
pub const SURVEY_WINNER: usize = 5;

/// Position of the RFC among a candidate's fields.
pub const CANDIDATE_RFC: usize = 1;

/// Position of the RFC among an administrator's fields.
pub const ADMIN_RFC: usize = 2;

/// The abstract state of the registry: its five collections.
pub struct RegistryState {
    pub users: Table,
    pub surveys: Table,
    pub candidates: Table,
    pub votes: Table,
    pub admins: Table,
}

impl RegistryState {
    /// Every collection holds records of its own fixed arity.
    pub open spec fn arities_ok(self) -> bool {
        &&& has_arity(self.users, USER_ARITY as nat)
        &&& has_arity(self.surveys, SURVEY_ARITY as nat)
        &&& has_arity(self.candidates, CANDIDATE_ARITY as nat)
        &&& has_arity(self.votes, VOTE_ARITY as nat)
        &&& has_arity(self.admins, ADMIN_ARITY as nat)
    }

    pub open spec fn with_users(self, t: Table) -> RegistryState {
        RegistryState { users: t, ..self }
    }

    pub open spec fn with_surveys(self, t: Table) -> RegistryState {
        RegistryState { surveys: t, ..self }
    }

    pub open spec fn with_candidates(self, t: Table) -> RegistryState {
        RegistryState { candidates: t, ..self }
    }

    pub open spec fn with_votes(self, t: Table) -> RegistryState {
        RegistryState { votes: t, ..self }
    }

    pub open spec fn with_admins(self, t: Table) -> RegistryState {
        RegistryState { admins: t, ..self }
    }
}

/// Creation: refused if `id` is in use, else `row` is stored under it.
pub open spec fn insert_new(t: Table, id: Seq<char>, row: Seq<Seq<char>>) -> (Table, Outcome) {
    if t.contains_key(id) {
        (t, Err(RegistryError::AlreadyExists))
    } else {
        (t.insert(id, row), Ok(()))
    }
}

/// Replacement: refused if `id` is not in use, else `row` replaces its record.
pub open spec fn replace_existing(t: Table, id: Seq<char>, row: Seq<Seq<char>>) -> (Table, Outcome) {
    if t.contains_key(id) {
        (t.insert(id, row), Ok(()))
    } else {
        (t, Err(RegistryError::NotFound))
    }
}

/// The fields stored under `id`, or none if `id` is not in use.
pub open spec fn lookup(t: Table, id: Seq<char>) -> Seq<Seq<char>> {
    if t.contains_key(id) {
        t[id]
    } else {
        Seq::empty()
    }
}

/// Whether `id` is in use and its field at `pos` is exactly `rfc`.
pub open spec fn authenticated(t: Table, id: Seq<char>, pos: int, rfc: Seq<char>) -> bool {
    t.contains_key(id) && t[id][pos] == rfc
}

/// Creating a user: its five fields stored under a fresh identifier.
pub open spec fn add_user_op(
    s: RegistryState,
    id: Seq<char>,
    first_name: Seq<char>,
    paternal_last_name: Seq<char>,
    maternal_last_name: Seq<char>,
    phone: Seq<char>,
    email: Seq<char>,
) -> (RegistryState, Outcome) {
    let (t, r) = insert_new(
        s.users,
        id,
        seq![first_name, paternal_last_name, maternal_last_name, phone, email],
    );
    (s.with_users(t), r)
}

/// Updating a user: all five fields of an existing user replaced.
pub open spec fn update_user_op(
    s: RegistryState,
    id: Seq<char>,
    first_name: Seq<char>,
    paternal_last_name: Seq<char>,
    maternal_last_name: Seq<char>,
    phone: Seq<char>,
    email: Seq<char>,
) -> (RegistryState, Outcome) {
    let (t, r) = replace_existing(
        s.users,
        id,
        seq![first_name, paternal_last_name, maternal_last_name, phone, email],
    );
    (s.with_users(t), r)
}

/// Deleting an existing user, and only it.
pub open spec fn delete_user_op(s: RegistryState, id: Seq<char>) -> (RegistryState, Outcome) {
    if s.users.contains_key(id) {
        (s.with_users(s.users.remove(id)), Ok(()))
    } else {
        (s, Err(RegistryError::NotFound))
    }
}

/// Creating a survey: its six fields stored under a fresh identifier.
pub open spec fn add_survey_op(
    s: RegistryState,
    id: Seq<char>,
    name: Seq<char>,
    description: Seq<char>,
    creation_date: Seq<char>,
    end_date: Seq<char>,
    vote_id: Seq<char>,
    candidate_id: Seq<char>,
) -> (RegistryState, Outcome) {
    let (t, r) = insert_new(
        s.surveys,
        id,
        seq![name, description, creation_date, end_date, vote_id, candidate_id],
    );
    (s.with_surveys(t), r)
}

/// Setting the winning candidate of an existing survey.
pub open spec fn assign_candidate_op(s: RegistryState, id: Seq<char>, candidate_id: Seq<char>) -> (
    RegistryState,
    Outcome,
) {
    let row = lookup(s.surveys, id).update(SURVEY_WINNER as int, candidate_id);
    let (t, r) = replace_existing(s.surveys, id, row);
    (s.with_surveys(t), r)
}

/// Setting the name, description and end date of an existing survey.
pub open spec fn update_survey_op(
    s: RegistryState,
    id: Seq<char>,
    name: Seq<char>,
    description: Seq<char>,
    end_date: Seq<char>,
) -> (RegistryState, Outcome) {
    let row = lookup(s.surveys, id).update(SURVEY_NAME as int, name).update(
        SURVEY_DESCRIPTION as int,
        description,
    ).update(SURVEY_END_DATE as int, end_date);
    let (t, r) = replace_existing(s.surveys, id, row);
    (s.with_surveys(t), r)
}

/// Registering a candidate for an existing user under a fresh identifier.
pub open spec fn add_candidate_op(
    s: RegistryState,
    id: Seq<char>,
    user_id: Seq<char>,
    rfc: Seq<char>,
) -> (RegistryState, Outcome) {
    if !s.users.contains_key(user_id) {
        (s, Err(RegistryError::InvalidReference))
    } else {
        let (t, r) = insert_new(s.candidates, id, seq![user_id, rfc]);
        (s.with_candidates(t), r)
    }
}

/// Casting a vote of an existing user for an existing candidate under a
/// fresh identifier.
pub open spec fn cast_vote_op(
    s: RegistryState,
    id: Seq<char>,
    user_id: Seq<char>,
    candidate_id: Seq<char>,
    vote_date: Seq<char>,
) -> (RegistryState, Outcome) {
    if !s.users.contains_key(user_id) || !s.candidates.contains_key(candidate_id) {
        (s, Err(RegistryError::InvalidReference))
    } else {
        let (t, r) = insert_new(s.votes, id, seq![user_id, candidate_id, vote_date]);
        (s.with_votes(t), r)
    }
}

/// Registering an administrator for an existing user under a fresh
/// identifier; the survey is not checked.
pub open spec fn add_admin_op(
    s: RegistryState,
    id: Seq<char>,
    user_id: Seq<char>,
    survey_id: Seq<char>,
    rfc: Seq<char>,
) -> (RegistryState, Outcome) {
    if !s.users.contains_key(user_id) {
        (s, Err(RegistryError::InvalidReference))
    } else {
        let (t, r) = insert_new(s.admins, id, seq![user_id, survey_id, rfc]);
        (s.with_admins(t), r)
    }
}

} // verus!
