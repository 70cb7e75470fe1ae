use vstd::prelude::*;

use crate::model::{
    add_admin_op, add_candidate_op, add_survey_op, add_user_op, assign_candidate_op,
    cast_vote_op, delete_user_op, update_survey_op, update_user_op, RegistryError, RegistryState,
    SURVEY_ARITY, SURVEY_WINNER,
};

verus! {

/// Creating a user twice under one identifier fails the second time with
/// `AlreadyExists`, whatever the fields of either call.
pub proof fn lemma_add_user_twice(
    s: RegistryState,
    id: Seq<char>,
    a: Seq<Seq<char>>,
    b: Seq<Seq<char>>,
)
    requires
        a.len() == 5,
        b.len() == 5,
    ensures
        ({
            let s1 = add_user_op(s, id, a[0], a[1], a[2], a[3], a[4]).0;
            add_user_op(s1, id, b[0], b[1], b[2], b[3], b[4]) == (
            s1,
            Err::<(), RegistryError>(RegistryError::AlreadyExists),
            )
        }),
{
}

/// Creating a survey twice under one identifier fails the second time with
/// `AlreadyExists`, whatever the fields of either call.
pub proof fn lemma_add_survey_twice(
    s: RegistryState,
    id: Seq<char>,
    a: Seq<Seq<char>>,
    b: Seq<Seq<char>>,
)
    requires
        a.len() == 6,
        b.len() == 6,
    ensures
        ({
            let s1 = add_survey_op(s, id, a[0], a[1], a[2], a[3], a[4], a[5]).0;
            add_survey_op(s1, id, b[0], b[1], b[2], b[3], b[4], b[5]) == (
            s1,
            Err::<(), RegistryError>(RegistryError::AlreadyExists),
            )
        }),
{
}

/// Registering a candidate twice under one identifier fails the second time
/// with `AlreadyExists`, whatever the RFCs, as long as both calls name
/// existing users.
pub proof fn lemma_add_candidate_twice(
    s: RegistryState,
    id: Seq<char>,
    user_a: Seq<char>,
    rfc_a: Seq<char>,
    user_b: Seq<char>,
    rfc_b: Seq<char>,
)
    requires
        s.users.contains_key(user_a),
        s.users.contains_key(user_b),
    ensures
        ({
            let s1 = add_candidate_op(s, id, user_a, rfc_a).0;
            add_candidate_op(s1, id, user_b, rfc_b) == (
            s1,
            Err::<(), RegistryError>(RegistryError::AlreadyExists),
            )
        }),
{
}

/// Casting a vote twice under one identifier fails the second time with
/// `AlreadyExists`, whatever the dates, as long as both calls name an
/// existing user and an existing candidate.
pub proof fn lemma_cast_vote_twice(
    s: RegistryState,
    id: Seq<char>,
    user_a: Seq<char>,
    candidate_a: Seq<char>,
    date_a: Seq<char>,
    user_b: Seq<char>,
    candidate_b: Seq<char>,
    date_b: Seq<char>,
)
    requires
        s.users.contains_key(user_a),
        s.users.contains_key(user_b),
        s.candidates.contains_key(candidate_a),
        s.candidates.contains_key(candidate_b),
    ensures
        ({
            let s1 = cast_vote_op(s, id, user_a, candidate_a, date_a).0;
            cast_vote_op(s1, id, user_b, candidate_b, date_b) == (
            s1,
            Err::<(), RegistryError>(RegistryError::AlreadyExists),
            )
        }),
{
}

/// Registering an administrator twice under one identifier fails the second
/// time with `AlreadyExists`, whatever the surveys and RFCs, as long as both
/// calls name existing users.
pub proof fn lemma_add_admin_twice(
    s: RegistryState,
    id: Seq<char>,
    user_a: Seq<char>,
    survey_a: Seq<char>,
    rfc_a: Seq<char>,
    user_b: Seq<char>,
    survey_b: Seq<char>,
    rfc_b: Seq<char>,
)
    requires
        s.users.contains_key(user_a),
        s.users.contains_key(user_b),
    ensures
        ({
            let s1 = add_admin_op(s, id, user_a, survey_a, rfc_a).0;
            add_admin_op(s1, id, user_b, survey_b, rfc_b) == (
            s1,
            Err::<(), RegistryError>(RegistryError::AlreadyExists),
            )
        }),
{
}

/// Updating or deleting a user that does not exist fails with `NotFound`
/// and changes nothing.
pub proof fn lemma_missing_user_not_found(s: RegistryState, id: Seq<char>, f: Seq<Seq<char>>)
    requires
        f.len() == 5,
        !s.users.contains_key(id),
    ensures
        update_user_op(s, id, f[0], f[1], f[2], f[3], f[4]) == (
        s,
        Err::<(), RegistryError>(RegistryError::NotFound),
        ),
        delete_user_op(s, id) == (s, Err::<(), RegistryError>(RegistryError::NotFound)),
{
    assert(s.with_users(s.users) == s);
}

/// Updating a survey that does not exist, in either way, fails with
/// `NotFound` and changes nothing.
pub proof fn lemma_missing_survey_not_found(
    s: RegistryState,
    id: Seq<char>,
    candidate_id: Seq<char>,
    name: Seq<char>,
    description: Seq<char>,
    end_date: Seq<char>,
)
    requires
        !s.surveys.contains_key(id),
    ensures
        assign_candidate_op(s, id, candidate_id) == (
        s,
        Err::<(), RegistryError>(RegistryError::NotFound),
        ),
        update_survey_op(s, id, name, description, end_date) == (
        s,
        Err::<(), RegistryError>(RegistryError::NotFound),
        ),
{
    assert(s.with_surveys(s.surveys) == s);
}

/// A candidate that names a user who does not exist is refused with
/// `InvalidReference`, and nothing changes.
pub proof fn lemma_candidate_needs_user(
    s: RegistryState,
    id: Seq<char>,
    user_id: Seq<char>,
    rfc: Seq<char>,
)
    requires
        !s.users.contains_key(user_id),
    ensures
        add_candidate_op(s, id, user_id, rfc) == (
        s,
        Err::<(), RegistryError>(RegistryError::InvalidReference),
        ),
{
}

/// A vote that names a user or a candidate that does not exist is refused
/// with `InvalidReference`, and nothing changes.
pub proof fn lemma_vote_needs_user_and_candidate(
    s: RegistryState,
    id: Seq<char>,
    user_id: Seq<char>,
    candidate_id: Seq<char>,
    vote_date: Seq<char>,
)
    requires
        !s.users.contains_key(user_id) || !s.candidates.contains_key(candidate_id),
    ensures
        cast_vote_op(s, id, user_id, candidate_id, vote_date) == (
        s,
        Err::<(), RegistryError>(RegistryError::InvalidReference),
        ),
{
}

/// An administrator that names a user who does not exist is refused with
/// `InvalidReference`, and nothing changes.
pub proof fn lemma_admin_needs_user(
    s: RegistryState,
    id: Seq<char>,
    user_id: Seq<char>,
    survey_id: Seq<char>,
    rfc: Seq<char>,
)
    requires
        !s.users.contains_key(user_id),
    ensures
        add_admin_op(s, id, user_id, survey_id, rfc) == (
        s,
        Err::<(), RegistryError>(RegistryError::InvalidReference),
        ),
{
}

/// Assigning the winning candidate of an existing survey succeeds, sets its
/// last field and leaves its first five fields, every other survey and
/// every other collection exactly as they were.
pub proof fn lemma_assign_candidate_isolation(
    s: RegistryState,
    id: Seq<char>,
    candidate_id: Seq<char>,
)
    requires
        s.arities_ok(),
        s.surveys.contains_key(id),
    ensures
        ({
            let (s1, r) = assign_candidate_op(s, id, candidate_id);
            &&& r == Ok::<(), RegistryError>(())
            &&& s1.surveys.contains_key(id)
            &&& s1.surveys[id].len() == SURVEY_ARITY
            &&& forall|i: int|
                0 <= i < SURVEY_WINNER ==> #[trigger] s1.surveys[id][i] == s.surveys[id][i]
            &&& s1.surveys[id][SURVEY_WINNER as int] == candidate_id
            &&& s1.surveys.remove(id) == s.surveys.remove(id)
            &&& s1.users == s.users
            &&& s1.candidates == s.candidates
            &&& s1.votes == s.votes
            &&& s1.admins == s.admins
        }),
{
    let s1 = assign_candidate_op(s, id, candidate_id).0;
    assert(s1.surveys.remove(id) =~= s.surveys.remove(id));
}

/// Updating an existing survey succeeds, sets its name, description and end
/// date, and leaves its creation date, vote and winning candidate, every
/// other survey and every other collection exactly as they were.
pub proof fn lemma_update_survey_isolation(
    s: RegistryState,
    id: Seq<char>,
    name: Seq<char>,
    description: Seq<char>,
    end_date: Seq<char>,
)
    requires
        s.arities_ok(),
        s.surveys.contains_key(id),
    ensures
        ({
            let (s1, r) = update_survey_op(s, id, name, description, end_date);
            &&& r == Ok::<(), RegistryError>(())
            &&& s1.surveys.contains_key(id)
            &&& s1.surveys[id] == seq![
                name,
                description,
                s.surveys[id][2],
                end_date,
                s.surveys[id][4],
                s.surveys[id][5],
            ]
            &&& s1.surveys.remove(id) == s.surveys.remove(id)
            &&& s1.users == s.users
            &&& s1.candidates == s.candidates
            &&& s1.votes == s.votes
            &&& s1.admins == s.admins
        }),
{
    let s1 = update_survey_op(s, id, name, description, end_date).0;
    assert(s1.surveys[id] =~= seq![
        name,
        description,
        s.surveys[id][2],
        end_date,
        s.surveys[id][4],
        s.surveys[id][5],
    ]);
    assert(s1.surveys.remove(id) =~= s.surveys.remove(id));
}

/// Deleting a user removes only that user: surveys, candidates, votes and
/// administrators that refer to it are kept as they were.
pub proof fn lemma_delete_user_keeps_references(s: RegistryState, id: Seq<char>)
    ensures
        ({
            let s1 = delete_user_op(s, id).0;
            &&& s1.users == s.users.remove(id)
            &&& s1.surveys == s.surveys
            &&& s1.candidates == s.candidates
            &&& s1.votes == s.votes
            &&& s1.admins == s.admins
        }),
{
    if !s.users.contains_key(id) {
        assert(s.users.remove(id) =~= s.users);
    }
}

} // verus!
