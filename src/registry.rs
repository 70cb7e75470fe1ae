use vstd::prelude::*;

use crate::model::{
    add_admin_op, add_candidate_op, add_survey_op, add_user_op, assign_candidate_op,
    authenticated, cast_vote_op, delete_user_op, lookup, update_survey_op, update_user_op, Outcome,
    RegistryError, RegistryState, ADMIN_ARITY, ADMIN_RFC, CANDIDATE_ARITY, CANDIDATE_RFC,
    SURVEY_ARITY, SURVEY_DESCRIPTION, SURVEY_END_DATE, SURVEY_NAME, SURVEY_WINNER, USER_ARITY,
    VOTE_ARITY,
};
use crate::store::{copy_fields, fields_view, RecordStore, Table};

verus! {

/// The registry of users, surveys, candidates, votes and administrators,
/// each kind of record in a collection of its own.
pub struct TalentManagementContract {
    users: RecordStore,
    surveys: RecordStore,
    candidates: RecordStore,
    votes: RecordStore,
    admins: RecordStore,
}

impl View for TalentManagementContract {
    type V = RegistryState;

    closed spec fn view(&self) -> RegistryState {
        RegistryState {
            users: self.users@,
            surveys: self.surveys@,
            candidates: self.candidates@,
            votes: self.votes@,
            admins: self.admins@,
        }
    }
}

fn row_of_two(a: String, b: String) -> (r: Vec<String>)
    ensures
        fields_view(r@) == seq![a@, b@],
{
    let mut r: Vec<String> = Vec::new();
    r.push(a);
    r.push(b);
    assert(fields_view(r@) =~= seq![a@, b@]);
    r
}

fn row_of_three(a: String, b: String, c: String) -> (r: Vec<String>)
    ensures
        fields_view(r@) == seq![a@, b@, c@],
{
    let mut r: Vec<String> = Vec::new();
    r.push(a);
    r.push(b);
    r.push(c);
    assert(fields_view(r@) =~= seq![a@, b@, c@]);
    r
}

fn row_of_five(a: String, b: String, c: String, d: String, e: String) -> (r: Vec<String>)
    ensures
        fields_view(r@) == seq![a@, b@, c@, d@, e@],
{
    let mut r: Vec<String> = Vec::new();
    r.push(a);
    r.push(b);
    r.push(c);
    r.push(d);
    r.push(e);
    assert(fields_view(r@) =~= seq![a@, b@, c@, d@, e@]);
    r
}

impl TalentManagementContract {
    /// Each collection is well formed and holds records of its own arity.
    pub closed spec fn wf(&self) -> bool {
        &&& self.users.wf()
        &&& self.surveys.wf()
        &&& self.candidates.wf()
        &&& self.votes.wf()
        &&& self.admins.wf()
        &&& self@.arities_ok()
    }

    /// A registry with every collection empty.
    pub fn new() -> (r: Self)
        ensures
            r.wf(),
            r@.users == Table::empty(),
            r@.surveys == Table::empty(),
            r@.candidates == Table::empty(),
            r@.votes == Table::empty(),
            r@.admins == Table::empty(),
    {
        TalentManagementContract {
            users: RecordStore::new(),
            surveys: RecordStore::new(),
            candidates: RecordStore::new(),
            votes: RecordStore::new(),
            admins: RecordStore::new(),
        }
    }

    /// A registry over collections that were stored before; `None` if a
    /// collection holds a record of the wrong arity.
    pub fn from_collections(
        users: RecordStore,
        surveys: RecordStore,
        candidates: RecordStore,
        votes: RecordStore,
        admins: RecordStore,
    ) -> (r: Option<Self>)
        requires
            users.wf(),
            surveys.wf(),
            candidates.wf(),
            votes.wf(),
            admins.wf(),
        ensures
            match r {
                Some(reg) => reg.wf() && reg@ == (RegistryState {
                    users: users@,
                    surveys: surveys@,
                    candidates: candidates@,
                    votes: votes@,
                    admins: admins@,
                }),
                None => !(RegistryState {
                    users: users@,
                    surveys: surveys@,
                    candidates: candidates@,
                    votes: votes@,
                    admins: admins@,
                }).arities_ok(),
            },
    {
        if users.all_have_arity(USER_ARITY) && surveys.all_have_arity(SURVEY_ARITY)
            && candidates.all_have_arity(CANDIDATE_ARITY) && votes.all_have_arity(VOTE_ARITY)
            && admins.all_have_arity(ADMIN_ARITY) {
            Some(TalentManagementContract { users, surveys, candidates, votes, admins })
        } else {
            None
        }
    }

    /// Registers a user; refused with `AlreadyExists` if `user_id` is in use.
    pub fn add_user(
        &mut self,
        user_id: String,
        first_name: String,
        paternal_last_name: String,
        maternal_last_name: String,
        phone: String,
        email: String,
    ) -> (r: Outcome)
        requires
            old(self).wf(),
        ensures
            final(self).wf(),
            (final(self)@, r) == add_user_op(
                old(self)@,
                user_id@,
                first_name@,
                paternal_last_name@,
                maternal_last_name@,
                phone@,
                email@,
            ),
    {
        if self.users.contains_key(&user_id) {
            return Err(RegistryError::AlreadyExists);
        }
        let row = row_of_five(first_name, paternal_last_name, maternal_last_name, phone, email);
        self.users.set(user_id, row);
        assert(self@ == old(self)@.with_users(self.users@));
        Ok(())
    }

    /// The fields of user `user_id`, or no fields if there is no such user.
    pub fn get_user(&self, user_id: String) -> (r: Vec<String>)
        requires
            self.wf(),
        ensures
            fields_view(r@) == lookup(self@.users, user_id@),
    {
        match self.users.get(&user_id) {
            Some(row) => copy_fields(row),
            None => {
                let r: Vec<String> = Vec::new();
                assert(fields_view(r@) =~= Seq::empty());
                r
            },
        }
    }

    /// Replaces all fields of user `user_id`; refused with `NotFound` if
    /// there is no such user.
    pub fn update_user(
        &mut self,
        user_id: String,
        new_first_name: String,
        new_paternal_last_name: String,
        new_maternal_last_name: String,
        new_phone: String,
        new_email: String,
    ) -> (r: Outcome)
        requires
            old(self).wf(),
        ensures
            final(self).wf(),
            (final(self)@, r) == update_user_op(
                old(self)@,
                user_id@,
                new_first_name@,
                new_paternal_last_name@,
                new_maternal_last_name@,
                new_phone@,
                new_email@,
            ),
    {
        if !self.users.contains_key(&user_id) {
            return Err(RegistryError::NotFound);
        }
        let row = row_of_five(
            new_first_name,
            new_paternal_last_name,
            new_maternal_last_name,
            new_phone,
            new_email,
        );
        self.users.set(user_id, row);
        assert(self@ == old(self)@.with_users(self.users@));
        Ok(())
    }

    /// Removes user `user_id`; refused with `NotFound` if there is no such
    /// user. Records that refer to the user are kept.
    pub fn delete_user(&mut self, user_id: String) -> (r: Outcome)
        requires
            old(self).wf(),
        ensures
            final(self).wf(),
            (final(self)@, r) == delete_user_op(old(self)@, user_id@),
    {
        if !self.users.contains_key(&user_id) {
            return Err(RegistryError::NotFound);
        }
        self.users.remove(&user_id);
        assert(self@ == old(self)@.with_users(self.users@));
        Ok(())
    }

    /// All users.
    pub fn list_users(&self) -> (r: &RecordStore)
        requires
            self.wf(),
        ensures
            r.wf(),
            r@ == self@.users,
    {
        &self.users
    }

    /// Creates a survey with all six of its fields; refused with
    /// `AlreadyExists` if `id_encuesta` is in use.
    pub fn ingresar_datos_encuesta(
        &mut self,
        id_encuesta: String,
        nombre_encuesta: String,
        descripcion: String,
        fecha_creacion: String,
        fecha_culminacion: String,
        id_voto: String,
        id_candidato: String,
    ) -> (r: Outcome)
        requires
            old(self).wf(),
        ensures
            final(self).wf(),
            (final(self)@, r) == add_survey_op(
                old(self)@,
                id_encuesta@,
                nombre_encuesta@,
                descripcion@,
                fecha_creacion@,
                fecha_culminacion@,
                id_voto@,
                id_candidato@,
            ),
    {
        if self.surveys.contains_key(&id_encuesta) {
            return Err(RegistryError::AlreadyExists);
        }
        let mut row: Vec<String> = Vec::new();
        row.push(nombre_encuesta);
        row.push(descripcion);
        row.push(fecha_creacion);
        row.push(fecha_culminacion);
        row.push(id_voto);
        row.push(id_candidato);
        assert(fields_view(row@) =~= seq![
            nombre_encuesta@,
            descripcion@,
            fecha_creacion@,
            fecha_culminacion@,
            id_voto@,
            id_candidato@,
        ]);
        self.surveys.set(id_encuesta, row);
        assert(self@ == old(self)@.with_surveys(self.surveys@));
        Ok(())
    }

    /// Sets the winning candidate of survey `id_encuesta`, leaving its other
    /// fields as they were; refused with `NotFound` if there is no such survey.
    pub fn registrar_candidato(&mut self, id_encuesta: String, id_candidato: String) -> (r:
        Outcome)
        requires
            old(self).wf(),
        ensures
            final(self).wf(),
            (final(self)@, r) == assign_candidate_op(old(self)@, id_encuesta@, id_candidato@),
    {
        let mut row = match self.surveys.get(&id_encuesta) {
            Some(row) => copy_fields(row),
            None => return Err(RegistryError::NotFound),
        };
        let ghost before = fields_view(row@);
        assert(before.len() == row@.len());
        row.set(SURVEY_WINNER, id_candidato);
        assert(fields_view(row@) =~= before.update(SURVEY_WINNER as int, id_candidato@));
        self.surveys.set(id_encuesta, row);
        assert(self@ == old(self)@.with_surveys(self.surveys@));
        Ok(())
    }

    /// Replaces the name, description and end date of survey `id_encuesta`,
    /// leaving its other fields as they were; refused with `NotFound` if
    /// there is no such survey.
    pub fn actualizar_encuesta(
        &mut self,
        id_encuesta: String,
        nombre_encuesta: String,
        descripcion: String,
        fecha_culminacion: String,
    ) -> (r: Outcome)
        requires
            old(self).wf(),
        ensures
            final(self).wf(),
            (final(self)@, r) == update_survey_op(
                old(self)@,
                id_encuesta@,
                nombre_encuesta@,
                descripcion@,
                fecha_culminacion@,
            ),
    {
        let mut row = match self.surveys.get(&id_encuesta) {
            Some(row) => copy_fields(row),
            None => return Err(RegistryError::NotFound),
        };
        let ghost before = fields_view(row@);
        assert(before.len() == row@.len());
        row.set(SURVEY_NAME, nombre_encuesta);
        row.set(SURVEY_DESCRIPTION, descripcion);
        row.set(SURVEY_END_DATE, fecha_culminacion);
        assert(fields_view(row@) =~= before.update(SURVEY_NAME as int, nombre_encuesta@).update(
            SURVEY_DESCRIPTION as int,
            descripcion@,
        ).update(SURVEY_END_DATE as int, fecha_culminacion@));
        self.surveys.set(id_encuesta, row);
        assert(self@ == old(self)@.with_surveys(self.surveys@));
        Ok(())
    }

    /// Registers candidate `candidate_id` for user `user_id`; refused with
    /// `InvalidReference` if there is no such user, else with `AlreadyExists`
    /// if `candidate_id` is in use.
    pub fn add_candidate(&mut self, candidate_id: String, user_id: String, rfc: String) -> (r:
        Outcome)
        requires
            old(self).wf(),
        ensures
            final(self).wf(),
            (final(self)@, r) == add_candidate_op(old(self)@, candidate_id@, user_id@, rfc@),
    {
        if !self.users.contains_key(&user_id) {
            return Err(RegistryError::InvalidReference);
        }
        if self.candidates.contains_key(&candidate_id) {
            return Err(RegistryError::AlreadyExists);
        }
        let row = row_of_two(user_id, rfc);
        self.candidates.set(candidate_id, row);
        assert(self@ == old(self)@.with_candidates(self.candidates@));
        Ok(())
    }

    /// Whether candidate `candidate_id` exists and its RFC is exactly `rfc`.
    pub fn authenticate_candidate(&self, candidate_id: String, rfc: String) -> (r: bool)
        requires
            self.wf(),
        ensures
            r == authenticated(self@.candidates, candidate_id@, CANDIDATE_RFC as int, rfc@),
    {
        match self.candidates.get(&candidate_id) {
            Some(row) => {
                assert(fields_view(row@)[CANDIDATE_RFC as int] == row@[CANDIDATE_RFC as int]@);
                row[CANDIDATE_RFC] == rfc
            },
            None => false,
        }
    }

    /// Records vote `id_voto` of user `id_usuario` for candidate
    /// `id_candidato`; refused with `InvalidReference` if the user or the
    /// candidate does not exist, else with `AlreadyExists` if `id_voto` is in use.
    pub fn votar_por_candidato(
        &mut self,
        id_voto: String,
        id_usuario: String,
        id_candidato: String,
        fecha_voto: String,
    ) -> (r: Outcome)
        requires
            old(self).wf(),
        ensures
            final(self).wf(),
            (final(self)@, r) == cast_vote_op(
                old(self)@,
                id_voto@,
                id_usuario@,
                id_candidato@,
                fecha_voto@,
            ),
    {
        if !self.users.contains_key(&id_usuario) {
            return Err(RegistryError::InvalidReference);
        }
        if !self.candidates.contains_key(&id_candidato) {
            return Err(RegistryError::InvalidReference);
        }
        if self.votes.contains_key(&id_voto) {
            return Err(RegistryError::AlreadyExists);
        }
        let row = row_of_three(id_usuario, id_candidato, fecha_voto);
        self.votes.set(id_voto, row);
        assert(self@ == old(self)@.with_votes(self.votes@));
        Ok(())
    }

    /// The fields of vote `id_voto`, or no fields if there is no such vote.
    pub fn obtener_voto(&self, id_voto: String) -> (r: Vec<String>)
        requires
            self.wf(),
        ensures
            fields_view(r@) == lookup(self@.votes, id_voto@),
    {
        match self.votes.get(&id_voto) {
            Some(row) => copy_fields(row),
            None => {
                let r: Vec<String> = Vec::new();
                assert(fields_view(r@) =~= Seq::empty());
                r
            },
        }
    }

    /// All votes.
    pub fn listar_votos(&self) -> (r: &RecordStore)
        requires
            self.wf(),
        ensures
            r.wf(),
            r@ == self@.votes,
    {
        &self.votes
    }

    /// Registers administrator `id_administrador` for user `id_usuario`;
    /// refused with `InvalidReference` if there is no such user, else with
    /// `AlreadyExists` if `id_administrador` is in use. The survey is stored
    /// as given.
    pub fn agregar_administrador(
        &mut self,
        id_administrador: String,
        id_usuario: String,
        id_encuesta: String,
        rfc: String,
    ) -> (r: Outcome)
        requires
            old(self).wf(),
        ensures
            final(self).wf(),
            (final(self)@, r) == add_admin_op(
                old(self)@,
                id_administrador@,
                id_usuario@,
                id_encuesta@,
                rfc@,
            ),
    {
        if !self.users.contains_key(&id_usuario) {
            return Err(RegistryError::InvalidReference);
        }
        if self.admins.contains_key(&id_administrador) {
            return Err(RegistryError::AlreadyExists);
        }
        let row = row_of_three(id_usuario, id_encuesta, rfc);
        self.admins.set(id_administrador, row);
        assert(self@ == old(self)@.with_admins(self.admins@));
        Ok(())
    }

    /// Whether administrator `id_administrador` exists and its RFC is
    /// exactly `rfc`.
    pub fn autenticar_administrador(&self, id_administrador: String, rfc: String) -> (r: bool)
        requires
            self.wf(),
        ensures
            r == authenticated(self@.admins, id_administrador@, ADMIN_RFC as int, rfc@),
    {
        match self.admins.get(&id_administrador) {
            Some(row) => {
                assert(fields_view(row@)[ADMIN_RFC as int] == row@[ADMIN_RFC as int]@);
                row[ADMIN_RFC] == rfc
            },
            None => false,
        }
    }
    /// All surveys.
    pub fn surveys(&self) -> (r: &RecordStore)
        requires
            self.wf(),
        ensures
            r.wf(),
            r@ == self@.surveys,
    {
        &self.surveys
    }

    /// All candidates.
    pub fn candidates(&self) -> (r: &RecordStore)
        requires
            self.wf(),
        ensures
            r.wf(),
            r@ == self@.candidates,
    {
        &self.candidates
    }

    /// All administrators.
    pub fn admins(&self) -> (r: &RecordStore)
        requires
            self.wf(),
        ensures
            r.wf(),
            r@ == self@.admins,
    {
        &self.admins
    }
}

} // verus!
