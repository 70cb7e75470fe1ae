use talent_management::{RecordStore, RegistryError, TalentManagementContract};

fn s(x: &str) -> String {
    String::from(x)
}

fn strings(xs: &[&str]) -> Vec<String> {
    xs.iter().map(|x| String::from(*x)).collect()
}

fn with_user(id: &str) -> TalentManagementContract {
    let mut reg = TalentManagementContract::new();
    reg.add_user(s(id), s("Ana"), s("Lopez"), s("Diaz"), s("555"), s("ana@x.mx")).unwrap();
    reg
}

#[test]
fn scenario_user_candidate_vote_delete() {
    let mut reg = TalentManagementContract::new();
    assert_eq!(reg.add_user(s("u1"), s("A"), s("B"), s("C"), s("D"), s("E")), Ok(()));
    assert_eq!(reg.get_user(s("u1")), strings(&["A", "B", "C", "D", "E"]));
    assert_eq!(reg.add_candidate(s("c1"), s("u1"), s("RFC123")), Ok(()));
    assert!(reg.authenticate_candidate(s("c1"), s("RFC123")));
    assert!(!reg.authenticate_candidate(s("c1"), s("rfc123")));
    assert_eq!(reg.votar_por_candidato(s("v1"), s("u1"), s("c1"), s("2024-05-01")), Ok(()));
    assert_eq!(
        reg.votar_por_candidato(s("v1"), s("u1"), s("c1"), s("2030-01-01")),
        Err(RegistryError::AlreadyExists)
    );
    assert_eq!(reg.delete_user(s("u1")), Ok(()));
    assert!(reg.authenticate_candidate(s("c1"), s("RFC123")));
    assert_eq!(reg.obtener_voto(s("v1")), strings(&["u1", "c1", "2024-05-01"]));
}

#[test]
fn add_user_twice_fails() {
    let mut reg = with_user("u1");
    assert_eq!(
        reg.add_user(s("u1"), s("X"), s("Y"), s("Z"), s("0"), s("z@z")),
        Err(RegistryError::AlreadyExists)
    );
    assert_eq!(reg.get_user(s("u1")), strings(&["Ana", "Lopez", "Diaz", "555", "ana@x.mx"]));
}

#[test]
fn add_survey_twice_fails() {
    let mut reg = TalentManagementContract::new();
    assert_eq!(
        reg.ingresar_datos_encuesta(s("e1"), s("N"), s("D"), s("C"), s("F"), s("v"), s("c")),
        Ok(())
    );
    assert_eq!(
        reg.ingresar_datos_encuesta(s("e1"), s("N2"), s("D2"), s("C2"), s("F2"), s("v2"), s("c2")),
        Err(RegistryError::AlreadyExists)
    );
}

#[test]
fn add_candidate_twice_fails() {
    let mut reg = with_user("u1");
    reg.add_user(s("u2"), s("B"), s("B"), s("B"), s("B"), s("B")).unwrap();
    assert_eq!(reg.add_candidate(s("c1"), s("u1"), s("R1")), Ok(()));
    assert_eq!(reg.add_candidate(s("c1"), s("u2"), s("R2")), Err(RegistryError::AlreadyExists));
    assert!(reg.authenticate_candidate(s("c1"), s("R1")));
}

#[test]
fn add_admin_twice_fails() {
    let mut reg = with_user("u1");
    assert_eq!(reg.agregar_administrador(s("a1"), s("u1"), s("e1"), s("R1")), Ok(()));
    assert_eq!(
        reg.agregar_administrador(s("a1"), s("u1"), s("e2"), s("R2")),
        Err(RegistryError::AlreadyExists)
    );
    assert!(reg.autenticar_administrador(s("a1"), s("R1")));
}

#[test]
fn update_and_delete_missing_user_not_found() {
    let mut reg = with_user("u1");
    assert_eq!(
        reg.update_user(s("nobody"), s("A"), s("B"), s("C"), s("D"), s("E")),
        Err(RegistryError::NotFound)
    );
    assert_eq!(reg.delete_user(s("nobody")), Err(RegistryError::NotFound));
    assert_eq!(reg.list_users().keys().len(), 1);
}

#[test]
fn update_missing_survey_not_found() {
    let mut reg = TalentManagementContract::new();
    assert_eq!(reg.registrar_candidato(s("e9"), s("c1")), Err(RegistryError::NotFound));
    assert_eq!(
        reg.actualizar_encuesta(s("e9"), s("N"), s("D"), s("F")),
        Err(RegistryError::NotFound)
    );
    assert!(!reg.surveys().contains_key(&s("e9")));
}

#[test]
fn update_user_replaces_all_fields() {
    let mut reg = with_user("u1");
    assert_eq!(reg.update_user(s("u1"), s("A"), s("B"), s("C"), s("D"), s("E")), Ok(()));
    assert_eq!(reg.get_user(s("u1")), strings(&["A", "B", "C", "D", "E"]));
}

#[test]
fn delete_then_get_is_empty() {
    let mut reg = with_user("u1");
    assert_eq!(reg.delete_user(s("u1")), Ok(()));
    assert!(reg.get_user(s("u1")).is_empty());
    assert_eq!(reg.delete_user(s("u1")), Err(RegistryError::NotFound));
}

#[test]
fn get_missing_user_is_empty() {
    let reg = TalentManagementContract::new();
    assert!(reg.get_user(s("u1")).is_empty());
    assert!(reg.obtener_voto(s("v1")).is_empty());
}

#[test]
fn candidate_needs_existing_user() {
    let mut reg = with_user("u1");
    assert_eq!(
        reg.add_candidate(s("c1"), s("u2"), s("R")),
        Err(RegistryError::InvalidReference)
    );
    assert!(!reg.candidates().contains_key(&s("c1")));
}

#[test]
fn reference_checked_before_duplicate() {
    let mut reg = with_user("u1");
    reg.add_candidate(s("c1"), s("u1"), s("R")).unwrap();
    assert_eq!(
        reg.add_candidate(s("c1"), s("ghost"), s("R")),
        Err(RegistryError::InvalidReference)
    );
}

#[test]
fn vote_needs_existing_user_and_candidate() {
    let mut reg = with_user("u1");
    reg.add_candidate(s("c1"), s("u1"), s("R")).unwrap();
    assert_eq!(
        reg.votar_por_candidato(s("v1"), s("u9"), s("c1"), s("d")),
        Err(RegistryError::InvalidReference)
    );
    assert_eq!(
        reg.votar_por_candidato(s("v1"), s("u1"), s("c9"), s("d")),
        Err(RegistryError::InvalidReference)
    );
    assert!(reg.obtener_voto(s("v1")).is_empty());
    assert_eq!(reg.votar_por_candidato(s("v1"), s("u1"), s("c1"), s("d")), Ok(()));
    assert_eq!(reg.listar_votos().keys().len(), 1);
}

#[test]
fn same_user_may_vote_twice_under_new_ids() {
    let mut reg = with_user("u1");
    reg.add_candidate(s("c1"), s("u1"), s("R")).unwrap();
    assert_eq!(reg.votar_por_candidato(s("v1"), s("u1"), s("c1"), s("d")), Ok(()));
    assert_eq!(reg.votar_por_candidato(s("v2"), s("u1"), s("c1"), s("d")), Ok(()));
}

#[test]
fn admin_needs_existing_user() {
    let mut reg = TalentManagementContract::new();
    assert_eq!(
        reg.agregar_administrador(s("a1"), s("u1"), s("e1"), s("R")),
        Err(RegistryError::InvalidReference)
    );
    assert!(!reg.autenticar_administrador(s("a1"), s("R")));
}

#[test]
fn admin_survey_not_checked() {
    let mut reg = with_user("u1");
    assert_eq!(reg.agregar_administrador(s("a1"), s("u1"), s("no-survey"), s("R")), Ok(()));
    assert_eq!(
        reg.admins().get(&s("a1")).cloned(),
        Some(strings(&["u1", "no-survey", "R"]))
    );
}

#[test]
fn assign_candidate_changes_only_winner() {
    let mut reg = TalentManagementContract::new();
    reg.ingresar_datos_encuesta(s("e1"), s("N"), s("D"), s("C"), s("F"), s("v"), s("x"))
        .unwrap();
    assert_eq!(reg.registrar_candidato(s("e1"), s("c7")), Ok(()));
    assert_eq!(
        reg.surveys().get(&s("e1")).cloned(),
        Some(strings(&["N", "D", "C", "F", "v", "c7"]))
    );
}

#[test]
fn update_survey_changes_name_description_end_date() {
    let mut reg = TalentManagementContract::new();
    reg.ingresar_datos_encuesta(s("e1"), s("N"), s("D"), s("C"), s("F"), s("v"), s("x"))
        .unwrap();
    assert_eq!(reg.actualizar_encuesta(s("e1"), s("N2"), s("D2"), s("F2")), Ok(()));
    assert_eq!(
        reg.surveys().get(&s("e1")).cloned(),
        Some(strings(&["N2", "D2", "C", "F2", "v", "x"]))
    );
}

#[test]
fn authenticate_missing_is_false() {
    let reg = TalentManagementContract::new();
    assert!(!reg.authenticate_candidate(s("c1"), s("")));
    assert!(!reg.autenticar_administrador(s("a1"), s("")));
}

#[test]
fn authenticate_is_exact() {
    let mut reg = with_user("u1");
    reg.add_candidate(s("c1"), s("u1"), s("ABC")).unwrap();
    reg.agregar_administrador(s("a1"), s("u1"), s("e1"), s("XYZ")).unwrap();
    assert!(reg.authenticate_candidate(s("c1"), s("ABC")));
    assert!(!reg.authenticate_candidate(s("c1"), s("ABC ")));
    assert!(!reg.authenticate_candidate(s("c1"), s("u1")));
    assert!(reg.autenticar_administrador(s("a1"), s("XYZ")));
    assert!(!reg.autenticar_administrador(s("a1"), s("xyz")));
    assert!(!reg.autenticar_administrador(s("a1"), s("e1")));
}

#[test]
fn record_store_set_get_remove() {
    let mut st = RecordStore::new();
    assert!(!st.contains_key(&s("k")));
    st.set(s("k"), strings(&["a", "b"]));
    st.set(s("j"), strings(&["c"]));
    st.set(s("k"), strings(&["d"]));
    assert_eq!(st.get(&s("k")).cloned(), Some(strings(&["d"])));
    assert_eq!(st.keys().len(), 2);
    st.remove(&s("k"));
    assert!(!st.contains_key(&s("k")));
    assert_eq!(st.get(&s("j")).cloned(), Some(strings(&["c"])));
    st.remove(&s("absent"));
    assert_eq!(st.keys().len(), 1);
    assert!(st.all_have_arity(1));
    assert!(!st.all_have_arity(2));
}

#[test]
fn from_collections_checks_arity() {
    let mut users = RecordStore::new();
    users.set(s("u1"), strings(&["A", "B", "C", "D", "E"]));
    let mut cands = RecordStore::new();
    cands.set(s("c1"), strings(&["u1", "R"]));
    let reg = TalentManagementContract::from_collections(
        users,
        RecordStore::new(),
        cands,
        RecordStore::new(),
        RecordStore::new(),
    )
    .unwrap();
    assert!(reg.authenticate_candidate(s("c1"), s("R")));

    let mut bad = RecordStore::new();
    bad.set(s("c1"), strings(&["u1"]));
    assert!(TalentManagementContract::from_collections(
        RecordStore::new(),
        RecordStore::new(),
        bad,
        RecordStore::new(),
        RecordStore::new(),
    )
    .is_none());
}
