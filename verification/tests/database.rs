use fiche_de_paie::app::database::{
    listing_message, lookup_message, table_write_message, Database, INSERT_FAILED,
    OPEN_TABLE_FAILED, READ_ENTRY_FAILED, READ_VALUES_FAILED, READ_VALUE_FAILED, REMOVE_FAILED,
};
use fiche_de_paie::app::storage::{EntriesError, TableReadError, TableWriteError};

fn encode(value: &str) -> Vec<u8> {
    bitcode::encode(&value.to_string())
}

fn decode(bytes: Vec<u8>) -> String {
    bitcode::decode::<String>(&bytes).unwrap()
}

#[test]
fn add_puis_get_renvoie_la_valeur() {
    let mut database = Database::in_memory("test_add_puis_get").unwrap();
    let value = database
        .upsert("cle", &encode("valeur"))
        .and_then(|_| database.get("cle"));
    assert_eq!(value.unwrap().map(decode), Some("valeur".to_string()));
}

#[test]
fn get_sur_cle_absente_renvoie_none() {
    let mut database = Database::in_memory("test_get_cle_absente").unwrap();
    let value = database
        .upsert("autre_cle", &encode("valeur"))
        .and_then(|_| database.get("inconnue"));
    assert_eq!(value.unwrap().map(decode), None);
}

#[test]
fn add_ecrase_la_valeur_existante() {
    let mut database = Database::in_memory("test_add_ecrase").unwrap();
    let value = database
        .upsert("cle", &encode("premiere"))
        .and_then(|_| database.upsert("cle", &encode("seconde")))
        .and_then(|_| database.get("cle"));
    assert_eq!(value.unwrap().map(decode), Some("seconde".to_string()));
}

#[test]
fn remove_supprime_la_valeur() {
    let mut database = Database::in_memory("test_remove").unwrap();
    let value = database
        .upsert("cle", &encode("valeur"))
        .and_then(|_| database.remove("cle"))
        .and_then(|_| database.get("cle"));
    assert_eq!(value.unwrap().map(decode), None);
}

#[test]
fn remove_sur_cle_absente_ne_renvoie_pas_derreur() {
    let mut database = Database::in_memory("test_remove_absente").unwrap();
    let value = database.remove("inconnue");
    value.unwrap();
}

#[test]
fn get_all_renvoie_toutes_les_entrees() {
    let mut database = Database::in_memory("test_get_all").unwrap();
    let all = database
        .upsert("a", &encode("1"))
        .and_then(|_| database.upsert("b", &encode("2")))
        .and_then(|_| database.get_all());
    let all: std::collections::HashMap<String, String> = all
        .unwrap()
        .into_iter()
        .map(|(key, value)| (key, decode(value)))
        .collect();
    assert_eq!(all.len(), 2);
    assert_eq!(all.get("a"), Some(&"1".to_string()));
    assert_eq!(all.get("b"), Some(&"2".to_string()));
}

#[test]
fn get_all_renvoie_une_map_vide() {
    let database = Database::in_memory("test_get_all_empty").unwrap();
    let all = database.get_all();
    let all = all.unwrap();
    assert_eq!(all.len(), 0);
}

#[test]
fn contains_suit_les_ecritures() {
    let mut database = Database::in_memory("test_contains").unwrap();
    let before = database.contains("cle");
    let written = database.upsert("cle", &[1, 2, 3]);
    let after = database.contains("cle");
    let removed = database.remove("cle");
    let gone = database.contains("cle");
    assert_eq!(before, Ok(false));
    assert_eq!(written, Ok("cle".to_string()));
    assert_eq!(after, Ok(true));
    assert_eq!(removed, Ok(()));
    assert_eq!(gone, Ok(false));
}

#[test]
fn les_octets_sont_rendus_tels_quels() {
    let mut database = Database::in_memory("test_octets").unwrap();
    let written = database.upsert("vide", &[]);
    let empty = database.get("vide");
    let other = database.upsert("autre", &[0, 255, 7]);
    let all = database.get_all();
    assert_eq!(written, Ok("vide".to_string()));
    assert_eq!(empty, Ok(Some(Vec::new())));
    assert_eq!(other, Ok("autre".to_string()));
    let mut all = all.unwrap();
    all.sort();
    assert_eq!(
        all,
        vec![
            ("autre".to_string(), vec![0, 255, 7]),
            ("vide".to_string(), Vec::new())
        ]
    );
}

#[test]
fn une_base_en_memoire_commence_vide() {
    let database = Database::in_memory("test_memoire").unwrap();
    assert_eq!(database.name(), "test_memoire");
    assert_eq!(database.location(), "");
    assert_eq!(database.get_all().unwrap().len(), 0);
    assert_eq!(database.get("cle"), Ok(None));
}

#[test]
fn chaque_echec_a_son_message() {
    let missing = || redb::TableError::TableDoesNotExist("default".to_string());
    let corrupted = || redb::StorageError::Corrupted("page".to_string());
    assert_eq!(
        table_write_message(&TableWriteError::OpenTable(missing()), INSERT_FAILED),
        "Ouverture de la table."
    );
    assert_eq!(
        table_write_message(&TableWriteError::Write(corrupted()), INSERT_FAILED),
        "Insertion de la valeur."
    );
    assert_eq!(
        table_write_message(&TableWriteError::Write(corrupted()), REMOVE_FAILED),
        "Suppression de la valeur."
    );
    assert_eq!(lookup_message(&TableReadError::OpenTable(missing())), OPEN_TABLE_FAILED);
    assert_eq!(lookup_message(&TableReadError::Read(corrupted())), READ_VALUE_FAILED);
    assert_eq!(listing_message(&EntriesError::OpenTable(missing())), OPEN_TABLE_FAILED);
    assert_eq!(listing_message(&EntriesError::Range(corrupted())), READ_VALUES_FAILED);
    assert_eq!(listing_message(&EntriesError::Entry(corrupted())), READ_ENTRY_FAILED);
}
