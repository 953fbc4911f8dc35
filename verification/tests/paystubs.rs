use fiche_de_paie::app::paystubs::{Paystub, PaystubError, PaystubRepository};
use std::collections::HashMap;

fn file_of(paystub: &Paystub) -> &str {
    match paystub {
        Paystub::Pending { file, .. } => file,
        Paystub::Processing { file, .. } => file,
        Paystub::ProcessingError { file, .. } => file,
        Paystub::Completed { file, .. } => file,
    }
}

fn transition(error: PaystubError) -> (&'static str, &'static str) {
    match error {
        PaystubError::Transition { from, to } => (from, to),
        PaystubError::Database(message) => panic!("unexpected database error: {message}"),
    }
}

#[test]
fn une_fiche_creee_est_en_attente() {
    let paystub = Paystub::pending("janvier.pdf".to_string());
    assert!(matches!(paystub, Paystub::Pending { .. }));
    assert_eq!(file_of(&paystub), "janvier.pdf");
    let dated = Paystub::pending_at("mars.pdf".to_string(), 42);
    assert!(matches!(dated, Paystub::Pending { since: 42, .. }));
}

#[test]
fn le_cycle_complet_garde_le_fichier() {
    let pending = Paystub::pending_at("fevrier.pdf".to_string(), 1);
    let processing = pending.to_processing_at(2).unwrap();
    assert!(matches!(processing, Paystub::Processing { since: 2, .. }));
    let failed = processing.to_processing_error_at("illisible", 3).unwrap();
    match &failed {
        Paystub::ProcessingError { error, retry, since, .. } => {
            assert_eq!(error, "illisible");
            assert_eq!(*retry, 1);
            assert_eq!(*since, 3);
        }
        _ => panic!("expected ProcessingError"),
    }
    let mut datas = HashMap::new();
    datas.insert("net".to_string(), 2150.5f32.to_bits());
    let completed = failed.to_completed_at(datas, 4).unwrap();
    match &completed {
        Paystub::Completed { datas, since, .. } => {
            assert_eq!(*since, 4);
            assert_eq!(f32::from_bits(datas["net"]), 2150.5);
        }
        _ => panic!("expected Completed"),
    }
    assert_eq!(file_of(&completed), "fevrier.pdf");
}

#[test]
fn chaque_echec_incremente_retry() {
    let mut paystub = Paystub::pending_at("avril.pdf".to_string(), 0)
        .to_processing_at(0)
        .unwrap();
    for attempt in 1..=5u8 {
        paystub = paystub.to_processing_error("echec").unwrap();
        match &paystub {
            Paystub::ProcessingError { retry, .. } => assert_eq!(*retry, attempt),
            _ => panic!("expected ProcessingError"),
        }
    }
}

#[test]
fn les_transitions_interdites_sont_refusees() {
    let pending = Paystub::pending_at("mai.pdf".to_string(), 0);
    assert_eq!(
        transition(pending.to_processing_error("x").err().unwrap()),
        ("Pending", "ProcessingError")
    );
    assert_eq!(
        transition(pending.to_completed(HashMap::new()).err().unwrap()),
        ("Pending", "Completed")
    );
    let processing = pending.to_processing().unwrap();
    assert_eq!(
        transition(processing.to_processing().err().unwrap()),
        ("Processing", "Processing")
    );
    let failed = processing.to_processing_error("x").unwrap();
    assert_eq!(
        transition(failed.to_processing().err().unwrap()),
        ("ProcessingError", "Processing")
    );
    let completed = processing.to_completed(HashMap::new()).unwrap();
    assert_eq!(
        transition(completed.to_processing().err().unwrap()),
        ("Completed", "Processing")
    );
    assert_eq!(
        transition(completed.to_processing_error("x").err().unwrap()),
        ("Completed", "ProcessingError")
    );
    assert_eq!(
        transition(completed.to_completed(HashMap::new()).err().unwrap()),
        ("Completed", "Completed")
    );
}

#[test]
fn le_depot_ajoute_lit_modifie_et_supprime() {
    let mut repository = PaystubRepository::in_memory().unwrap();
    let id = repository.add(&[1, 2, 3]).unwrap();
    assert_eq!(id.len(), 36);
    for (i, c) in id.chars().enumerate() {
        if [8, 13, 18, 23].contains(&i) {
            assert_eq!(c, '-');
        } else {
            assert!(c.is_ascii_digit() || ('a'..='f').contains(&c));
        }
    }
    assert_eq!(id.chars().nth(14), Some('4'));
    assert!(matches!(id.chars().nth(19), Some('8' | '9' | 'a' | 'b')));
    let other = repository.add(&[1, 2, 3]).unwrap();
    assert_ne!(other, id);
    repository.delete(&other).unwrap();
    let read = repository.get(&id).unwrap();
    let unknown = repository.update("inconnu", &[9]).unwrap();
    let unknown_read = repository.get("inconnu").unwrap();
    let updated = repository.update(&id, &[4, 5]).unwrap();
    let after_update = repository.get(&id).unwrap();
    let all = repository.get_all().unwrap();
    let deleted = repository.delete(&id).unwrap();
    let after_delete = repository.get(&id).unwrap();
    let deleted_again = repository.delete(&id).unwrap();
    assert_eq!(repository.location(), "");
    assert_eq!(read, Some(vec![1, 2, 3]));
    assert_eq!(unknown, None);
    assert_eq!(unknown_read, None);
    assert_eq!(updated, Some(id.clone()));
    assert_eq!(after_update, Some(vec![4, 5]));
    assert!(all.contains(&(id.clone(), vec![4, 5])));
    assert_eq!(deleted, Some(vec![4, 5]));
    assert_eq!(after_delete, None);
    assert_eq!(deleted_again, None);
}
