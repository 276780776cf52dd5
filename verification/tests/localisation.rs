//! Essais des décisions du client de localisation et de la commande du
//! port USB.

use ecran::localisation::{
    est_classe_tpv, heures_synchronisees, message_initialisation, phrase_tpv_acceptable,
    SessionLocalisation,
};
use ecran::peripherique_usb::PeripheriqueUsb;

#[test]
fn message_d_abonnement() {
    assert_eq!(
        message_initialisation(),
        "?WATCH={\"enable\":true,\"json\":true};"
    );
    assert_eq!(
        message_initialisation().as_bytes(),
        b"?WATCH={\"enable\":true,\"json\":true};"
    );
}

#[test]
fn classe_tpv() {
    assert!(est_classe_tpv("TPV"));
    assert!(!est_classe_tpv("tpv"));
    assert!(!est_classe_tpv(""));
    assert!(!est_classe_tpv("TPVX"));
    assert!(!est_classe_tpv("SKY"));
}

#[test]
fn synchronisation_des_horloges() {
    assert!(heures_synchronisees(0));
    assert!(heures_synchronisees(999));
    assert!(heures_synchronisees(-999));
    assert!(!heures_synchronisees(1000));
    assert!(!heures_synchronisees(-1000));
    assert!(!heures_synchronisees(i64::MAX));
    assert!(!heures_synchronisees(i64::MIN));
}

#[test]
fn acceptation_d_une_phrase() {
    assert!(phrase_tpv_acceptable("TPV", true, true, 500));
    assert!(!phrase_tpv_acceptable("SKY", true, true, 500));
    assert!(!phrase_tpv_acceptable("TPV", false, true, 500));
    assert!(!phrase_tpv_acceptable("TPV", true, false, 500));
    assert!(!phrase_tpv_acceptable("TPV", true, true, 1500));
    assert!(!phrase_tpv_acceptable("TPV", true, true, -1500));
}

#[test]
fn session_envoie_une_seule_fois() {
    let mut session = SessionLocalisation::new();
    // Flux pas encore inscriptible : rien à envoyer.
    assert!(!session.doit_envoyer_initialisation(false));
    // Inscriptible : le message part une fois.
    assert!(session.doit_envoyer_initialisation(true));
    session.marquer_initialisation_envoyee();
    assert!(!session.doit_envoyer_initialisation(true));
}

#[test]
fn texte_de_commande_usb() {
    assert_eq!(PeripheriqueUsb::texte_commande_etat(true), "0");
    assert_eq!(PeripheriqueUsb::texte_commande_etat(false), "1");
}
