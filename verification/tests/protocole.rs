//! Essais de la machine d'états du protocole de l'écran : plans des phases,
//! découpage en blocs et borne du sondage d'occupation.

use ecran::ecran::instruction::Instruction;
use ecran::ecran::protocole::{
    decouper_en_blocs, EtatEcran, SondeOccupation, Wepd7In5BV2, LIMITE_INTERROGATIONS,
    TAILLE_BLOC_TRANSFERT, TAILLE_MEMOIRE_TAMPON,
};

#[test]
fn codes_des_instructions() {
    assert_eq!(Instruction::PowerSetting.code(), 0x01);
    assert_eq!(Instruction::PowerOn.code(), 0x04);
    assert_eq!(Instruction::BusyStatus.code(), 0x71);
    assert_eq!(Instruction::PanelSetting.code(), 0x00);
    assert_eq!(Instruction::Tres.code(), 0x61);
    assert_eq!(Instruction::Unknown1.code(), 0x15);
    assert_eq!(Instruction::VcomAndDataIntervalSetting.code(), 0x50);
    assert_eq!(Instruction::TconSetting.code(), 0x60);
    assert_eq!(Instruction::Unknown2.code(), 0x65);
    assert_eq!(Instruction::PowerOff.code(), 0x02);
    assert_eq!(Instruction::DeepSleep.code(), 0x07);
    assert_eq!(Instruction::DataStartTransmission1.code(), 0x10);
    assert_eq!(Instruction::DataStartTransmission2.code(), 0x13);
    assert_eq!(Instruction::DisplayRefresh.code(), 0x12);
}

#[test]
fn dimensions() {
    assert_eq!(Wepd7In5BV2::largeur(), 800);
    assert_eq!(Wepd7In5BV2::hauteur(), 480);
    assert_eq!(TAILLE_MEMOIRE_TAMPON, 48000);
}

#[test]
fn nouveau_moteur() {
    let moteur = Wepd7In5BV2::new();
    assert_eq!(moteur.etat, EtatEcran::NonInitialise);
    assert_eq!(moteur.memoire_noir.len(), TAILLE_MEMOIRE_TAMPON);
    assert_eq!(moteur.memoire_rouge.len(), TAILLE_MEMOIRE_TAMPON);
    assert!(moteur.memoire_noir.iter().all(|&o| o == 0));
    assert!(moteur.memoire_rouge.iter().all(|&o| o == 0));
}

#[test]
fn plan_de_reinitialisation() {
    let mut moteur = Wepd7In5BV2::new();
    let impulsions = moteur.plan_reinitialisation();
    assert_eq!(moteur.etat, EtatEcran::Reinitialisation);
    assert_eq!(impulsions.len(), 3);
    assert!(impulsions[0].niveau_haut);
    assert_eq!(impulsions[0].attente_apres_ms, 200);
    assert!(!impulsions[1].niveau_haut);
    assert_eq!(impulsions[1].attente_apres_ms, 4);
    assert!(impulsions[2].niveau_haut);
    assert_eq!(impulsions[2].attente_apres_ms, 200);
}

#[test]
fn plan_d_initialisation() {
    let mut moteur = Wepd7In5BV2::new();
    moteur.plan_reinitialisation();
    let etapes = moteur.plan_initialisation();
    assert_eq!(moteur.etat, EtatEcran::Initialise);
    assert_eq!(etapes.len(), 8);

    assert_eq!(etapes[0].instruction.code(), 0x01);
    assert_eq!(etapes[0].parametres, vec![0x07, 0x07, 0x3f, 0x3f]);
    assert_eq!(etapes[0].attente_apres_ms, 0);
    assert!(!etapes[0].attendre_disponible);

    // Après la mise sous tension : attente de 100 ms puis sondage.
    assert_eq!(etapes[1].instruction.code(), 0x04);
    assert_eq!(etapes[1].parametres, vec![0xF7]);
    assert_eq!(etapes[1].attente_apres_ms, 100);
    assert!(etapes[1].attendre_disponible);

    assert_eq!(etapes[2].instruction.code(), 0x00);
    assert_eq!(etapes[2].parametres, vec![0x0F]);
    assert_eq!(etapes[3].instruction.code(), 0x61);
    assert_eq!(etapes[3].parametres, vec![0x03, 0x20, 0x01, 0xE0]);
    assert_eq!(etapes[4].instruction.code(), 0x15);
    assert_eq!(etapes[4].parametres, vec![0x00]);
    assert_eq!(etapes[5].instruction.code(), 0x50);
    assert_eq!(etapes[5].parametres, vec![0x11, 0x07]);
    assert_eq!(etapes[6].instruction.code(), 0x60);
    assert_eq!(etapes[6].parametres, vec![0x22]);
    assert_eq!(etapes[7].instruction.code(), 0x65);
    assert_eq!(etapes[7].parametres, vec![0x00, 0x00, 0x00, 0x00]);
    for etape in etapes.iter().skip(2) {
        assert_eq!(etape.attente_apres_ms, 0);
        assert!(!etape.attendre_disponible);
    }
}

#[test]
fn cycle_complet() {
    let mut moteur = Wepd7In5BV2::new();
    moteur.plan_reinitialisation();
    moteur.plan_initialisation();

    let image = vec![0x00u8; 2 * 800 * 480];
    moteur.sauvegarder_image_memoire_tampon(&image);
    assert_eq!(moteur.etat, EtatEcran::Initialise);
    assert!(moteur.memoire_noir.iter().all(|&o| o == 0x00));
    assert!(moteur.memoire_rouge.iter().all(|&o| o == 0x00));

    let transfert = moteur.plan_transfert();
    assert_eq!(moteur.etat, EtatEcran::TransfertEnCours);
    assert_eq!(transfert.len(), 2);
    assert_eq!(transfert[0].instruction.code(), 0x10);
    assert_eq!(transfert[0].donnees, moteur.memoire_noir);
    assert_eq!(transfert[1].instruction.code(), 0x13);
    assert_eq!(transfert[1].donnees, moteur.memoire_rouge);

    let rafraichissement = moteur.plan_rafraichissement();
    assert_eq!(moteur.etat, EtatEcran::Rafraichissement);
    assert_eq!(rafraichissement.instruction.code(), 0x12);
    assert!(rafraichissement.parametres.is_empty());
    assert_eq!(rafraichissement.attente_apres_ms, 100);
    assert!(rafraichissement.attendre_disponible);

    let extinction = moteur.plan_extinction();
    assert_eq!(moteur.etat, EtatEcran::EnSommeil);
    assert_eq!(extinction.len(), 2);
    assert_eq!(extinction[0].instruction.code(), 0x02);
    assert!(extinction[0].parametres.is_empty());
    assert!(extinction[0].attendre_disponible);
    assert_eq!(extinction[1].instruction.code(), 0x07);
    assert_eq!(extinction[1].parametres, vec![0xA5]);
    assert!(!extinction[1].attendre_disponible);

    // Depuis le sommeil, le cycle suivant repart par la réinitialisation.
    moteur.plan_reinitialisation();
    assert_eq!(moteur.etat, EtatEcran::Reinitialisation);
}

#[test]
fn effacement_de_la_memoire_tampon() {
    let mut moteur = Wepd7In5BV2::new();
    moteur.effacer_memoire_tampon();
    assert!(moteur.memoire_noir.iter().all(|&o| o == 0xFF));
    assert!(moteur.memoire_rouge.iter().all(|&o| o == 0x00));
    assert_eq!(moteur.memoire_noir.len(), TAILLE_MEMOIRE_TAMPON);
    assert_eq!(moteur.memoire_rouge.len(), TAILLE_MEMOIRE_TAMPON);
}

#[test]
fn decoupage_d_un_plan_en_blocs() {
    // 48000 octets par blocs de 4096 : 12 blocs, le dernier partiel.
    let blocs = decouper_en_blocs(TAILLE_MEMOIRE_TAMPON, TAILLE_BLOC_TRANSFERT);
    assert_eq!(blocs.len(), 12);
    assert_eq!(blocs[0], (0, 4096));
    assert_eq!(blocs[10], (40960, 45056));
    assert_eq!(blocs[11], (45056, 48000));
    let mut attendu = 0;
    for (debut, fin) in &blocs {
        assert_eq!(*debut, attendu);
        assert!(fin - debut <= TAILLE_BLOC_TRANSFERT);
        assert!(fin > debut);
        attendu = *fin;
    }
    assert_eq!(attendu, TAILLE_MEMOIRE_TAMPON);
}

#[test]
fn decoupage_cas_limites() {
    assert_eq!(decouper_en_blocs(0, 4096).len(), 0);
    assert_eq!(decouper_en_blocs(10, 4096), vec![(0, 10)]);
    assert_eq!(decouper_en_blocs(4096, 4096), vec![(0, 4096)]);
    assert_eq!(decouper_en_blocs(8192, 4096), vec![(0, 4096), (4096, 8192)]);
}

#[test]
fn sondage_jamais_libre() {
    // Si le signal d'occupation ne retombe jamais, le sondage s'arrête
    // après exactement 1000 interrogations supplémentaires.
    let mut sonde = SondeOccupation::new();
    let mut iterations = 0u32;
    while sonde.poursuivre(true) {
        iterations += 1;
        assert!(iterations <= LIMITE_INTERROGATIONS);
    }
    assert_eq!(iterations, LIMITE_INTERROGATIONS);
    assert_eq!(iterations, 1000);
    assert!(sonde.abandonnee());
    // Une interrogation de plus ne relance rien.
    assert!(!sonde.poursuivre(true));
}

#[test]
fn sondage_libre_immediatement() {
    let mut sonde = SondeOccupation::new();
    assert!(!sonde.poursuivre(false));
    assert!(!sonde.abandonnee());
}

#[test]
fn sondage_libere_en_cours() {
    let mut sonde = SondeOccupation::new();
    for _ in 0..5 {
        assert!(sonde.poursuivre(true));
    }
    assert!(!sonde.poursuivre(false));
    assert!(!sonde.abandonnee());
}
