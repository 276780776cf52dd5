//! Essais de l'encodeur de trame : les trois couleurs pures et des motifs
//! mélangés.

use ecran::ecran::encodeur::encoder_plans;

const LARGEUR: usize = 800;
const HAUTEUR: usize = 480;
const TAILLE_IMAGE: usize = 2 * LARGEUR * HAUTEUR;
const TAILLE_PLAN: usize = LARGEUR * HAUTEUR / 8;

#[test]
fn image_blanche() {
    // Échantillon blanc [0xFF, 0xFF] : plan noir tout à 0xFF, plan rouge
    // tout à 0x00.
    let image = vec![0xFFu8; TAILLE_IMAGE];
    let (noir, rouge) = encoder_plans(&image);
    assert_eq!(noir.len(), TAILLE_PLAN);
    assert_eq!(rouge.len(), TAILLE_PLAN);
    assert!(noir.iter().all(|&octet| octet == 0xFF));
    assert!(rouge.iter().all(|&octet| octet == 0x00));
}

#[test]
fn image_noire() {
    // Échantillon noir [0x00, 0x00] : plan noir tout à 0x00.
    let image = vec![0x00u8; TAILLE_IMAGE];
    let (noir, rouge) = encoder_plans(&image);
    assert!(noir.iter().all(|&octet| octet == 0x00));
    assert!(rouge.iter().all(|&octet| octet == 0x00));
}

#[test]
fn image_rouge() {
    // Échantillon rouge [0x00, 0xF8] : plan rouge tout à 0xFF, plan noir
    // tout à 0xFF.
    let mut image = vec![0x00u8; TAILLE_IMAGE];
    let mut i = 1;
    while i < TAILLE_IMAGE {
        image[i] = 0xF8;
        i += 2;
    }
    let (noir, rouge) = encoder_plans(&image);
    assert!(noir.iter().all(|&octet| octet == 0xFF));
    assert!(rouge.iter().all(|&octet| octet == 0xFF));
}

#[test]
fn groupe_mele() {
    // Huit pixels : noir, rouge, puis six blancs.
    let mut image = vec![0xFFu8; 16];
    image[0] = 0x00;
    image[1] = 0x00; // pixel 0 : noir
    image[2] = 0x00;
    image[3] = 0xF8; // pixel 1 : rouge
    let (noir, rouge) = encoder_plans(&image);
    assert_eq!(noir.len(), 1);
    assert_eq!(rouge.len(), 1);
    // Bit 7 effacé dans le plan noir.
    assert_eq!(noir[0], 0x7F);
    // Accumulateur rouge 0xFF & !0x40 = 0xBF, inversé : 0x40.
    assert_eq!(rouge[0], 0x40);
}

#[test]
fn motif_autre_que_les_trois_couleurs() {
    // Un échantillon qui n'est ni noir, ni rouge, ni blanc pur (premier
    // octet non nul) reste « pas d'encre ».
    let mut image = vec![0xFFu8; 16];
    image[0] = 0x12;
    image[1] = 0x00;
    let (noir, rouge) = encoder_plans(&image);
    assert_eq!(noir[0], 0xFF);
    assert_eq!(rouge[0], 0x00);
}

#[test]
fn image_vide() {
    let image: Vec<u8> = Vec::new();
    let (noir, rouge) = encoder_plans(&image);
    assert_eq!(noir.len(), 0);
    assert_eq!(rouge.len(), 0);
}

#[test]
fn deux_groupes() {
    // Premier groupe tout noir, second tout rouge.
    let mut image = vec![0x00u8; 32];
    let mut i = 17;
    while i < 32 {
        image[i] = 0x01;
        i += 2;
    }
    let (noir, rouge) = encoder_plans(&image);
    assert_eq!(noir, vec![0x00, 0xFF]);
    assert_eq!(rouge, vec![0x00, 0xFF]);
}
