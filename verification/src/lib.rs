//! Pilote vérifié pour un capteur de luminosité ambiante à registres 16 bits
//! et pour un écran à encre électronique bicolore (noir / rouge).
//!
//! La bibliothèque contient toute la logique des deux périphériques : le
//! codec du registre de configuration du capteur, le contrôleur de plage
//! automatique (gain et temps d'intégration), la conversion des comptes
//! bruts en illuminance à virgule fixe, l'encodeur de trame en deux plans
//! de bits et la machine d'états du protocole de l'écran. Les entrées et
//! sorties physiques (bus, broches, attentes) restent à la charge de
//! l'appelant, qui exécute les plans et les décisions que la bibliothèque
//! calcule.

pub mod capteur_luminosite;
pub mod ecran;
pub mod localisation;
pub mod peripherique_usb;
