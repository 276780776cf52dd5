//! Essais du codec du registre de configuration.

use ecran::capteur_luminosite::codec::{
    depaqueter, empaqueter, mot_vers_octets, octets_vers_mot, ConfigurationCapteur,
};
use ecran::capteur_luminosite::instruction::{
    Gain, ModeEconomieEnergie, Persistance, TempsIntegration,
};

fn tous_gains() -> Vec<Gain> {
    vec![
        Gain::AlsGain1,
        Gain::AlsGain2,
        Gain::AlsGain1_8,
        Gain::AlsGain1_4,
    ]
}

fn tous_temps() -> Vec<TempsIntegration> {
    vec![
        TempsIntegration::AlsIt25MS,
        TempsIntegration::AlsIt50MS,
        TempsIntegration::AlsIt100MS,
        TempsIntegration::AlsIt200MS,
        TempsIntegration::AlsIt400MS,
        TempsIntegration::AlsIt800MS,
    ]
}

fn toutes_persistances() -> Vec<Persistance> {
    vec![
        Persistance::AlsPers1,
        Persistance::AlsPers2,
        Persistance::AlsPers4,
        Persistance::AlsPers8,
    ]
}

#[test]
fn empaqueter_mot_connu() {
    let cfg = ConfigurationCapteur {
        gain: Gain::AlsGain2,
        temps_integration: TempsIntegration::AlsIt800MS,
        persistance: Persistance::AlsPers1,
        interruption_active: false,
        mode_economie_energie: ModeEconomieEnergie::AlsPowerSaveMode1,
    };
    // code gain 1 << 11 | code temps 3 << 6
    assert_eq!(empaqueter(cfg), (1 << 11) | (3 << 6));
    assert_eq!(empaqueter(cfg), 2240);
}

#[test]
fn empaqueter_tous_les_champs() {
    let cfg = ConfigurationCapteur {
        gain: Gain::AlsGain1_4,
        temps_integration: TempsIntegration::AlsIt25MS,
        persistance: Persistance::AlsPers8,
        interruption_active: true,
        mode_economie_energie: ModeEconomieEnergie::AlsPowerSaveMode2,
    };
    assert_eq!(
        empaqueter(cfg),
        (3 << 11) | (0x0C << 6) | (3 << 4) | (1 << 1) | 1
    );
}

#[test]
fn aller_retour_registre() {
    for gain in tous_gains() {
        for temps_integration in tous_temps() {
            for persistance in toutes_persistances() {
                for interruption_active in [false, true] {
                    for mode_economie_energie in [
                        ModeEconomieEnergie::AlsPowerSaveMode1,
                        ModeEconomieEnergie::AlsPowerSaveMode2,
                    ] {
                        let cfg = ConfigurationCapteur {
                            gain,
                            temps_integration,
                            persistance,
                            interruption_active,
                            mode_economie_energie,
                        };
                        assert_eq!(depaqueter(empaqueter(cfg)), Some(cfg));
                    }
                }
            }
        }
    }
}

#[test]
fn aller_retour_mot_accepte() {
    // Tout mot que le dépaquetage accepte se réempaquette à l'identique.
    let mut acceptes = 0u32;
    for mot in 0..=u16::MAX {
        if let Some(cfg) = depaqueter(mot) {
            assert_eq!(empaqueter(cfg), mot);
            acceptes += 1;
        }
    }
    // 4 gains × 6 temps × 4 persistances × 2 interruptions × 2 bits de mode.
    assert_eq!(acceptes, 4 * 6 * 4 * 2 * 2);
}

#[test]
fn depaqueter_rejette_bits_reserves() {
    assert_eq!(depaqueter(1 << 10), None);
    assert_eq!(depaqueter(1 << 13), None);
    assert_eq!(depaqueter(1 << 2), None);
    assert_eq!(depaqueter(1 << 3), None);
    assert_eq!(depaqueter(0xFFFF), None);
}

#[test]
fn depaqueter_rejette_code_temps_inconnu() {
    // Le code de temps d'intégration 4 n'existe pas.
    assert_eq!(depaqueter(4 << 6), None);
    // Les codes 0 à 3, 8 et 12 existent.
    assert!(depaqueter(0).is_some());
    assert!(depaqueter(8 << 6).is_some());
    assert!(depaqueter(12 << 6).is_some());
}

#[test]
fn octets_selon_boutisme() {
    assert_eq!(mot_vers_octets(0xABCD, true), [0xAB, 0xCD]);
    assert_eq!(mot_vers_octets(0xABCD, false), [0xCD, 0xAB]);
    assert_eq!(octets_vers_mot(&[0xAB, 0xCD], true), 0xABCD);
    assert_eq!(octets_vers_mot(&[0xCD, 0xAB], false), 0xABCD);
}

#[test]
fn aller_retour_octets() {
    for mot in [0u16, 1, 0x00FF, 0xFF00, 0xABCD, 0xFFFF] {
        for gros_boutiste in [false, true] {
            let octets = mot_vers_octets(mot, gros_boutiste);
            assert_eq!(octets_vers_mot(&octets, gros_boutiste), mot);
        }
    }
}
