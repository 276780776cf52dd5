//! Codec du registre de configuration du capteur : empaquetage des champs
//! typés dans le mot de 16 bits, dépaquetage inverse, et passage du mot aux
//! deux octets transmis sur le bus selon le boutisme choisi.
//!
//! Disposition du mot : code du gain décalé de 11, code du temps
//! d'intégration décalé de 6, code de la persistance décalé de 4,
//! interruption au bit 1, code du mode d'économie d'énergie aux bits de
//! poids faible. Les bits 2, 3, 10, 13, 14 et 15 sont réservés et nuls.

use vstd::prelude::*;

use crate::capteur_luminosite::instruction::{
    Gain, ModeEconomieEnergie, Persistance, TempsIntegration,
};

verus! {

/// Configuration complète du capteur, sous forme de champs typés.
#[derive(Copy, Clone, PartialEq, Eq, Structural, Debug)]
pub struct ConfigurationCapteur {
    pub gain: Gain,
    pub temps_integration: TempsIntegration,
    pub persistance: Persistance,
    pub interruption_active: bool,
    pub mode_economie_energie: ModeEconomieEnergie,
}

/// Mot de 16 bits qui encode une configuration.
pub open spec fn spec_empaqueter(cfg: ConfigurationCapteur) -> u16 {
    ((cfg.gain.spec_adresse() as u16) << 11) | ((cfg.temps_integration.spec_adresse() as u16) << 6)
        | ((cfg.persistance.spec_adresse() as u16) << 4) | (if cfg.interruption_active {
        1u16 << 1
    } else {
        0u16
    }) | (cfg.mode_economie_energie.spec_adresse() as u16)
}

/// Empaquette une configuration dans le mot de 16 bits du registre.
pub fn empaqueter(cfg: ConfigurationCapteur) -> (mot: u16)
    ensures
        mot == spec_empaqueter(cfg),
{
    ((cfg.gain.adresse() as u16) << 11) | ((cfg.temps_integration.adresse() as u16) << 6) | ((
    cfg.persistance.adresse() as u16) << 4) | (if cfg.interruption_active {
        1u16 << 1
    } else {
        0u16
    }) | (cfg.mode_economie_energie.adresse() as u16)
}

/// Gain associé à un code de 2 bits.
pub open spec fn spec_gain_depuis_code(code: u16) -> Gain {
    if code == 0 {
        Gain::AlsGain1
    } else if code == 1 {
        Gain::AlsGain2
    } else if code == 2 {
        Gain::AlsGain1_8
    } else {
        Gain::AlsGain1_4
    }
}

/// Temps d'intégration associé à un code de 4 bits, si le code est valide.
pub open spec fn spec_temps_depuis_code(code: u16) -> Option<TempsIntegration> {
    if code == 0x0C {
        Some(TempsIntegration::AlsIt25MS)
    } else if code == 0x08 {
        Some(TempsIntegration::AlsIt50MS)
    } else if code == 0x00 {
        Some(TempsIntegration::AlsIt100MS)
    } else if code == 0x01 {
        Some(TempsIntegration::AlsIt200MS)
    } else if code == 0x02 {
        Some(TempsIntegration::AlsIt400MS)
    } else if code == 0x03 {
        Some(TempsIntegration::AlsIt800MS)
    } else {
        None
    }
}

/// Persistance associée à un code de 2 bits.
pub open spec fn spec_persistance_depuis_code(code: u16) -> Persistance {
    if code == 0 {
        Persistance::AlsPers1
    } else if code == 1 {
        Persistance::AlsPers2
    } else if code == 2 {
        Persistance::AlsPers4
    } else {
        Persistance::AlsPers8
    }
}

/// Configuration que décrit un mot du registre, si le mot est valide.
///
/// Le bit 1 du mot porte à la fois l'indicateur d'interruption et le bit de
/// poids fort du code du mode d'économie d'énergie : le dépaquetage lit
/// l'interruption au bit 1 et ne restitue donc que les modes 1 et 2, dont le
/// code tient sur le bit 0. Un code de temps d'intégration inconnu ou un bit
/// réservé non nul rendent le mot invalide.
pub open spec fn spec_depaqueter(mot: u16) -> Option<ConfigurationCapteur> {
    if mot & 0b1110_0100_0000_1100 != 0 {
        None
    } else {
        match spec_temps_depuis_code((mot >> 6) & 0x0F) {
            Some(temps) => Some(
                ConfigurationCapteur {
                    gain: spec_gain_depuis_code((mot >> 11) & 0x03),
                    temps_integration: temps,
                    persistance: spec_persistance_depuis_code((mot >> 4) & 0x03),
                    interruption_active: (mot >> 1) & 0x01 == 1,
                    mode_economie_energie: if mot & 0x01 == 1 {
                        ModeEconomieEnergie::AlsPowerSaveMode2
                    } else {
                        ModeEconomieEnergie::AlsPowerSaveMode1
                    },
                },
            ),
            None => None,
        }
    }
}

/// Dépaquette un mot du registre de configuration.
pub fn depaqueter(mot: u16) -> (r: Option<ConfigurationCapteur>)
    ensures
        r == spec_depaqueter(mot),
{
    if mot & 0b1110_0100_0000_1100 != 0 {
        return None;
    }
    let code_temps = (mot >> 6) & 0x0F;
    let temps = if code_temps == 0x0C {
        TempsIntegration::AlsIt25MS
    } else if code_temps == 0x08 {
        TempsIntegration::AlsIt50MS
    } else if code_temps == 0x00 {
        TempsIntegration::AlsIt100MS
    } else if code_temps == 0x01 {
        TempsIntegration::AlsIt200MS
    } else if code_temps == 0x02 {
        TempsIntegration::AlsIt400MS
    } else if code_temps == 0x03 {
        TempsIntegration::AlsIt800MS
    } else {
        return None;
    };
    let code_gain = (mot >> 11) & 0x03;
    let gain = if code_gain == 0 {
        Gain::AlsGain1
    } else if code_gain == 1 {
        Gain::AlsGain2
    } else if code_gain == 2 {
        Gain::AlsGain1_8
    } else {
        Gain::AlsGain1_4
    };
    let code_persistance = (mot >> 4) & 0x03;
    let persistance = if code_persistance == 0 {
        Persistance::AlsPers1
    } else if code_persistance == 1 {
        Persistance::AlsPers2
    } else if code_persistance == 2 {
        Persistance::AlsPers4
    } else {
        Persistance::AlsPers8
    };
    Some(
        ConfigurationCapteur {
            gain,
            temps_integration: temps,
            persistance,
            interruption_active: (mot >> 1) & 0x01 == 1,
            mode_economie_energie: if mot & 0x01 == 1 {
                ModeEconomieEnergie::AlsPowerSaveMode2
            } else {
                ModeEconomieEnergie::AlsPowerSaveMode1
            },
        },
    )
}

/// Extraction des champs d'un mot assemblé, pour des codes dans leurs
/// domaines respectifs.
proof fn lemma_extraction_champs(g: u16, t: u16, p: u16, i: u16, m: u16)
    by (bit_vector)
    requires
        g < 4,
        t == 0 || t == 1 || t == 2 || t == 3 || t == 8 || t == 12,
        p < 4,
        i < 2,
        m < 2,
    ensures
        ((g << 11) | (t << 6) | (p << 4) | (i << 1) | m) >> 11 & 0x03 == g,
        ((g << 11) | (t << 6) | (p << 4) | (i << 1) | m) >> 6 & 0x0F == t,
        ((g << 11) | (t << 6) | (p << 4) | (i << 1) | m) >> 4 & 0x03 == p,
        ((g << 11) | (t << 6) | (p << 4) | (i << 1) | m) >> 1 & 0x01 == i,
        ((g << 11) | (t << 6) | (p << 4) | (i << 1) | m) & 0x01 == m,
        ((g << 11) | (t << 6) | (p << 4) | (i << 1) | m) & 0b1110_0100_0000_1100 == 0,
{
}

/// Aller-retour du registre : dépaqueter ce qu'empaquette une configuration
/// valide redonne cette configuration.
///
/// Le mode d'économie d'énergie doit être le mode 1 ou le mode 2 : pour les
/// modes 3 et 4, le bit de poids fort de leur code partage le bit 1 du mot
/// avec l'indicateur d'interruption, et l'empaquetage n'est pas inversible.
pub proof fn lemma_aller_retour_registre(cfg: ConfigurationCapteur)
    requires
        cfg.mode_economie_energie == ModeEconomieEnergie::AlsPowerSaveMode1
            || cfg.mode_economie_energie == ModeEconomieEnergie::AlsPowerSaveMode2,
    ensures
        spec_depaqueter(spec_empaqueter(cfg)) == Some(cfg),
{
    let g = cfg.gain.spec_adresse() as u16;
    let t = cfg.temps_integration.spec_adresse() as u16;
    let p = cfg.persistance.spec_adresse() as u16;
    let i: u16 = if cfg.interruption_active {
        1
    } else {
        0
    };
    let m = cfg.mode_economie_energie.spec_adresse() as u16;
    lemma_extraction_champs(g, t, p, i, m);
    assert(0u16 << 1 == 0u16) by (bit_vector);
}

/// Recomposition d'un mot dont les bits réservés sont nuls à partir de ses
/// cinq champs extraits.
proof fn lemma_reconstruction_mot(mot: u16)
    by (bit_vector)
    requires
        mot & 0b1110_0100_0000_1100 == 0,
    ensures
        ((mot >> 11 & 0x03) << 11) | ((mot >> 6 & 0x0F) << 6) | ((mot >> 4 & 0x03) << 4) | ((mot
            >> 1 & 0x01) << 1) | (mot & 0x01) == mot,
        mot >> 11 & 0x03 < 4,
        mot >> 4 & 0x03 < 4,
        mot >> 1 & 0x01 < 2,
        mot & 0x01 < 2,
        0u16 << 1 == 0u16,
        1u16 << 1 == 2u16,
{
}

/// Aller-retour inverse : un mot que le dépaquetage accepte est exactement
/// celui qu'empaquette la configuration rendue. Les bits réservés d'un mot
/// accepté sont nuls : les cinq champs portent toute l'information.
pub proof fn lemma_aller_retour_mot(mot: u16)
    requires
        spec_depaqueter(mot) is Some,
    ensures
        spec_empaqueter(spec_depaqueter(mot).unwrap()) == mot,
{
    lemma_reconstruction_mot(mot);
}

/// Les deux octets d'un mot de 16 bits, dans l'ordre de transmission.
pub open spec fn spec_mot_vers_octets(mot: u16, gros_boutiste: bool) -> Seq<u8> {
    if gros_boutiste {
        seq![(mot >> 8) as u8, mot as u8]
    } else {
        seq![mot as u8, (mot >> 8) as u8]
    }
}

/// Découpe un mot de 16 bits en deux octets : l'octet de poids fort en tête
/// en gros-boutiste, l'octet de poids faible en tête sinon.
pub fn mot_vers_octets(mot: u16, gros_boutiste: bool) -> (r: [u8; 2])
    ensures
        r@ == spec_mot_vers_octets(mot, gros_boutiste),
{
    let haut = (mot >> 8) as u8;
    let bas = (mot & 0xFF) as u8;
    assert((mot & 0xFF) as u8 == mot as u8) by (bit_vector);
    let r = if gros_boutiste {
        [haut, bas]
    } else {
        [bas, haut]
    };
    proof {
        assert(r@ =~= spec_mot_vers_octets(mot, gros_boutiste));
    }
    r
}

/// Mot de 16 bits lu dans deux octets, dans l'ordre de transmission.
pub open spec fn spec_octets_vers_mot(octets: Seq<u8>, gros_boutiste: bool) -> u16
    recommends
        octets.len() == 2,
{
    if gros_boutiste {
        ((octets[0] as u16) << 8) | (octets[1] as u16)
    } else {
        ((octets[1] as u16) << 8) | (octets[0] as u16)
    }
}

/// Recompose un mot de 16 bits à partir de ses deux octets.
pub fn octets_vers_mot(octets: &[u8; 2], gros_boutiste: bool) -> (r: u16)
    ensures
        r == spec_octets_vers_mot(octets@, gros_boutiste),
{
    if gros_boutiste {
        ((octets[0] as u16) << 8) | (octets[1] as u16)
    } else {
        ((octets[1] as u16) << 8) | (octets[0] as u16)
    }
}

/// Aller-retour des octets : recomposer les octets d'un mot redonne le mot,
/// pour le même boutisme.
pub proof fn lemma_aller_retour_octets(mot: u16, gros_boutiste: bool)
    ensures
        spec_octets_vers_mot(spec_mot_vers_octets(mot, gros_boutiste), gros_boutiste) == mot,
{
    assert((((mot >> 8) as u8 as u16) << 8) | (mot as u8 as u16) == mot) by (bit_vector);
}

} // verus!
