//! Contrôleur du capteur de luminosité.
//!
//! Le contrôleur possède la configuration en mémoire du capteur et un
//! indicateur de modification : une écriture du registre n'est due que si un
//! champ a changé depuis la dernière écriture réussie (cache à écriture
//! différée à une entrée). Il calcule aussi le délai de stabilisation avant
//! la prochaine lecture valide, la résolution à virgule fixe qui convertit
//! un compte brut en illuminance, et les décisions de l'algorithme de plage
//! automatique. L'appelant exécute les transactions de bus et les attentes,
//! et rend au contrôleur les comptes bruts lus.

use vstd::prelude::*;

use crate::capteur_luminosite::codec::{spec_empaqueter, empaqueter, ConfigurationCapteur};
use crate::capteur_luminosite::instruction::{
    Gain, ModeEconomieEnergie, Persistance, TempsIntegration,
};

verus! {

/// État du contrôleur du capteur de luminosité.
pub struct Veml7700 {
    /// Boutisme des valeurs de registre sur le bus : celui de l'hôte.
    pub gros_boutiste: bool,
    pub gain: Gain,
    pub temps_integration: TempsIntegration,
    pub persistance: Persistance,
    pub interruption_active: bool,
    pub mode_economie_energie: ModeEconomieEnergie,
    /// Instant, en millisecondes, de la dernière écriture de configuration
    /// ou de la dernière lecture, selon le plus récent.
    pub derniere_lecture_donnees_ms: u64,
    pub correction_non_lineaire_resolution: bool,
    /// Vrai si la configuration en mémoire diffère de la dernière valeur
    /// écrite dans le registre du capteur.
    pub configuration_modifiee: bool,
}

/// État après un changement de gain : le champ est remplacé et l'indicateur
/// de modification n'est levé que si la valeur change.
pub open spec fn apres_configurer_gain(s: Veml7700, gain: Gain) -> Veml7700 {
    Veml7700 {
        gain,
        configuration_modifiee: s.configuration_modifiee || s.gain != gain,
        ..s
    }
}

/// État après un changement de temps d'intégration.
pub open spec fn apres_configurer_temps_integration(
    s: Veml7700,
    temps_integration: TempsIntegration,
) -> Veml7700 {
    Veml7700 {
        temps_integration,
        configuration_modifiee: s.configuration_modifiee || s.temps_integration
            != temps_integration,
        ..s
    }
}

/// État après un changement de persistance.
pub open spec fn apres_configurer_persistance(s: Veml7700, persistance: Persistance) -> Veml7700 {
    Veml7700 {
        persistance,
        configuration_modifiee: s.configuration_modifiee || s.persistance != persistance,
        ..s
    }
}

/// État après un changement de l'indicateur d'interruption.
pub open spec fn apres_configurer_interruption(s: Veml7700, active: bool) -> Veml7700 {
    Veml7700 {
        interruption_active: active,
        configuration_modifiee: s.configuration_modifiee || s.interruption_active != active,
        ..s
    }
}

/// État après un changement du mode d'économie d'énergie.
pub open spec fn apres_configurer_mode_economie_energie(
    s: Veml7700,
    mode: ModeEconomieEnergie,
) -> Veml7700 {
    Veml7700 {
        mode_economie_energie: mode,
        configuration_modifiee: s.configuration_modifiee || s.mode_economie_energie != mode,
        ..s
    }
}

/// État après la mise en place de tous les champs d'une configuration.
pub open spec fn apres_configuration_complete(s: Veml7700, cfg: ConfigurationCapteur) -> Veml7700 {
    apres_configurer_mode_economie_energie(
        apres_configurer_interruption(
            apres_configurer_persistance(
                apres_configurer_temps_integration(
                    apres_configurer_gain(s, cfg.gain),
                    cfg.temps_integration,
                ),
                cfg.persistance,
            ),
            cfg.interruption_active,
        ),
        cfg.mode_economie_energie,
    )
}

/// État après une écriture réussie du registre de configuration.
pub open spec fn apres_ecriture(s: Veml7700, maintenant_ms: u64) -> Veml7700 {
    Veml7700 {
        configuration_modifiee: false,
        derniere_lecture_donnees_ms: maintenant_ms,
        ..s
    }
}

impl Veml7700 {
    /// Configuration en mémoire, sous forme de champs typés.
    pub open spec fn spec_configuration(self) -> ConfigurationCapteur {
        ConfigurationCapteur {
            gain: self.gain,
            temps_integration: self.temps_integration,
            persistance: self.persistance,
            interruption_active: self.interruption_active,
            mode_economie_energie: self.mode_economie_energie,
        }
    }

    /// Mot que l'appelant doit écrire dans le registre de configuration,
    /// ou rien si la configuration n'a pas changé.
    pub open spec fn spec_mot_a_ecrire(self) -> Option<u16> {
        if self.configuration_modifiee {
            Some(spec_empaqueter(self.spec_configuration()))
        } else {
            None
        }
    }

    /// Nouveau contrôleur : gain 1, intégration 100 ms, persistance 1,
    /// interruption inactive, mode d'économie d'énergie 1, correction
    /// désactivée, configuration considérée comme écrite.
    pub fn new(gros_boutiste: bool, maintenant_ms: u64) -> (r: Veml7700)
        ensures
            r.gros_boutiste == gros_boutiste,
            r.gain == Gain::AlsGain1,
            r.temps_integration == TempsIntegration::AlsIt100MS,
            r.persistance == Persistance::AlsPers1,
            !r.interruption_active,
            r.mode_economie_energie == ModeEconomieEnergie::AlsPowerSaveMode1,
            r.derniere_lecture_donnees_ms == maintenant_ms,
            !r.correction_non_lineaire_resolution,
            !r.configuration_modifiee,
    {
        Veml7700 {
            gros_boutiste,
            gain: Gain::AlsGain1,
            temps_integration: TempsIntegration::AlsIt100MS,
            persistance: Persistance::AlsPers1,
            interruption_active: false,
            mode_economie_energie: ModeEconomieEnergie::AlsPowerSaveMode1,
            derniere_lecture_donnees_ms: maintenant_ms,
            correction_non_lineaire_resolution: false,
            configuration_modifiee: false,
        }
    }

    /// Remplace le gain ; lève l'indicateur de modification si la valeur
    /// change.
    pub fn configurer_gain(&mut self, gain: Gain)
        ensures
            *final(self) == apres_configurer_gain(*old(self), gain),
    {
        if self.gain != gain {
            self.gain = gain;
            self.configuration_modifiee = true;
        }
    }

    /// Gain courant.
    pub fn gain(&self) -> (r: Gain)
        ensures
            r == self.gain,
    {
        self.gain
    }

    /// Remplace le temps d'intégration ; lève l'indicateur de modification
    /// si la valeur change.
    pub fn configurer_temps_integration(&mut self, temps_integration: TempsIntegration)
        ensures
            *final(self) == apres_configurer_temps_integration(*old(self), temps_integration),
    {
        if self.temps_integration != temps_integration {
            self.temps_integration = temps_integration;
            self.configuration_modifiee = true;
        }
    }

    /// Temps d'intégration courant.
    pub fn temps_integration(&self) -> (r: TempsIntegration)
        ensures
            r == self.temps_integration,
    {
        self.temps_integration
    }

    /// Remplace la persistance ; lève l'indicateur de modification si la
    /// valeur change.
    pub fn configurer_persistance(&mut self, persistance: Persistance)
        ensures
            *final(self) == apres_configurer_persistance(*old(self), persistance),
    {
        if self.persistance != persistance {
            self.persistance = persistance;
            self.configuration_modifiee = true;
        }
    }

    /// Active ou désactive l'interruption ; lève l'indicateur de
    /// modification si la valeur change.
    pub fn configurer_interruption(&mut self, active: bool)
        ensures
            *final(self) == apres_configurer_interruption(*old(self), active),
    {
        if self.interruption_active != active {
            self.interruption_active = active;
            self.configuration_modifiee = true;
        }
    }

    /// Remplace le mode d'économie d'énergie ; lève l'indicateur de
    /// modification si la valeur change.
    pub fn configurer_mode_economie_energie(&mut self, mode_economie_energie: ModeEconomieEnergie)
        ensures
            *final(self) == apres_configurer_mode_economie_energie(
                *old(self),
                mode_economie_energie,
            ),
    {
        if self.mode_economie_energie != mode_economie_energie {
            self.mode_economie_energie = mode_economie_energie;
            self.configuration_modifiee = true;
        }
    }

    /// Met en place tous les champs d'une configuration d'un coup.
    pub fn configurer(&mut self, cfg: ConfigurationCapteur)
        ensures
            *final(self) == apres_configuration_complete(*old(self), cfg),
    {
        self.configurer_gain(cfg.gain);
        self.configurer_temps_integration(cfg.temps_integration);
        self.configurer_persistance(cfg.persistance);
        self.configurer_interruption(cfg.interruption_active);
        self.configurer_mode_economie_energie(cfg.mode_economie_energie);
    }

    /// Passe au mode d'économie d'énergie 1 (capteur actif) ; l'écriture du
    /// registre revient ensuite à l'appelant.
    pub fn demarrer(&mut self)
        ensures
            *final(self) == apres_configurer_mode_economie_energie(
                *old(self),
                ModeEconomieEnergie::AlsPowerSaveMode1,
            ),
    {
        self.configurer_mode_economie_energie(ModeEconomieEnergie::AlsPowerSaveMode1);
    }

    /// Passe au mode d'économie d'énergie 2 ; l'écriture du registre
    /// revient ensuite à l'appelant.
    pub fn arreter(&mut self)
        ensures
            *final(self) == apres_configurer_mode_economie_energie(
                *old(self),
                ModeEconomieEnergie::AlsPowerSaveMode2,
            ),
    {
        self.configurer_mode_economie_energie(ModeEconomieEnergie::AlsPowerSaveMode2);
    }

    /// Configuration en mémoire, sous forme de champs typés.
    pub fn configuration(&self) -> (r: ConfigurationCapteur)
        ensures
            r == self.spec_configuration(),
    {
        ConfigurationCapteur {
            gain: self.gain,
            temps_integration: self.temps_integration,
            persistance: self.persistance,
            interruption_active: self.interruption_active,
            mode_economie_energie: self.mode_economie_energie,
        }
    }

    /// Mot à écrire dans le registre de configuration : la configuration
    /// empaquetée si elle a changé, rien sinon (écriture éludée).
    pub fn mot_a_ecrire(&self) -> (r: Option<u16>)
        ensures
            r == self.spec_mot_a_ecrire(),
    {
        if self.configuration_modifiee {
            Some(empaqueter(self.configuration()))
        } else {
            None
        }
    }

    /// Enregistre une écriture réussie du registre : la configuration est à
    /// jour et le délai de stabilisation repart de cet instant.
    pub fn ecriture_reussie(&mut self, maintenant_ms: u64)
        ensures
            *final(self) == apres_ecriture(*old(self), maintenant_ms),
    {
        self.configuration_modifiee = false;
        self.derniere_lecture_donnees_ms = maintenant_ms;
    }

    /// Enregistre l'instant d'une lecture : le délai de stabilisation de la
    /// prochaine lecture repart de cet instant.
    pub fn enregistrer_lecture(&mut self, maintenant_ms: u64)
        ensures
            *final(self) == (Veml7700 {
                derniere_lecture_donnees_ms: maintenant_ms,
                ..*old(self)
            }),
    {
        self.derniere_lecture_donnees_ms = maintenant_ms;
    }

    /// Délai de stabilisation restant avant la prochaine lecture valide :
    /// deux fois le temps d'intégration, moins le temps déjà écoulé depuis
    /// la dernière écriture ou lecture.
    pub fn delai_avant_prochaine_lecture(&self, ecoule_ms: u64) -> (r: u64)
        ensures
            r == if 2 * self.temps_integration.spec_millisecondes() > ecoule_ms {
                2 * self.temps_integration.spec_millisecondes() - ecoule_ms
            } else {
                0
            },
    {
        let seuil: u64 = 2 * (self.temps_integration.millisecondes() as u64);
        if seuil > ecoule_ms {
            seuil - ecoule_ms
        } else {
            0
        }
    }

    /// Active ou désactive la correction non linéaire de la résolution.
    pub fn activer_correction_non_lineaire_resolution(&mut self, active: bool)
        ensures
            *final(self) == (Veml7700 {
                correction_non_lineaire_resolution: active,
                ..*old(self)
            }),
    {
        self.correction_non_lineaire_resolution = active;
    }

    /// Facteur sans dimension de la résolution :
    /// (800 / temps d'intégration) × (2 / gain), toujours entier.
    pub fn facteur_resolution(&self) -> (r: u16)
        ensures
            r == spec_facteur_resolution(self.gain, self.temps_integration),
            r <= 512,
    {
        let facteur_temps = self.temps_integration.facteur_temps();
        let facteur_gain = self.gain.facteur_sensibilite();
        proof {
            assert((facteur_temps as int) * (facteur_gain as int) <= 512) by (nonlinear_arith)
                requires
                    facteur_temps <= 32,
                    facteur_gain <= 16,
                    facteur_temps >= 0,
                    facteur_gain >= 0,
            ;
        }
        facteur_temps * facteur_gain
    }

    /// Résolution en dix-millièmes de lux par unité de compte brut :
    /// 36 × (800 / temps d'intégration) × (2 / gain), soit
    /// 0,0036 lux × facteur.
    pub fn resolution_dix_millieme(&self) -> (r: u16)
        ensures
            r == spec_resolution_dix_millieme(self.gain, self.temps_integration),
            r <= 18432,
    {
        36 * self.facteur_resolution()
    }

    /// Illuminance non corrigée en dix-millièmes de lux : résolution ×
    /// compte brut.
    pub fn luminosite_dix_millieme_lux(&self, luminosite: u16) -> (r: u32)
        ensures
            r == luminosite * spec_resolution_dix_millieme(self.gain, self.temps_integration),
    {
        let resolution = self.resolution_dix_millieme();
        proof {
            assert((luminosite as int) * (resolution as int) <= 65535 * 18432) by (nonlinear_arith)
                requires
                    luminosite <= 65535,
                    resolution <= 18432,
            ;
        }
        (luminosite as u32) * (resolution as u32)
    }
}

/// État après le point de départ de la plage automatique : gain minimal
/// (1/8), temps d'intégration de 100 ms, correction désactivée.
pub open spec fn apres_demarrage_automatique(s: Veml7700) -> Veml7700 {
    Veml7700 {
        correction_non_lineaire_resolution: false,
        ..apres_configurer_temps_integration(
            apres_configurer_gain(s, Gain::AlsGain1_8),
            TempsIntegration::AlsIt100MS,
        )
    }
}

/// La sensibilité est-elle au maximum : gain 2 et intégration 800 ms ?
pub open spec fn sensibilite_maximale(s: Veml7700) -> bool {
    s.gain == Gain::AlsGain2 && s.temps_integration == TempsIntegration::AlsIt800MS
}

/// La branche d'augmentation continue tant que le compte brut reste au plus
/// 100 et que la sensibilité n'est pas au maximum.
pub open spec fn poursuivre_augmentation(s: Veml7700, luminosite: u16) -> bool {
    luminosite <= 100 && !sensibilite_maximale(s)
}

/// Un cran de sensibilité en plus : le gain avance dans l'ordre
/// 1/8, 1/4, 1, 2 ; une fois le gain au maximum, le temps d'intégration
/// avance dans l'ordre 100, 200, 400, 800 ms.
pub open spec fn apres_augmentation(s: Veml7700) -> Veml7700 {
    if s.gain != Gain::AlsGain2 {
        apres_configurer_gain(s, s.gain.spec_suivant())
    } else if s.temps_integration != TempsIntegration::AlsIt800MS {
        apres_configurer_temps_integration(s, s.temps_integration.spec_suivant())
    } else {
        s
    }
}

/// La branche de réduction continue tant que le compte brut dépasse 10000
/// et que le temps d'intégration n'est pas au minimum (25 ms).
pub open spec fn poursuivre_reduction(s: Veml7700, luminosite: u16) -> bool {
    luminosite > 10000 && s.temps_integration != TempsIntegration::AlsIt25MS
}

/// Un cran de sensibilité en moins : le temps d'intégration recule dans
/// l'ordre 800, 400, 200, 100, 50, 25 ms.
pub open spec fn apres_reduction(s: Veml7700) -> Veml7700 {
    apres_configurer_temps_integration(s, s.temps_integration.spec_precedent())
}

/// Déroulement de la branche d'augmentation : `luminosite` est le dernier
/// compte brut lu, `lectures` les comptes que les lectures suivantes
/// rendraient. Le résultat est l'état final et le dernier compte lu, ou rien
/// si les lectures fournies ne suffisent pas à atteindre la sortie de
/// boucle.
pub open spec fn execution_augmentation(s: Veml7700, luminosite: u16, lectures: Seq<u16>) -> Option<
    (Veml7700, u16),
>
    decreases lectures.len(),
{
    if !poursuivre_augmentation(s, luminosite) {
        Some((s, luminosite))
    } else if lectures.len() == 0 {
        None
    } else {
        execution_augmentation(apres_augmentation(s), lectures[0], lectures.drop_first())
    }
}

/// Déroulement de la branche de réduction, sur le même modèle.
pub open spec fn execution_reduction(s: Veml7700, luminosite: u16, lectures: Seq<u16>) -> Option<
    (Veml7700, u16),
>
    decreases lectures.len(),
{
    if !poursuivre_reduction(s, luminosite) {
        Some((s, luminosite))
    } else if lectures.len() == 0 {
        None
    } else {
        execution_reduction(apres_reduction(s), lectures[0], lectures.drop_first())
    }
}

/// Déroulement complet de la plage automatique : départ au gain 1/8 et à
/// 100 ms, première lecture, puis branche d'augmentation si elle rend moins
/// de 100, sinon activation de la correction non linéaire et branche de
/// réduction.
pub open spec fn execution_configuration_automatique(s: Veml7700, lectures: Seq<u16>) -> Option<
    (Veml7700, u16),
> {
    if lectures.len() == 0 {
        None
    } else {
        let depart = apres_demarrage_automatique(s);
        if lectures[0] < 100 {
            execution_augmentation(depart, lectures[0], lectures.drop_first())
        } else {
            execution_reduction(
                Veml7700 { correction_non_lineaire_resolution: true, ..depart },
                lectures[0],
                lectures.drop_first(),
            )
        }
    }
}

impl Veml7700 {
    /// Point de départ de la plage automatique : gain minimal (1/8), temps
    /// d'intégration de 100 ms, correction non linéaire désactivée.
    pub fn demarrer_configuration_automatique(&mut self)
        ensures
            *final(self) == apres_demarrage_automatique(*old(self)),
    {
        self.configurer_gain(Gain::AlsGain1_8);
        self.configurer_temps_integration(TempsIntegration::AlsIt100MS);
        self.correction_non_lineaire_resolution = false;
    }

    /// Choix de branche après la première lecture : en deçà de 100 le
    /// signal est trop faible et la sensibilité doit augmenter ; sinon la
    /// correction non linéaire est activée et la réduction peut commencer.
    pub fn choisir_branche_reduction(&mut self, luminosite: u16) -> (reduire: bool)
        ensures
            reduire == (luminosite >= 100),
            *final(self) == if luminosite < 100 {
                *old(self)
            } else {
                Veml7700 { correction_non_lineaire_resolution: true, ..*old(self) }
            },
    {
        if luminosite < 100 {
            false
        } else {
            self.correction_non_lineaire_resolution = true;
            true
        }
    }

    /// La branche d'augmentation doit-elle continuer après ce compte brut ?
    pub fn doit_augmenter_sensibilite(&self, luminosite: u16) -> (r: bool)
        ensures
            r == poursuivre_augmentation(*self, luminosite),
    {
        luminosite <= 100 && !(self.gain == Gain::AlsGain2 && self.temps_integration
            == TempsIntegration::AlsIt800MS)
    }

    /// Avance d'un cran de sensibilité : gain d'abord, temps d'intégration
    /// une fois le gain au maximum.
    pub fn augmenter_sensibilite(&mut self)
        ensures
            *final(self) == apres_augmentation(*old(self)),
    {
        if self.gain != Gain::AlsGain2 {
            let suivant = self.gain.suivant();
            self.configurer_gain(suivant);
        } else if self.temps_integration != TempsIntegration::AlsIt800MS {
            let suivant = self.temps_integration.suivant();
            self.configurer_temps_integration(suivant);
        }
    }

    /// La branche de réduction doit-elle continuer après ce compte brut ?
    pub fn doit_reduire_sensibilite(&self, luminosite: u16) -> (r: bool)
        ensures
            r == poursuivre_reduction(*self, luminosite),
    {
        luminosite > 10000 && self.temps_integration != TempsIntegration::AlsIt25MS
    }

    /// Recule d'un cran de temps d'intégration.
    pub fn reduire_sensibilite(&mut self)
        ensures
            *final(self) == apres_reduction(*old(self)),
    {
        let precedent = self.temps_integration.precedent();
        self.configurer_temps_integration(precedent);
    }
}

/// Rang de sensibilité d'un état, pour la branche d'augmentation : le rang
/// du gain, puis, gain au maximum, quatre rangs de plus par palier de temps
/// d'intégration au-delà. Chaque cran d'augmentation le fait strictement
/// croître ; il vaut au plus 8.
pub open spec fn rang_sensibilite(s: Veml7700) -> int {
    let rang_gain: int = match s.gain {
        Gain::AlsGain1_8 => 0,
        Gain::AlsGain1_4 => 1,
        Gain::AlsGain1 => 2,
        Gain::AlsGain2 => 3,
    };
    let rang_temps: int = match s.temps_integration {
        TempsIntegration::AlsIt25MS => 0,
        TempsIntegration::AlsIt50MS => 1,
        TempsIntegration::AlsIt100MS => 2,
        TempsIntegration::AlsIt200MS => 3,
        TempsIntegration::AlsIt400MS => 4,
        TempsIntegration::AlsIt800MS => 5,
    };
    if s.gain == Gain::AlsGain2 {
        3 + rang_temps
    } else {
        rang_gain
    }
}

/// Rang de temps d'intégration, pour la branche de réduction : chaque cran
/// de réduction le fait strictement décroître tant qu'il n'est pas nul.
pub open spec fn rang_reduction(s: Veml7700) -> int {
    match s.temps_integration {
        TempsIntegration::AlsIt25MS => 0,
        TempsIntegration::AlsIt50MS => 1,
        TempsIntegration::AlsIt100MS => 2,
        TempsIntegration::AlsIt200MS => 3,
        TempsIntegration::AlsIt400MS => 4,
        TempsIntegration::AlsIt800MS => 5,
    }
}

/// Chaque branche resserre strictement un ensemble ordonné fini : un cran
/// d'augmentation fait croître le rang de sensibilité tant que la
/// sensibilité n'est pas au maximum, un cran de réduction fait décroître le
/// rang du temps d'intégration tant qu'il n'est pas au minimum.
pub proof fn lemma_progres_des_branches(s: Veml7700)
    ensures
        0 <= rang_sensibilite(s) <= 8,
        !sensibilite_maximale(s) ==> rang_sensibilite(apres_augmentation(s)) > rang_sensibilite(s),
        sensibilite_maximale(s) <==> rang_sensibilite(s) == 8,
        0 <= rang_reduction(s) <= 5,
        s.temps_integration != TempsIntegration::AlsIt25MS ==> rang_reduction(apres_reduction(s))
            == rang_reduction(s) - 1,
{
}

/// La branche d'augmentation se termine : il suffit d'autant de lectures
/// qu'il reste de crans de sensibilité pour que le déroulement aboutisse.
pub proof fn lemma_augmentation_se_termine(s: Veml7700, luminosite: u16, lectures: Seq<u16>)
    requires
        lectures.len() + rang_sensibilite(s) >= 8,
    ensures
        execution_augmentation(s, luminosite, lectures) is Some,
    decreases lectures.len(),
{
    if poursuivre_augmentation(s, luminosite) {
        lemma_progres_des_branches(s);
        lemma_augmentation_se_termine(apres_augmentation(s), lectures[0], lectures.drop_first());
    }
}

/// La branche de réduction se termine : il suffit d'autant de lectures
/// qu'il reste de crans de temps d'intégration.
pub proof fn lemma_reduction_se_termine(s: Veml7700, luminosite: u16, lectures: Seq<u16>)
    requires
        lectures.len() + 0 >= rang_reduction(s),
    ensures
        execution_reduction(s, luminosite, lectures) is Some,
    decreases lectures.len(),
{
    if poursuivre_reduction(s, luminosite) {
        lemma_progres_des_branches(s);
        lemma_reduction_se_termine(apres_reduction(s), lectures[0], lectures.drop_first());
    }
}

/// La plage automatique ne boucle jamais sans borne : neuf lectures
/// suffisent toujours à la mener à sa sortie.
pub proof fn lemma_configuration_automatique_se_termine(s: Veml7700, lectures: Seq<u16>)
    requires
        lectures.len() >= 9,
    ensures
        execution_configuration_automatique(s, lectures) is Some,
{
    let depart = apres_demarrage_automatique(s);
    if lectures[0] < 100 {
        lemma_augmentation_se_termine(depart, lectures[0], lectures.drop_first());
    } else {
        lemma_reduction_se_termine(
            Veml7700 { correction_non_lineaire_resolution: true, ..depart },
            lectures[0],
            lectures.drop_first(),
        );
    }
}

/// Sortie de la branche d'augmentation : si aucune lecture ne saute
/// directement de la zone faible (au plus 100) au-delà de 10000, l'état
/// final est dans la plage (100, 10000], ou la sensibilité est au maximum.
/// La correction non linéaire n'y change pas.
pub proof fn lemma_plage_branche_augmentation(
    s: Veml7700,
    luminosite: u16,
    lectures: Seq<u16>,
    fin: (Veml7700, u16),
)
    requires
        execution_augmentation(s, luminosite, lectures) == Some(fin),
        luminosite > 100 ==> luminosite <= 10000,
        forall|k: int| 0 <= k < lectures.len() ==> (lectures[k] > 100 ==> lectures[k] <= 10000),
    ensures
        (100 < fin.1 <= 10000) || sensibilite_maximale(fin.0),
        fin.0.correction_non_lineaire_resolution == s.correction_non_lineaire_resolution,
    decreases lectures.len(),
{
    if poursuivre_augmentation(s, luminosite) {
        lemma_plage_branche_augmentation(
            apres_augmentation(s),
            lectures[0],
            lectures.drop_first(),
            fin,
        );
    }
}

/// Sortie de la branche de réduction : si aucune lecture ne saute
/// directement de la zone forte (au-delà de 10000) à 100 ou moins, l'état
/// final est dans la plage (100, 10000], ou le temps d'intégration est au
/// minimum (25 ms). La correction non linéaire n'y change pas.
pub proof fn lemma_plage_branche_reduction(
    s: Veml7700,
    luminosite: u16,
    lectures: Seq<u16>,
    fin: (Veml7700, u16),
)
    requires
        execution_reduction(s, luminosite, lectures) == Some(fin),
        luminosite <= 10000 ==> luminosite > 100,
        forall|k: int| 0 <= k < lectures.len() ==> (lectures[k] <= 10000 ==> lectures[k] > 100),
    ensures
        (100 < fin.1 <= 10000) || fin.0.temps_integration == TempsIntegration::AlsIt25MS,
        fin.0.correction_non_lineaire_resolution == s.correction_non_lineaire_resolution,
    decreases lectures.len(),
{
    if poursuivre_reduction(s, luminosite) {
        lemma_plage_branche_reduction(apres_reduction(s), lectures[0], lectures.drop_first(), fin);
    }
}

/// Invariant de sortie de la plage automatique : au retour, soit le compte
/// brut est dans la plage (100, 10000], soit la sensibilité est saturée au
/// maximum (gain 2 et 800 ms), soit le temps d'intégration est au minimum
/// (25 ms) avec la correction non linéaire activée.
///
/// L'invariant suppose des lectures sans saut au-dessus de la plage dans la
/// branche d'augmentation, ni au-dessous dans la branche de réduction : une
/// lecture qui franchit la plage d'un coup (ou une première lecture
/// d'exactement 100) fait sortir l'algorithme hors de ces trois cas.
pub proof fn lemma_plage_configuration_automatique(
    s: Veml7700,
    lectures: Seq<u16>,
    fin: (Veml7700, u16),
)
    requires
        execution_configuration_automatique(s, lectures) == Some(fin),
        lectures.len() > 0,
        lectures[0] < 100 ==> forall|k: int|
            0 <= k < lectures.len() ==> (lectures[k] > 100 ==> lectures[k] <= 10000),
        lectures[0] >= 100 ==> forall|k: int|
            0 <= k < lectures.len() ==> (lectures[k] <= 10000 ==> lectures[k] > 100),
    ensures
        (100 < fin.1 <= 10000) || sensibilite_maximale(fin.0) || (fin.0.temps_integration
            == TempsIntegration::AlsIt25MS && fin.0.correction_non_lineaire_resolution),
{
    let depart = apres_demarrage_automatique(s);
    if lectures[0] < 100 {
        assert(forall|k: int|
            0 <= k < lectures.drop_first().len() ==> (lectures.drop_first()[k] > 100
                ==> lectures.drop_first()[k] <= 10000));
        lemma_plage_branche_augmentation(depart, lectures[0], lectures.drop_first(), fin);
    } else {
        assert(forall|k: int|
            0 <= k < lectures.drop_first().len() ==> (lectures.drop_first()[k] <= 10000
                ==> lectures.drop_first()[k] > 100));
        lemma_plage_branche_reduction(
            Veml7700 { correction_non_lineaire_resolution: true, ..depart },
            lectures[0],
            lectures.drop_first(),
            fin,
        );
    }
}

/// Cache à écriture différée : configurer deux fois les mêmes valeurs puis
/// appliquer ne produit qu'une écriture au plus. La seconde mise en place ne
/// change pas l'état — elle ne relève donc pas l'indicateur — et après
/// l'écriture réussie, plus aucun mot n'est à écrire.
pub proof fn lemma_cache_ecriture(s: Veml7700, cfg: ConfigurationCapteur, maintenant_ms: u64)
    ensures
        apres_configuration_complete(apres_configuration_complete(s, cfg), cfg)
            == apres_configuration_complete(s, cfg),
        apres_ecriture(apres_configuration_complete(s, cfg), maintenant_ms).spec_mot_a_ecrire()
            is None,
{
}

/// Facteur sans dimension de la résolution pour un gain et un temps
/// d'intégration : (800 / temps) × (2 / gain).
pub open spec fn spec_facteur_resolution(gain: Gain, temps: TempsIntegration) -> int {
    (800int / temps.spec_millisecondes() as int) * gain.spec_facteur_sensibilite() as int
}

/// Résolution en dix-millièmes de lux par unité de compte brut.
pub open spec fn spec_resolution_dix_millieme(gain: Gain, temps: TempsIntegration) -> int {
    36 * spec_facteur_resolution(gain, temps)
}

/// Loi de la résolution : pour tout gain et tout temps d'intégration, la
/// résolution en dix-millièmes de lux vaut 36 × (800 / temps) × (2 / gain),
/// l'image à virgule fixe de 0,0036 × (800 / temps) × (2 / gain).
pub proof fn lemma_formule_resolution(gain: Gain, temps: TempsIntegration)
    ensures
        spec_resolution_dix_millieme(gain, temps) == 36 * ((800int
            / temps.spec_millisecondes() as int) * (gain.spec_facteur_sensibilite() as int)),
{
}

} // verus!
