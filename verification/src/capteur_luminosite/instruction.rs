//! Instructions du capteur de luminosité : adresse du périphérique sur le
//! bus, registres, et codes des champs du mot de configuration.

use vstd::prelude::*;

verus! {

/// Adresse du capteur sur le bus à registres (7 bits).
pub enum AdresseCapteur {
    I2cAddress,
    Vmel7700DefaultI2cAddress,
}

/// Registres du capteur.
#[derive(Copy, Clone, PartialEq, Eq, Structural, Debug)]
pub enum Registre {
    AlsConfig,
    Als,
    AlsWhite,
}

/// Gain d'amplification du capteur : 1, 2, 1/8 ou 1/4.
#[derive(Copy, Clone, PartialEq, Eq, Structural, Debug)]
pub enum Gain {
    AlsGain1,
    AlsGain2,
    AlsGain1_8,
    AlsGain1_4,
}

/// Temps d'intégration d'une mesure, en millisecondes.
#[derive(Copy, Clone, PartialEq, Eq, Structural, Debug)]
pub enum TempsIntegration {
    AlsIt25MS,
    AlsIt50MS,
    AlsIt100MS,
    AlsIt200MS,
    AlsIt400MS,
    AlsIt800MS,
}

/// Persistance des interruptions : 1, 2, 4 ou 8 mesures.
#[derive(Copy, Clone, PartialEq, Eq, Structural, Debug)]
pub enum Persistance {
    AlsPers1,
    AlsPers2,
    AlsPers4,
    AlsPers8,
}

/// Mode d'économie d'énergie, du plus réactif (1) au plus économe (4).
#[derive(Copy, Clone, PartialEq, Eq, Structural, Debug)]
pub enum ModeEconomieEnergie {
    AlsPowerSaveMode1,
    AlsPowerSaveMode2,
    AlsPowerSaveMode3,
    AlsPowerSaveMode4,
}

impl AdresseCapteur {
    /// Adresse du capteur sur le bus : 0x10 dans tous les cas.
    pub fn adresse(self) -> (r: u16)
        ensures
            r == 0x10,
    {
        match self {
            AdresseCapteur::I2cAddress => 0x10,
            AdresseCapteur::Vmel7700DefaultI2cAddress => 0x10,
        }
    }
}

impl Registre {
    /// Adresse du registre dans l'espace du capteur.
    pub open spec fn spec_adresse(self) -> u8 {
        match self {
            Registre::AlsConfig => 0x00,
            Registre::Als => 0x04,
            Registre::AlsWhite => 0x05,
        }
    }

    /// Adresse du registre dans l'espace du capteur.
    pub fn adresse(self) -> (r: u8)
        ensures
            r == self.spec_adresse(),
    {
        match self {
            Registre::AlsConfig => 0x00,
            Registre::Als => 0x04,
            Registre::AlsWhite => 0x05,
        }
    }
}

impl Gain {
    /// Code du gain dans le mot de configuration (2 bits).
    pub open spec fn spec_adresse(self) -> u8 {
        match self {
            Gain::AlsGain1 => 0x00,
            Gain::AlsGain2 => 0x01,
            Gain::AlsGain1_8 => 0x02,
            Gain::AlsGain1_4 => 0x03,
        }
    }

    /// Code du gain dans le mot de configuration (2 bits).
    pub fn adresse(self) -> (r: u8)
        ensures
            r == self.spec_adresse(),
    {
        match self {
            Gain::AlsGain1 => 0x00,
            Gain::AlsGain2 => 0x01,
            Gain::AlsGain1_8 => 0x02,
            Gain::AlsGain1_4 => 0x03,
        }
    }

    /// Quotient du gain maximal (2) par ce gain : 2/gain, toujours entier.
    pub open spec fn spec_facteur_sensibilite(self) -> u16 {
        match self {
            Gain::AlsGain1 => 2,
            Gain::AlsGain2 => 1,
            Gain::AlsGain1_8 => 16,
            Gain::AlsGain1_4 => 8,
        }
    }

    /// Quotient du gain maximal (2) par ce gain : 2/gain, toujours entier.
    pub fn facteur_sensibilite(self) -> (r: u16)
        ensures
            r == self.spec_facteur_sensibilite(),
            1 <= r <= 16,
    {
        match self {
            Gain::AlsGain1 => 2,
            Gain::AlsGain2 => 1,
            Gain::AlsGain1_8 => 16,
            Gain::AlsGain1_4 => 8,
        }
    }

    /// Gain immédiatement supérieur dans l'ordre 1/8, 1/4, 1, 2 ;
    /// le gain maximal est son propre successeur.
    pub open spec fn spec_suivant(self) -> Gain {
        match self {
            Gain::AlsGain1_8 => Gain::AlsGain1_4,
            Gain::AlsGain1_4 => Gain::AlsGain1,
            Gain::AlsGain1 => Gain::AlsGain2,
            Gain::AlsGain2 => Gain::AlsGain2,
        }
    }

    /// Gain immédiatement supérieur dans l'ordre 1/8, 1/4, 1, 2 ;
    /// le gain maximal est son propre successeur.
    pub fn suivant(self) -> (r: Gain)
        ensures
            r == self.spec_suivant(),
    {
        match self {
            Gain::AlsGain1_8 => Gain::AlsGain1_4,
            Gain::AlsGain1_4 => Gain::AlsGain1,
            Gain::AlsGain1 => Gain::AlsGain2,
            Gain::AlsGain2 => Gain::AlsGain2,
        }
    }
}

impl TempsIntegration {
    /// Code du temps d'intégration dans le mot de configuration (4 bits).
    pub open spec fn spec_adresse(self) -> u8 {
        match self {
            TempsIntegration::AlsIt25MS => 0x0C,
            TempsIntegration::AlsIt50MS => 0x08,
            TempsIntegration::AlsIt100MS => 0x00,
            TempsIntegration::AlsIt200MS => 0x01,
            TempsIntegration::AlsIt400MS => 0x02,
            TempsIntegration::AlsIt800MS => 0x03,
        }
    }

    /// Code du temps d'intégration dans le mot de configuration (4 bits).
    pub fn adresse(self) -> (r: u8)
        ensures
            r == self.spec_adresse(),
    {
        match self {
            TempsIntegration::AlsIt25MS => 0x0C,
            TempsIntegration::AlsIt50MS => 0x08,
            TempsIntegration::AlsIt100MS => 0x00,
            TempsIntegration::AlsIt200MS => 0x01,
            TempsIntegration::AlsIt400MS => 0x02,
            TempsIntegration::AlsIt800MS => 0x03,
        }
    }

    /// Durée du temps d'intégration en millisecondes.
    pub open spec fn spec_millisecondes(self) -> u16 {
        match self {
            TempsIntegration::AlsIt25MS => 25,
            TempsIntegration::AlsIt50MS => 50,
            TempsIntegration::AlsIt100MS => 100,
            TempsIntegration::AlsIt200MS => 200,
            TempsIntegration::AlsIt400MS => 400,
            TempsIntegration::AlsIt800MS => 800,
        }
    }

    /// Durée du temps d'intégration en millisecondes.
    pub fn millisecondes(self) -> (r: u16)
        ensures
            r == self.spec_millisecondes(),
    {
        match self {
            TempsIntegration::AlsIt25MS => 25,
            TempsIntegration::AlsIt50MS => 50,
            TempsIntegration::AlsIt100MS => 100,
            TempsIntegration::AlsIt200MS => 200,
            TempsIntegration::AlsIt400MS => 400,
            TempsIntegration::AlsIt800MS => 800,
        }
    }

    /// Quotient du temps d'intégration maximal (800 ms) par ce temps,
    /// toujours entier.
    pub fn facteur_temps(self) -> (r: u16)
        ensures
            r == 800int / self.spec_millisecondes() as int,
            1 <= r <= 32,
    {
        match self {
            TempsIntegration::AlsIt25MS => 32,
            TempsIntegration::AlsIt50MS => 16,
            TempsIntegration::AlsIt100MS => 8,
            TempsIntegration::AlsIt200MS => 4,
            TempsIntegration::AlsIt400MS => 2,
            TempsIntegration::AlsIt800MS => 1,
        }
    }

    /// Temps d'intégration immédiatement plus long ; le plus long (800 ms)
    /// est son propre successeur.
    pub open spec fn spec_suivant(self) -> TempsIntegration {
        match self {
            TempsIntegration::AlsIt25MS => TempsIntegration::AlsIt50MS,
            TempsIntegration::AlsIt50MS => TempsIntegration::AlsIt100MS,
            TempsIntegration::AlsIt100MS => TempsIntegration::AlsIt200MS,
            TempsIntegration::AlsIt200MS => TempsIntegration::AlsIt400MS,
            TempsIntegration::AlsIt400MS => TempsIntegration::AlsIt800MS,
            TempsIntegration::AlsIt800MS => TempsIntegration::AlsIt800MS,
        }
    }

    /// Temps d'intégration immédiatement plus long ; le plus long (800 ms)
    /// est son propre successeur.
    pub fn suivant(self) -> (r: TempsIntegration)
        ensures
            r == self.spec_suivant(),
    {
        match self {
            TempsIntegration::AlsIt25MS => TempsIntegration::AlsIt50MS,
            TempsIntegration::AlsIt50MS => TempsIntegration::AlsIt100MS,
            TempsIntegration::AlsIt100MS => TempsIntegration::AlsIt200MS,
            TempsIntegration::AlsIt200MS => TempsIntegration::AlsIt400MS,
            TempsIntegration::AlsIt400MS => TempsIntegration::AlsIt800MS,
            TempsIntegration::AlsIt800MS => TempsIntegration::AlsIt800MS,
        }
    }

    /// Temps d'intégration immédiatement plus court ; le plus court (25 ms)
    /// est son propre prédécesseur.
    pub open spec fn spec_precedent(self) -> TempsIntegration {
        match self {
            TempsIntegration::AlsIt25MS => TempsIntegration::AlsIt25MS,
            TempsIntegration::AlsIt50MS => TempsIntegration::AlsIt25MS,
            TempsIntegration::AlsIt100MS => TempsIntegration::AlsIt50MS,
            TempsIntegration::AlsIt200MS => TempsIntegration::AlsIt100MS,
            TempsIntegration::AlsIt400MS => TempsIntegration::AlsIt200MS,
            TempsIntegration::AlsIt800MS => TempsIntegration::AlsIt400MS,
        }
    }

    /// Temps d'intégration immédiatement plus court ; le plus court (25 ms)
    /// est son propre prédécesseur.
    pub fn precedent(self) -> (r: TempsIntegration)
        ensures
            r == self.spec_precedent(),
    {
        match self {
            TempsIntegration::AlsIt25MS => TempsIntegration::AlsIt25MS,
            TempsIntegration::AlsIt50MS => TempsIntegration::AlsIt25MS,
            TempsIntegration::AlsIt100MS => TempsIntegration::AlsIt50MS,
            TempsIntegration::AlsIt200MS => TempsIntegration::AlsIt100MS,
            TempsIntegration::AlsIt400MS => TempsIntegration::AlsIt200MS,
            TempsIntegration::AlsIt800MS => TempsIntegration::AlsIt400MS,
        }
    }
}

impl Persistance {
    /// Code de la persistance dans le mot de configuration (2 bits).
    pub open spec fn spec_adresse(self) -> u8 {
        match self {
            Persistance::AlsPers1 => 0x00,
            Persistance::AlsPers2 => 0x01,
            Persistance::AlsPers4 => 0x02,
            Persistance::AlsPers8 => 0x03,
        }
    }

    /// Code de la persistance dans le mot de configuration (2 bits).
    pub fn adresse(self) -> (r: u8)
        ensures
            r == self.spec_adresse(),
    {
        match self {
            Persistance::AlsPers1 => 0x00,
            Persistance::AlsPers2 => 0x01,
            Persistance::AlsPers4 => 0x02,
            Persistance::AlsPers8 => 0x03,
        }
    }
}

impl ModeEconomieEnergie {
    /// Code du mode d'économie d'énergie dans le mot de configuration.
    pub open spec fn spec_adresse(self) -> u8 {
        match self {
            ModeEconomieEnergie::AlsPowerSaveMode1 => 0x00,
            ModeEconomieEnergie::AlsPowerSaveMode2 => 0x01,
            ModeEconomieEnergie::AlsPowerSaveMode3 => 0x02,
            ModeEconomieEnergie::AlsPowerSaveMode4 => 0x03,
        }
    }

    /// Code du mode d'économie d'énergie dans le mot de configuration.
    pub fn adresse(self) -> (r: u8)
        ensures
            r == self.spec_adresse(),
    {
        match self {
            ModeEconomieEnergie::AlsPowerSaveMode1 => 0x00,
            ModeEconomieEnergie::AlsPowerSaveMode2 => 0x01,
            ModeEconomieEnergie::AlsPowerSaveMode3 => 0x02,
            ModeEconomieEnergie::AlsPowerSaveMode4 => 0x03,
        }
    }
}

} // verus!
