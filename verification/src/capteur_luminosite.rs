//! Capteur de luminosité ambiante : instructions, codec de registre et
//! contrôleur de configuration à plage automatique.

pub mod capteur;
pub mod codec;
pub mod instruction;
