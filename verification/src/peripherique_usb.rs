//! Commande de l'alimentation d'un port USB par fichier de contrôle : le
//! fichier « disable » du port reçoit « 0 » pour alimenter le périphérique
//! et « 1 » pour le couper. La bibliothèque fixe le texte à écrire ;
//! l'écriture du fichier revient à l'appelant.

use vstd::prelude::*;

verus! {

/// Périphérique alimenté par un port USB commandable.
pub struct PeripheriqueUsb {}

impl PeripheriqueUsb {
    /// Texte à écrire dans le fichier de contrôle du port : « 0 » allume
    /// le périphérique, « 1 » le coupe.
    pub fn texte_commande_etat(allume: bool) -> (r: &'static str)
        ensures
            allume ==> r@ == "0"@,
            !allume ==> r@ == "1"@,
    {
        if allume {
            "0"
        } else {
            "1"
        }
    }
}

} // verus!
