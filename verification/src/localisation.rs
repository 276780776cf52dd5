//! Décisions du client de localisation.
//!
//! L'appelant dialogue avec un service de localisation par un flux réseau :
//! il envoie une fois le message d'abonnement, lit des phrases au format
//! JSON, et s'arrête dès qu'une phrase de position est acceptable. La
//! bibliothèque fixe le message d'abonnement, l'état « message envoyé » de
//! la session et le critère d'acceptation d'une phrase ; la lecture,
//! l'écriture et l'analyse JSON reviennent à l'appelant, qui rend ici des
//! valeurs simples.

use vstd::prelude::*;
use vstd::string::StringSliceAdditionalSpecFns;

verus! {

/// Message d'abonnement au service de localisation, envoyé une seule fois
/// en tête de session.
pub fn message_initialisation() -> (r: &'static str)
    ensures
        r@ == "?WATCH={\"enable\":true,\"json\":true};"@,
{
    "?WATCH={\"enable\":true,\"json\":true};"
}

/// Les horloges sont-elles synchronisées : l'écart entre l'heure du système
/// et celle du service, en millisecondes, est-il strictement inférieur à
/// une seconde en valeur absolue ?
pub fn heures_synchronisees(difference_heure_ms: i64) -> (r: bool)
    ensures
        r == (-1000 < difference_heure_ms < 1000),
{
    -1000 < difference_heure_ms && difference_heure_ms < 1000
}

/// La classe d'une phrase est-elle la classe de position « TPV » : ses
/// octets sont-ils exactement T, P, V ?
pub fn est_classe_tpv(classe: &str) -> (r: bool)
    ensures
        r == (classe.spec_bytes() =~= seq![84u8, 80u8, 86u8]),
{
    let octets = classe.as_bytes();
    if octets.len() != 3 {
        proof {
            assert(!(classe.spec_bytes() =~= seq![84u8, 80u8, 86u8]));
        }
        return false;
    }
    let r = octets[0] == 84 && octets[1] == 80 && octets[2] == 86;
    proof {
        if r {
            assert(classe.spec_bytes() =~= seq![84u8, 80u8, 86u8]);
        } else {
            assert(!(classe.spec_bytes() =~= seq![84u8, 80u8, 86u8]));
        }
    }
    r
}

/// Une phrase de position est-elle acceptable : classe « TPV », heure et
/// latitude connues, horloges synchronisées à moins d'une seconde près ?
pub fn phrase_tpv_acceptable(
    classe: &str,
    heure_connue: bool,
    latitude_connue: bool,
    difference_heure_ms: i64,
) -> (r: bool)
    ensures
        r == ((classe.spec_bytes() =~= seq![84u8, 80u8, 86u8]) && heure_connue && latitude_connue
            && -1000 < difference_heure_ms < 1000),
{
    est_classe_tpv(classe) && heure_connue && latitude_connue && heures_synchronisees(
        difference_heure_ms,
    )
}

/// État d'une session de localisation : le message d'abonnement n'est
/// envoyé qu'une fois.
pub struct SessionLocalisation {
    pub initialisation_envoyee: bool,
}

impl SessionLocalisation {
    /// Nouvelle session : message d'abonnement pas encore envoyé.
    pub fn new() -> (r: SessionLocalisation)
        ensures
            !r.initialisation_envoyee,
    {
        SessionLocalisation { initialisation_envoyee: false }
    }

    /// Faut-il envoyer le message d'abonnement : le flux est inscriptible
    /// et le message n'est pas encore parti ?
    pub fn doit_envoyer_initialisation(&self, inscriptible: bool) -> (r: bool)
        ensures
            r == (inscriptible && !self.initialisation_envoyee),
    {
        inscriptible && !self.initialisation_envoyee
    }

    /// Enregistre l'envoi du message d'abonnement.
    pub fn marquer_initialisation_envoyee(&mut self)
        ensures
            final(self).initialisation_envoyee,
    {
        self.initialisation_envoyee = true;
    }
}

} // verus!
