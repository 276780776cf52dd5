//! Machine d'états du protocole de l'écran.
//!
//! Le moteur possède l'état du cycle de vie du périphérique et les deux
//! plans de bits à transférer. Chaque phase du cycle — réinitialisation,
//! initialisation, transfert, rafraîchissement, extinction — rend à
//! l'appelant le plan exact d'impulsions, de commandes, d'attentes et de
//! sondages d'occupation à exécuter sur le matériel, et fait avancer l'état.
//! Les transitions ne sont permises que dans l'ordre du cycle ; la
//! réinitialisation, elle, est permise depuis tout état, car le cycle
//! complet est rejoué à chaque mise à jour.

use vstd::prelude::*;

use crate::ecran::encodeur::{encoder_plans, octet_plan};
use crate::ecran::instruction::Instruction;

verus! {

/// Largeur de l'écran en pixels.
pub const LARGEUR: usize = 800;

/// Hauteur de l'écran en pixels.
pub const HAUTEUR: usize = 480;

/// Taille d'un plan de bits en octets : largeur × hauteur / 8.
pub const TAILLE_MEMOIRE_TAMPON: usize = 800 * 480 / 8;

/// Taille maximale d'un bloc de données par transaction de bus.
pub const TAILLE_BLOC_TRANSFERT: usize = 4096;

/// Nombre maximal d'itérations du sondage d'occupation.
pub const LIMITE_INTERROGATIONS: u32 = 1000;

/// Cycle de vie du périphérique d'affichage.
#[derive(Copy, Clone, PartialEq, Eq, Structural, Debug)]
pub enum EtatEcran {
    NonInitialise,
    Reinitialisation,
    Initialise,
    TransfertEnCours,
    Rafraichissement,
    EnSommeil,
}

/// Un créneau de la ligne de réinitialisation : niveau à imposer, puis
/// durée d'attente avant le créneau suivant.
#[derive(Copy, Clone, PartialEq, Eq, Structural, Debug)]
pub struct ImpulsionReinitialisation {
    pub niveau_haut: bool,
    pub attente_apres_ms: u64,
}

/// Une étape de protocole : une commande, ses octets de paramètres, une
/// attente éventuelle après l'envoi, puis un sondage d'occupation éventuel.
pub struct EtapeProtocole {
    pub instruction: Instruction,
    pub parametres: Vec<u8>,
    pub attente_apres_ms: u64,
    pub attendre_disponible: bool,
}

/// L'étape envoie-t-elle cette commande, ces paramètres, cette attente et
/// ce sondage ?
pub open spec fn etape_emise(
    e: EtapeProtocole,
    instruction: Instruction,
    parametres: Seq<u8>,
    attente_apres_ms: u64,
    attendre_disponible: bool,
) -> bool {
    e.instruction == instruction && e.parametres@ =~= parametres && e.attente_apres_ms
        == attente_apres_ms && e.attendre_disponible == attendre_disponible
}

/// Une phase de transfert : la commande de départ, puis les octets d'un
/// plan de bits.
pub struct EtapeTransfert {
    pub instruction: Instruction,
    pub donnees: Vec<u8>,
}

/// Vecteur de `n` octets tous égaux à `valeur`.
pub fn octets_repetes(valeur: u8, n: usize) -> (r: Vec<u8>)
    ensures
        r@.len() == n,
        forall|i: int| 0 <= i < n ==> r@[i] == valeur,
{
    let mut r: Vec<u8> = Vec::new();
    let mut i: usize = 0;
    while i < n
        invariant
            i <= n,
            r@.len() == i,
            forall|x: int| 0 <= x < i ==> r@[x] == valeur,
        decreases n - i,
    {
        r.push(valeur);
        i = i + 1;
    }
    r
}

/// Copie d'un vecteur d'octets, élément par élément.
pub fn copier_octets(source: &Vec<u8>) -> (r: Vec<u8>)
    ensures
        r@ == source@,
{
    let mut r: Vec<u8> = Vec::new();
    let mut i: usize = 0;
    while i < source.len()
        invariant
            i <= source@.len(),
            r@ == source@.subrange(0, i as int),
        decreases source@.len() - i,
    {
        r.push(source[i]);
        assert(r@ =~= source@.subrange(0, i + 1));
        i = i + 1;
    }
    assert(r@ =~= source@);
    r
}

/// Bornes des blocs d'un transfert de `longueur` octets : des intervalles
/// consécutifs d'au plus `taille_bloc` octets qui couvrent tout. Le bloc
/// `i` va de `i × taille_bloc` à `(i + 1) × taille_bloc`, borné par la
/// longueur totale ; leur nombre est le plus petit qui couvre tout.
pub fn decouper_en_blocs(longueur: usize, taille_bloc: usize) -> (r: Vec<(usize, usize)>)
    requires
        taille_bloc > 0,
        longueur <= usize::MAX - taille_bloc,
    ensures
        longueur == 0 ==> r@.len() == 0,
        longueur > 0 ==> (r@.len() - 1) * taille_bloc < longueur <= r@.len() * taille_bloc,
        forall|i: int|
            0 <= i < r@.len() ==> (#[trigger] r@[i]).0 == i * taille_bloc && r@[i].1 == (if (i + 1)
                * taille_bloc <= longueur {
                (i + 1) * (taille_bloc as int)
            } else {
                longueur as int
            }),
{
    let mut r: Vec<(usize, usize)> = Vec::new();
    let mut debut: usize = 0;
    while debut < longueur
        invariant
            taille_bloc > 0,
            longueur <= usize::MAX - taille_bloc,
            debut == r@.len() * taille_bloc,
            r@.len() > 0 ==> (r@.len() - 1) * taille_bloc < longueur,
            longueur > 0 && debut >= longueur ==> r@.len() > 0,
            forall|i: int|
                0 <= i < r@.len() ==> (#[trigger] r@[i]).0 == i * taille_bloc && r@[i].1 == (if (i
                    + 1) * taille_bloc <= longueur {
                    (i + 1) * (taille_bloc as int)
                } else {
                    longueur as int
                }),
        decreases longueur + taille_bloc - debut,
    {
        let ghost n = r@.len() as int;
        proof {
            assert((n + 1) * taille_bloc == n * taille_bloc + taille_bloc) by (nonlinear_arith);
        }
        let restant = longueur - debut;
        let pas = if restant < taille_bloc {
            restant
        } else {
            taille_bloc
        };
        let fin = debut + pas;
        r.push((debut, fin));
        debut = debut + taille_bloc;
    }
    r
}

/// Moteur du protocole de l'écran : état du cycle de vie et plans de bits.
pub struct Wepd7In5BV2 {
    pub etat: EtatEcran,
    pub memoire_noir: Vec<u8>,
    pub memoire_rouge: Vec<u8>,
}

impl Wepd7In5BV2 {
    /// Les deux plans de bits ont la taille fixe de l'écran.
    pub open spec fn bien_forme(self) -> bool {
        self.memoire_noir@.len() == TAILLE_MEMOIRE_TAMPON && self.memoire_rouge@.len()
            == TAILLE_MEMOIRE_TAMPON
    }

    /// Nouveau moteur : non initialisé, plans de bits à zéro.
    pub fn new() -> (r: Wepd7In5BV2)
        ensures
            r.bien_forme(),
            r.etat == EtatEcran::NonInitialise,
            forall|i: int| 0 <= i < TAILLE_MEMOIRE_TAMPON ==> r.memoire_noir@[i] == 0,
            forall|i: int| 0 <= i < TAILLE_MEMOIRE_TAMPON ==> r.memoire_rouge@[i] == 0,
    {
        Wepd7In5BV2 {
            etat: EtatEcran::NonInitialise,
            memoire_noir: octets_repetes(0, TAILLE_MEMOIRE_TAMPON),
            memoire_rouge: octets_repetes(0, TAILLE_MEMOIRE_TAMPON),
        }
    }

    /// Largeur de l'écran en pixels.
    pub fn largeur() -> (r: usize)
        ensures
            r == LARGEUR,
    {
        LARGEUR
    }

    /// Hauteur de l'écran en pixels.
    pub fn hauteur() -> (r: usize)
        ensures
            r == HAUTEUR,
    {
        HAUTEUR
    }

    /// Plan de la réinitialisation : ligne de réinitialisation haute 200 ms,
    /// basse 4 ms, haute 200 ms. Permise depuis tout état — le cycle complet
    /// est rejoué à chaque mise à jour — et mène à l'état Réinitialisation.
    pub fn plan_reinitialisation(&mut self) -> (r: Vec<ImpulsionReinitialisation>)
        ensures
            final(self).etat == EtatEcran::Reinitialisation,
            final(self).memoire_noir == old(self).memoire_noir,
            final(self).memoire_rouge == old(self).memoire_rouge,
            r@ =~= seq![
                ImpulsionReinitialisation { niveau_haut: true, attente_apres_ms: 200 },
                ImpulsionReinitialisation { niveau_haut: false, attente_apres_ms: 4 },
                ImpulsionReinitialisation { niveau_haut: true, attente_apres_ms: 200 },
            ],
    {
        self.etat = EtatEcran::Reinitialisation;
        let mut r: Vec<ImpulsionReinitialisation> = Vec::new();
        r.push(ImpulsionReinitialisation { niveau_haut: true, attente_apres_ms: 200 });
        r.push(ImpulsionReinitialisation { niveau_haut: false, attente_apres_ms: 4 });
        r.push(ImpulsionReinitialisation { niveau_haut: true, attente_apres_ms: 200 });
        r
    }

    /// Plan de l'initialisation : la suite fixe des commandes du panneau.
    /// Après la commande de mise sous tension, l'appelant attend 100 ms puis
    /// sonde l'occupation avant de poursuivre. Permise après la
    /// réinitialisation seulement ; mène à l'état Initialisé.
    pub fn plan_initialisation(&mut self) -> (r: Vec<EtapeProtocole>)
        requires
            old(self).etat == EtatEcran::Reinitialisation,
        ensures
            final(self).etat == EtatEcran::Initialise,
            final(self).memoire_noir == old(self).memoire_noir,
            final(self).memoire_rouge == old(self).memoire_rouge,
            r@.len() == 8,
            etape_emise(r@[0], Instruction::PowerSetting, seq![0x07u8, 0x07, 0x3f, 0x3f], 0, false),
            etape_emise(r@[1], Instruction::PowerOn, seq![0xF7u8], 100, true),
            etape_emise(r@[2], Instruction::PanelSetting, seq![0x0Fu8], 0, false),
            etape_emise(r@[3], Instruction::Tres, seq![0x03u8, 0x20, 0x01, 0xE0], 0, false),
            etape_emise(r@[4], Instruction::Unknown1, seq![0x00u8], 0, false),
            etape_emise(
                r@[5],
                Instruction::VcomAndDataIntervalSetting,
                seq![0x11u8, 0x07],
                0,
                false,
            ),
            etape_emise(r@[6], Instruction::TconSetting, seq![0x22u8], 0, false),
            etape_emise(r@[7], Instruction::Unknown2, seq![0x00u8, 0x00, 0x00, 0x00], 0, false),
    {
        self.etat = EtatEcran::Initialise;
        let mut r: Vec<EtapeProtocole> = Vec::new();
        r.push(
            EtapeProtocole {
                instruction: Instruction::PowerSetting,
                parametres: vec![0x07, 0x07, 0x3f, 0x3f],
                attente_apres_ms: 0,
                attendre_disponible: false,
            },
        );
        r.push(
            EtapeProtocole {
                instruction: Instruction::PowerOn,
                parametres: vec![0xF7],
                attente_apres_ms: 100,
                attendre_disponible: true,
            },
        );
        r.push(
            EtapeProtocole {
                instruction: Instruction::PanelSetting,
                parametres: vec![0x0F],
                attente_apres_ms: 0,
                attendre_disponible: false,
            },
        );
        r.push(
            EtapeProtocole {
                instruction: Instruction::Tres,
                parametres: vec![0x03, 0x20, 0x01, 0xE0],
                attente_apres_ms: 0,
                attendre_disponible: false,
            },
        );
        r.push(
            EtapeProtocole {
                instruction: Instruction::Unknown1,
                parametres: vec![0x00],
                attente_apres_ms: 0,
                attendre_disponible: false,
            },
        );
        r.push(
            EtapeProtocole {
                instruction: Instruction::VcomAndDataIntervalSetting,
                parametres: vec![0x11, 0x07],
                attente_apres_ms: 0,
                attendre_disponible: false,
            },
        );
        r.push(
            EtapeProtocole {
                instruction: Instruction::TconSetting,
                parametres: vec![0x22],
                attente_apres_ms: 0,
                attendre_disponible: false,
            },
        );
        r.push(
            EtapeProtocole {
                instruction: Instruction::Unknown2,
                parametres: vec![0x00, 0x00, 0x00, 0x00],
                attente_apres_ms: 0,
                attendre_disponible: false,
            },
        );
        r
    }

    /// Convertit une image de deux octets par pixel aux dimensions de
    /// l'écran et la range dans les plans de bits du moteur ; rien n'est
    /// transféré à l'écran.
    pub fn sauvegarder_image_memoire_tampon(&mut self, image: &Vec<u8>)
        requires
            image@.len() == 2 * LARGEUR * HAUTEUR,
        ensures
            final(self).etat == old(self).etat,
            final(self).bien_forme(),
            forall|k: int|
                0 <= k < TAILLE_MEMOIRE_TAMPON ==> final(self).memoire_noir@[k] == octet_plan(
                    image@,
                    8 * k,
                    8,
                    false,
                ),
            forall|k: int|
                0 <= k < TAILLE_MEMOIRE_TAMPON ==> final(self).memoire_rouge@[k] == !octet_plan(
                    image@,
                    8 * k,
                    8,
                    true,
                ),
    {
        let plans = encoder_plans(image);
        self.memoire_noir = plans.0;
        self.memoire_rouge = plans.1;
    }

    /// Remet les plans de bits à « pas d'encre » : plan noir tout à 0xFF,
    /// plan rouge tout à 0x00.
    pub fn effacer_memoire_tampon(&mut self)
        ensures
            final(self).etat == old(self).etat,
            final(self).bien_forme(),
            forall|i: int| 0 <= i < TAILLE_MEMOIRE_TAMPON ==> final(self).memoire_noir@[i] == 0xFF,
            forall|i: int| 0 <= i < TAILLE_MEMOIRE_TAMPON ==> final(self).memoire_rouge@[i] == 0x00,
    {
        self.memoire_noir = octets_repetes(0xFF, TAILLE_MEMOIRE_TAMPON);
        self.memoire_rouge = octets_repetes(0x00, TAILLE_MEMOIRE_TAMPON);
    }

    /// Plan du transfert : la commande de première transmission suivie des
    /// octets du plan noir, puis la commande de seconde transmission suivie
    /// des octets du plan rouge. L'appelant découpe chaque suite d'octets en
    /// blocs d'au plus la taille maximale par transaction. Permis après
    /// l'initialisation seulement ; mène à l'état Transfert en cours.
    pub fn plan_transfert(&mut self) -> (r: Vec<EtapeTransfert>)
        requires
            old(self).etat == EtatEcran::Initialise,
        ensures
            final(self).etat == EtatEcran::TransfertEnCours,
            final(self).memoire_noir == old(self).memoire_noir,
            final(self).memoire_rouge == old(self).memoire_rouge,
            r@.len() == 2,
            r@[0].instruction == Instruction::DataStartTransmission1,
            r@[0].donnees@ == old(self).memoire_noir@,
            r@[1].instruction == Instruction::DataStartTransmission2,
            r@[1].donnees@ == old(self).memoire_rouge@,
    {
        self.etat = EtatEcran::TransfertEnCours;
        let noir = copier_octets(&self.memoire_noir);
        let rouge = copier_octets(&self.memoire_rouge);
        let mut r: Vec<EtapeTransfert> = Vec::new();
        r.push(EtapeTransfert { instruction: Instruction::DataStartTransmission1, donnees: noir });
        r.push(EtapeTransfert { instruction: Instruction::DataStartTransmission2, donnees: rouge });
        r
    }

    /// Plan du rafraîchissement : la commande de rafraîchissement, une
    /// attente de 100 ms, puis un sondage d'occupation. Permis après le
    /// transfert seulement ; mène à l'état Rafraîchissement.
    pub fn plan_rafraichissement(&mut self) -> (r: EtapeProtocole)
        requires
            old(self).etat == EtatEcran::TransfertEnCours,
        ensures
            final(self).etat == EtatEcran::Rafraichissement,
            final(self).memoire_noir == old(self).memoire_noir,
            final(self).memoire_rouge == old(self).memoire_rouge,
            etape_emise(r, Instruction::DisplayRefresh, Seq::empty(), 100, true),
    {
        self.etat = EtatEcran::Rafraichissement;
        EtapeProtocole {
            instruction: Instruction::DisplayRefresh,
            parametres: Vec::new(),
            attente_apres_ms: 100,
            attendre_disponible: true,
        }
    }

    /// Plan de l'extinction : la commande de mise hors tension suivie d'un
    /// sondage d'occupation, puis la commande de sommeil profond avec son
    /// paramètre fixe. Permis après le rafraîchissement seulement ; mène à
    /// l'état En sommeil.
    pub fn plan_extinction(&mut self) -> (r: Vec<EtapeProtocole>)
        requires
            old(self).etat == EtatEcran::Rafraichissement,
        ensures
            final(self).etat == EtatEcran::EnSommeil,
            final(self).memoire_noir == old(self).memoire_noir,
            final(self).memoire_rouge == old(self).memoire_rouge,
            r@.len() == 2,
            etape_emise(r@[0], Instruction::PowerOff, Seq::empty(), 0, true),
            etape_emise(r@[1], Instruction::DeepSleep, seq![0xA5u8], 0, false),
    {
        self.etat = EtatEcran::EnSommeil;
        let mut r: Vec<EtapeProtocole> = Vec::new();
        r.push(
            EtapeProtocole {
                instruction: Instruction::PowerOff,
                parametres: Vec::new(),
                attente_apres_ms: 0,
                attendre_disponible: true,
            },
        );
        r.push(
            EtapeProtocole {
                instruction: Instruction::DeepSleep,
                parametres: vec![0xA5],
                attente_apres_ms: 0,
                attendre_disponible: false,
            },
        );
        r
    }
}

/// Compteur du sondage d'occupation : l'appelant interroge l'état du
/// périphérique (commande d'état d'occupation puis lecture de la ligne
/// d'occupation), attend 100 ms entre deux interrogations, et s'arrête dès
/// que le périphérique est disponible ou que la borne d'itérations est
/// atteinte. La borne atteinte n'est pas une erreur : l'opération continue
/// avec optimisme, l'appelant la signale seulement.
pub struct SondeOccupation {
    pub iterations: u32,
}

/// Le sondage continue-t-il : le périphérique est occupé et la borne n'est
/// pas atteinte ?
pub open spec fn poursuivre_sondage(s: SondeOccupation, occupe: bool) -> bool {
    occupe && s.iterations < LIMITE_INTERROGATIONS
}

/// Nombre d'itérations que consomme le sondage sur une suite d'états
/// d'occupation, à partir d'un état du compteur.
pub open spec fn iterations_consommees(s: SondeOccupation, occupations: Seq<bool>) -> int
    decreases occupations.len(),
{
    if occupations.len() == 0 || !poursuivre_sondage(s, occupations[0]) {
        0
    } else {
        1 + iterations_consommees(
            SondeOccupation { iterations: (s.iterations + 1) as u32 },
            occupations.drop_first(),
        )
    }
}

impl SondeOccupation {
    /// Nouveau compteur, à zéro.
    pub fn new() -> (r: SondeOccupation)
        ensures
            r.iterations == 0,
    {
        SondeOccupation { iterations: 0 }
    }

    /// Une interrogation de plus : continue si le périphérique est occupé
    /// et que la borne n'est pas atteinte, et compte l'itération.
    pub fn poursuivre(&mut self, occupe: bool) -> (r: bool)
        ensures
            r == poursuivre_sondage(*old(self), occupe),
            final(self).iterations == if r {
                old(self).iterations + 1
            } else {
                old(self).iterations as int
            },
    {
        if occupe && self.iterations < LIMITE_INTERROGATIONS {
            self.iterations = self.iterations + 1;
            true
        } else {
            false
        }
    }

    /// La borne d'itérations a-t-elle été atteinte sans que le périphérique
    /// se libère ?
    pub fn abandonnee(&self) -> (r: bool)
        ensures
            r == (self.iterations >= LIMITE_INTERROGATIONS),
    {
        self.iterations >= LIMITE_INTERROGATIONS
    }
}

/// Borne du sondage d'occupation : quelle que soit la suite des états
/// d'occupation, un sondage parti de zéro consomme au plus la borne
/// d'itérations — il rend donc toujours la main ; et si le signal
/// d'occupation ne retombe jamais, il s'arrête après exactement la borne.
pub proof fn lemma_borne_sondage(s: SondeOccupation, occupations: Seq<bool>)
    ensures
        iterations_consommees(s, occupations) <= LIMITE_INTERROGATIONS - s.iterations
            || iterations_consommees(s, occupations) == 0,
        s.iterations <= LIMITE_INTERROGATIONS ==> iterations_consommees(s, occupations)
            <= LIMITE_INTERROGATIONS - s.iterations,
        (s.iterations <= LIMITE_INTERROGATIONS && occupations.len() + s.iterations
            >= LIMITE_INTERROGATIONS && (forall|k: int|
            0 <= k < occupations.len() ==> occupations[k])) ==> iterations_consommees(
            s,
            occupations,
        ) == LIMITE_INTERROGATIONS - s.iterations,
    decreases occupations.len(),
{
    if occupations.len() > 0 && poursuivre_sondage(s, occupations[0]) {
        lemma_borne_sondage(
            SondeOccupation { iterations: (s.iterations + 1) as u32 },
            occupations.drop_first(),
        );
    }
}

} // verus!
