//! Encodeur de trame : convertit une image de deux octets par pixel en deux
//! plans de bits monochromes (noir et rouge), huit pixels horizontaux par
//! octet, bit de poids fort en premier.
//!
//! Chaque octet des plans part de 0xFF (« pas d'encre ») ; le bit d'un pixel
//! est effacé dans le plan noir si les deux octets de son échantillon sont
//! nuls, et dans l'accumulateur rouge si le premier octet est nul et le
//! second non nul. L'accumulateur rouge est inversé avant d'être rangé : un
//! bit à 1 du plan rouge final signifie « encre rouge ». Tout autre motif
//! d'octets — dont le blanc pur — laisse les deux plans à « pas d'encre ».

use vstd::prelude::*;

verus! {

/// L'échantillon du pixel `p` est-il du noir pur : deux octets nuls ?
pub open spec fn pixel_noir(image: Seq<u8>, p: int) -> bool {
    image[2 * p] == 0 && image[2 * p + 1] == 0
}

/// L'échantillon du pixel `p` est-il du rouge : premier octet nul, second
/// non nul ?
pub open spec fn pixel_rouge(image: Seq<u8>, p: int) -> bool {
    image[2 * p] == 0 && image[2 * p + 1] != 0
}

/// Le pixel `p` porte-t-il l'encre du plan visé ?
pub open spec fn pixel_encre(image: Seq<u8>, p: int, rouge: bool) -> bool {
    if rouge {
        pixel_rouge(image, p)
    } else {
        pixel_noir(image, p)
    }
}

/// Octet d'un plan après examen des `j` premiers pixels du groupe de huit
/// qui commence au pixel `premier` : 0xFF au départ, et le bit de poids
/// 0x80 >> n est effacé pour chaque pixel n du groupe qui porte l'encre.
pub open spec fn octet_plan(image: Seq<u8>, premier: int, j: nat, rouge: bool) -> u8
    decreases j,
{
    if j == 0 {
        0xFF
    } else {
        let o = octet_plan(image, premier, (j - 1) as nat, rouge);
        if pixel_encre(image, premier + j - 1, rouge) {
            o & !(0x80u8 >> ((j - 1) as u8))
        } else {
            o
        }
    }
}

/// Encode une image de deux octets par pixel en deux plans de bits.
///
/// Le premier plan rendu est le plan noir (bit à 0 : encre noire), le
/// second le plan rouge (bit à 1 : encre rouge, après inversion finale).
pub fn encoder_plans(image: &Vec<u8>) -> (r: (Vec<u8>, Vec<u8>))
    requires
        image@.len() % 16 == 0,
    ensures
        r.0@.len() == image@.len() / 16,
        r.1@.len() == image@.len() / 16,
        forall|k: int| 0 <= k < r.0@.len() ==> r.0@[k] == octet_plan(image@, 8 * k, 8, false),
        forall|k: int| 0 <= k < r.1@.len() ==> r.1@[k] == !octet_plan(image@, 8 * k, 8, true),
{
    let longueur = image.len();
    let nombre_octets = longueur / 16;
    let mut noir: Vec<u8> = Vec::new();
    let mut rouge: Vec<u8> = Vec::new();
    let mut k: usize = 0;
    while k < nombre_octets
        invariant
            image@.len() % 16 == 0,
            longueur == image@.len(),
            nombre_octets == image@.len() / 16,
            k <= nombre_octets,
            noir@.len() == k,
            rouge@.len() == k,
            forall|x: int| 0 <= x < k ==> noir@[x] == octet_plan(image@, 8 * x, 8, false),
            forall|x: int| 0 <= x < k ==> rouge@[x] == !octet_plan(image@, 8 * x, 8, true),
        decreases nombre_octets - k,
    {
        let mut couleur_noir: u8 = 0xFF;
        let mut couleur_rouge: u8 = 0xFF;
        let mut j: usize = 0;
        while j < 8
            invariant
                image@.len() % 16 == 0,
                longueur == image@.len(),
                nombre_octets == image@.len() / 16,
                k < nombre_octets,
                j <= 8,
                couleur_noir == octet_plan(image@, 8 * k, j as nat, false),
                couleur_rouge == octet_plan(image@, 8 * k, j as nat, true),
            decreases 8 - j,
        {
            let indice: usize = 16 * k + 2 * j;
            assert(16 * k + 2 * j + 1 < image@.len());
            let premier_octet = image[indice];
            let second_octet = image[indice + 1];
            if premier_octet == 0 && second_octet == 0 {
                couleur_noir = couleur_noir & !(0x80u8 >> (j as u8));
            } else if premier_octet == 0 && second_octet != 0 {
                couleur_rouge = couleur_rouge & !(0x80u8 >> (j as u8));
            }
            j = j + 1;
        }
        noir.push(couleur_noir);
        rouge.push(!couleur_rouge);
        k = k + 1;
    }
    (noir, rouge)
}

/// Le bit de poids `n` d'un octet vaut-il 1 ?
pub open spec fn bit_octet(o: u8, n: u8) -> bool {
    (o >> n) & 1 == 1
}

/// Effacer le bit de poids 7 − j d'un octet ne change que ce bit.
proof fn lemma_effacement_bit(o: u8, j: u8, n: u8)
    by (bit_vector)
    requires
        j < 8,
        n < 8,
    ensures
        ((o & !(0x80u8 >> j)) >> n) & 1 == (if n == 7 - j {
            0u8
        } else {
            (o >> n) & 1
        }),
{
}

/// Tout bit d'un octet à 0xFF vaut 1.
proof fn lemma_bits_de_depart(n: u8)
    by (bit_vector)
    requires
        n < 8,
    ensures
        (0xFFu8 >> n) & 1 == 1,
{
}

/// Après examen des `m` premiers pixels d'un groupe, le bit de poids 7 − j
/// de l'octet du plan vaut 0 si et seulement si le pixel j, déjà examiné,
/// porte l'encre visée ; les bits des pixels pas encore examinés valent 1.
proof fn lemma_bits_octet_plan(image: Seq<u8>, premier: int, m: nat, j: nat, rouge: bool)
    requires
        m <= 8,
        j < 8,
    ensures
        j < m ==> bit_octet(octet_plan(image, premier, m, rouge), (7 - j) as u8) == !pixel_encre(
            image,
            premier + j,
            rouge,
        ),
        j >= m ==> bit_octet(octet_plan(image, premier, m, rouge), (7 - j) as u8),
    decreases m,
{
    if m == 0 {
        lemma_bits_de_depart((7 - j) as u8);
    } else {
        lemma_bits_octet_plan(image, premier, (m - 1) as nat, j, rouge);
        let o = octet_plan(image, premier, (m - 1) as nat, rouge);
        if pixel_encre(image, premier + m - 1, rouge) {
            lemma_effacement_bit(o, (m - 1) as u8, (7 - j) as u8);
        }
    }
}

/// Sens des bits d'un plan : huit pixels horizontaux par octet, bit de
/// poids fort en premier — le bit de poids 7 − j de l'octet d'un groupe
/// vaut 0 si et seulement si le pixel j du groupe porte l'encre visée.
pub proof fn lemma_sens_des_bits(image: Seq<u8>, premier: int, j: nat, rouge: bool)
    requires
        j < 8,
    ensures
        bit_octet(octet_plan(image, premier, 8, rouge), (7 - j) as u8) == !pixel_encre(
            image,
            premier + j,
            rouge,
        ),
{
    lemma_bits_octet_plan(image, premier, 8, j, rouge);
}

/// Un groupe de pixels dont aucun ne porte l'encre visée laisse l'octet du
/// plan à sa valeur de départ, 0xFF.
pub proof fn lemma_octet_sans_encre(image: Seq<u8>, premier: int, j: nat, rouge: bool)
    requires
        forall|p: int| premier <= p < premier + j ==> !pixel_encre(image, p, rouge),
    ensures
        octet_plan(image, premier, j, rouge) == 0xFF,
    decreases j,
{
    if j > 0 {
        lemma_octet_sans_encre(image, premier, (j - 1) as nat, rouge);
    }
}

/// Huit pixels qui portent tous l'encre visée effacent les huit bits de
/// l'octet du plan.
pub proof fn lemma_octet_tout_encre(image: Seq<u8>, premier: int, rouge: bool)
    requires
        forall|p: int| premier <= p < premier + 8 ==> pixel_encre(image, p, rouge),
    ensures
        octet_plan(image, premier, 8, rouge) == 0x00,
{
    assert(0xFFu8 & !(0x80u8 >> 0u8) == 0x7F && 0x7Fu8 & !(0x80u8 >> 1u8) == 0x3F && 0x3Fu8 & !(
    0x80u8 >> 2u8) == 0x1F && 0x1Fu8 & !(0x80u8 >> 3u8) == 0x0F && 0x0Fu8 & !(0x80u8 >> 4u8) == 0x07
        && 0x07u8 & !(0x80u8 >> 5u8) == 0x03 && 0x03u8 & !(0x80u8 >> 6u8) == 0x01 && 0x01u8 & !(
    0x80u8 >> 7u8) == 0x00) by (bit_vector);
    assert(octet_plan(image, premier, 0, rouge) == 0xFF);
    assert(octet_plan(image, premier, 1, rouge) == 0x7F);
    assert(octet_plan(image, premier, 2, rouge) == 0x3F);
    assert(octet_plan(image, premier, 3, rouge) == 0x1F);
    assert(octet_plan(image, premier, 4, rouge) == 0x0F);
    assert(octet_plan(image, premier, 5, rouge) == 0x07);
    assert(octet_plan(image, premier, 6, rouge) == 0x03);
    assert(octet_plan(image, premier, 7, rouge) == 0x01);
}

/// Image uniformément blanche (tous les octets à 0xFF) : aucun pixel ne
/// porte d'encre, le plan noir reste à 0xFF et le plan rouge final à 0x00.
pub proof fn lemma_plans_image_blanche(image: Seq<u8>, k: int)
    requires
        image.len() % 16 == 0,
        0 <= k < image.len() / 16,
        forall|i: int| 0 <= i < image.len() ==> image[i] == 0xFF,
    ensures
        octet_plan(image, 8 * k, 8, false) == 0xFF,
        !octet_plan(image, 8 * k, 8, true) == 0x00,
{
    assert forall|p: int| 8 * k <= p < 8 * k + 8 implies !pixel_encre(image, p, false) && !pixel_encre(
        image,
        p,
        true,
    ) by {
        assert(0 <= 2 * p && 2 * p + 1 < image.len());
    }
    lemma_octet_sans_encre(image, 8 * k, 8, false);
    lemma_octet_sans_encre(image, 8 * k, 8, true);
    assert(!0xFFu8 == 0x00u8) by (bit_vector);
}

/// Image uniformément noire (tous les octets à 0x00) : chaque pixel porte
/// l'encre noire et aucune encre rouge, le plan noir tombe à 0x00 et le
/// plan rouge final reste à 0x00.
pub proof fn lemma_plans_image_noire(image: Seq<u8>, k: int)
    requires
        image.len() % 16 == 0,
        0 <= k < image.len() / 16,
        forall|i: int| 0 <= i < image.len() ==> image[i] == 0x00,
    ensures
        octet_plan(image, 8 * k, 8, false) == 0x00,
        !octet_plan(image, 8 * k, 8, true) == 0x00,
{
    assert forall|p: int| 8 * k <= p < 8 * k + 8 implies pixel_encre(image, p, false) && !pixel_encre(
        image,
        p,
        true,
    ) by {
        assert(0 <= 2 * p && 2 * p + 1 < image.len());
    }
    lemma_octet_tout_encre(image, 8 * k, false);
    lemma_octet_sans_encre(image, 8 * k, 8, true);
    assert(!0xFFu8 == 0x00u8) by (bit_vector);
}

/// Image uniformément rouge (octets alternés 0x00 puis une valeur non
/// nulle) : chaque pixel porte l'encre rouge et aucune encre noire, le plan
/// noir reste à 0xFF et le plan rouge final monte à 0xFF.
pub proof fn lemma_plans_image_rouge(image: Seq<u8>, k: int)
    requires
        image.len() % 16 == 0,
        0 <= k < image.len() / 16,
        forall|i: int| 0 <= i < image.len() ==> (if i % 2 == 0 {
            image[i] == 0x00
        } else {
            image[i] != 0x00
        }),
    ensures
        octet_plan(image, 8 * k, 8, false) == 0xFF,
        !octet_plan(image, 8 * k, 8, true) == 0xFF,
{
    assert forall|p: int| 8 * k <= p < 8 * k + 8 implies !pixel_encre(image, p, false) && pixel_encre(
        image,
        p,
        true,
    ) by {
        assert(0 <= 2 * p && 2 * p + 1 < image.len());
        assert((2 * p) % 2 == 0 && (2 * p + 1) % 2 == 1);
    }
    lemma_octet_sans_encre(image, 8 * k, 8, false);
    lemma_octet_tout_encre(image, 8 * k, true);
    assert(!0x00u8 == 0xFFu8) by (bit_vector);
}

} // verus!
