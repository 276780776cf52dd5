//! Écran à encre électronique bicolore : instructions du contrôleur,
//! encodeur de trame en deux plans de bits et machine d'états du protocole.

pub mod encodeur;
pub mod instruction;
pub mod protocole;
