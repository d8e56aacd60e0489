//! Coins where a quarter carries the state that its reverse shows.

use vstd::prelude::*;

verus! {

/// A state of the United States, as shown on the reverse of a quarter.
#[derive(Clone, Copy, Debug, PartialEq, Eq, Structural)]
pub enum EtatUs {
    Alabama,
    Alaska,
}

/// A coin; a quarter names its state.
#[derive(Clone, Copy, Debug, PartialEq, Eq, Structural)]
pub enum Piece {
    Penny,
    Nickel,
    Dime,
    Quarter(EtatUs),
}

/// The value of a coin in cents, whatever state a quarter shows.
pub open spec fn valeur(piece: Piece) -> nat {
    match piece {
        Piece::Penny => 1,
        Piece::Nickel => 5,
        Piece::Dime => 10,
        Piece::Quarter(_) => 25,
    }
}

/// The value of `piece` in cents: 1, 5, 10 or 25.
pub fn valeur_en_centimes(piece: Piece) -> (r: u8)
    ensures
        r == valeur(piece),
        piece == Piece::Penny ==> r == 1,
        piece == Piece::Nickel ==> r == 5,
        piece == Piece::Dime ==> r == 10,
        piece is Quarter ==> r == 25,
{
    match piece {
        Piece::Penny => 1,
        Piece::Nickel => 5,
        Piece::Dime => 10,
        Piece::Quarter(_) => 25,
    }
}

/// The state to announce when valuing `piece`: that of a quarter, and
/// nothing for any other coin.
pub fn etat_annonce(piece: Piece) -> (r: Option<EtatUs>)
    ensures
        r is Some <==> piece is Quarter,
        forall|etat: EtatUs| r == Some(etat) <==> piece == Piece::Quarter(etat),
{
    match piece {
        Piece::Quarter(etat) => Some(etat),
        _ => None,
    }
}

} // verus!
