//! United States coins and their value in cents.

use vstd::prelude::*;

verus! {

/// A coin, one of four denominations.
#[derive(Clone, Copy, Debug, PartialEq, Eq, Structural)]
pub enum Piece {
    Penny,
    Nickel,
    Dime,
    Quarter,
}

/// The value of a coin in cents.
pub open spec fn valeur(piece: Piece) -> nat {
    match piece {
        Piece::Penny => 1,
        Piece::Nickel => 5,
        Piece::Dime => 10,
        Piece::Quarter => 25,
    }
}

/// The value of `piece` in cents: 1, 5, 10 or 25.
pub fn valeur_en_centimes(piece: Piece) -> (r: u8)
    ensures
        r == valeur(piece),
        piece == Piece::Penny ==> r == 1,
        piece == Piece::Nickel ==> r == 5,
        piece == Piece::Dime ==> r == 10,
        piece == Piece::Quarter ==> r == 25,
{
    match piece {
        Piece::Penny => 1,
        Piece::Nickel => 5,
        Piece::Dime => 10,
        Piece::Quarter => 25,
    }
}

/// Whether valuing `piece` comes with the lucky-penny notice: for a penny,
/// and for no other coin.
pub fn annonce_porte_bonheur(piece: Piece) -> (r: bool)
    ensures
        r <==> piece == Piece::Penny,
{
    match piece {
        Piece::Penny => true,
        _ => false,
    }
}

} // verus!
