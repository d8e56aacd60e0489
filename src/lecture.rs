//! Reading a whole file into a string, as a sequence of decisions.
//!
//! The caller performs each action (open the file, read all of it) and
//! reports what came of it; `action_suivante` says what to do next. The first
//! step that fails ends the run, and its error is handed back unchanged.

use vstd::prelude::*;

verus! {

/// What the caller reports: the start of a run, or how the last action went.
pub enum Evenement<E> {
    Debut,
    OuvertureReussie,
    OuvertureEchouee(E),
    LectureReussie(String),
    LectureEchouee(E),
}

/// What the caller does next.
pub enum Action<E> {
    /// Open the file.
    Ouvrir,
    /// Read the whole content of the opened file.
    Lire,
    /// Stop and hand this result back.
    Rendre(Result<String, E>),
}

/// The action that follows an event.
pub open spec fn action_de<E>(evt: Evenement<E>) -> Action<E> {
    match evt {
        Evenement::Debut => Action::Ouvrir,
        Evenement::OuvertureReussie => Action::Lire,
        Evenement::OuvertureEchouee(e) => Action::Rendre(Err(e)),
        Evenement::LectureReussie(texte) => Action::Rendre(Ok(texte)),
        Evenement::LectureEchouee(e) => Action::Rendre(Err(e)),
    }
}

/// The action to take after `evt`: open at the start, read once opened, and
/// hand back the text, or the error of the step that failed.
pub fn action_suivante<E>(evt: Evenement<E>) -> (r: Action<E>)
    ensures
        r == action_de(evt),
{
    match evt {
        Evenement::Debut => Action::Ouvrir,
        Evenement::OuvertureReussie => Action::Lire,
        Evenement::OuvertureEchouee(e) => Action::Rendre(Err(e)),
        Evenement::LectureReussie(texte) => Action::Rendre(Ok(texte)),
        Evenement::LectureEchouee(e) => Action::Rendre(Err(e)),
    }
}

/// The event that reports how opening went.
pub open spec fn evenement_ouverture<E>(ouverture: Result<(), E>) -> Evenement<E> {
    match ouverture {
        Ok(_) => Evenement::OuvertureReussie,
        Err(e) => Evenement::OuvertureEchouee(e),
    }
}

/// The event that reports how reading went.
pub open spec fn evenement_lecture<E>(lecture: Result<String, E>) -> Evenement<E> {
    match lecture {
        Ok(texte) => Evenement::LectureReussie(texte),
        Err(e) => Evenement::LectureEchouee(e),
    }
}

/// The last action of a run in which opening gave `ouverture` and, if it was
/// asked for, reading gave `lecture`.
pub open spec fn derniere_action<E>(ouverture: Result<(), E>, lecture: Result<String, E>) -> Action<E> {
    let apres_ouverture = action_de(evenement_ouverture(ouverture));
    if apres_ouverture is Lire {
        action_de(evenement_lecture(lecture))
    } else {
        apres_ouverture
    }
}

/// What reading a file gives: the error of opening if it failed, else what
/// reading gave.
pub open spec fn issue_lecture<E>(ouverture: Result<(), E>, lecture: Result<String, E>) -> Result<String, E> {
    match ouverture {
        Err(e) => Err(e),
        Ok(_) => lecture,
    }
}

/// A run starts by opening the file, reads it only once opening succeeded, and
/// ends by handing back the text that was read, or the error of the first step
/// that failed.
pub proof fn lemme_deroulement<E>(ouverture: Result<(), E>, lecture: Result<String, E>)
    ensures
        action_de(Evenement::<E>::Debut) == Action::<E>::Ouvrir,
        (action_de(evenement_ouverture(ouverture)) is Lire) <==> ouverture is Ok,
        derniere_action(ouverture, lecture) == Action::Rendre(issue_lecture(ouverture, lecture)),
{
}

/// When the file opens and reads as `texte`, the run hands back exactly
/// `texte`.
pub proof fn lemme_lecture_reussie<E>(texte: String)
    ensures
        derniere_action(Ok::<(), E>(()), Ok::<String, E>(texte)) == Action::<E>::Rendre(Ok(texte)),
{
}

/// When the file cannot be opened, the run hands back that error, reads
/// nothing and gives no content, whatever reading would have given.
pub proof fn lemme_ouverture_echouee<E>(e: E, lecture: Result<String, E>)
    ensures
        action_de(Evenement::OuvertureEchouee(e)) == Action::<E>::Rendre(Err(e)),
        derniere_action(Err::<(), E>(e), lecture) == Action::<E>::Rendre(Err(e)),
{
}

/// A run ends in an error only through a failed step, and the error handed
/// back is that step's own: the opening's if the file did not open, else the
/// reading's.
pub proof fn lemme_echec_de_l_etape<E>(ouverture: Result<(), E>, lecture: Result<String, E>, e: E)
    ensures
        derniere_action(ouverture, lecture) == Action::<E>::Rendre(Err(e)) <==> (
        ouverture == Err::<(), E>(e) || (ouverture is Ok && lecture == Err::<String, E>(e))),
        forall|evt: Evenement<E>|
            action_de(evt) == Action::<E>::Rendre(Err(e)) <==> (evt == Evenement::OuvertureEchouee(e)
                || evt == Evenement::LectureEchouee(e)),
{
}

} // verus!
