use exemples::lecture::{action_suivante, Action, Evenement};
use std::io;

#[test]
fn une_lecture_commence_par_ouvrir() {
    assert!(matches!(action_suivante::<io::Error>(Evenement::Debut), Action::Ouvrir));
}

#[test]
fn on_lit_une_fois_le_fichier_ouvert() {
    assert!(matches!(
        action_suivante::<io::Error>(Evenement::OuvertureReussie),
        Action::Lire
    ));
}

#[test]
fn le_texte_lu_est_rendu_tel_quel() {
    let texte = String::from("Ferris\nligne deux\n");
    match action_suivante::<io::Error>(Evenement::LectureReussie(texte.clone())) {
        Action::Rendre(Ok(rendu)) => assert_eq!(rendu, texte),
        _ => panic!("le texte lu doit être rendu"),
    }
}

#[test]
fn un_fichier_vide_donne_un_texte_vide() {
    match action_suivante::<io::Error>(Evenement::LectureReussie(String::new())) {
        Action::Rendre(Ok(rendu)) => assert_eq!(rendu, ""),
        _ => panic!("le texte vide doit être rendu"),
    }
}

#[test]
fn un_fichier_absent_rend_l_erreur_d_ouverture() {
    let erreur = io::Error::new(io::ErrorKind::NotFound, "hello.txt");
    match action_suivante(Evenement::OuvertureEchouee(erreur)) {
        Action::Rendre(Err(e)) => assert_eq!(e.kind(), io::ErrorKind::NotFound),
        _ => panic!("l'échec d'ouverture doit être rendu"),
    }
}

#[test]
fn un_echec_de_lecture_rend_l_erreur_de_lecture() {
    let erreur = io::Error::new(io::ErrorKind::InvalidData, "pas de l'UTF-8");
    match action_suivante(Evenement::LectureEchouee(erreur)) {
        Action::Rendre(Err(e)) => assert_eq!(e.kind(), io::ErrorKind::InvalidData),
        _ => panic!("l'échec de lecture doit être rendu"),
    }
}

#[test]
fn les_erreurs_des_deux_etapes_restent_distinctes() {
    let ouverture = action_suivante(Evenement::OuvertureEchouee(1u8));
    let lecture = action_suivante(Evenement::LectureEchouee(2u8));
    assert!(matches!(ouverture, Action::Rendre(Err(1))));
    assert!(matches!(lecture, Action::Rendre(Err(2))));
}
