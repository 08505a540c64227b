//! Names for new games: an animal and what it is like.

use vstd::prelude::*;
use crate::chance::pick;

verus! {

/// The grammatical gender of an animal's name, which its adjective takes.
#[derive(Clone, Copy, Debug, PartialEq, Eq, Structural)]
pub enum AnimalGender {
    Masculine,
    Feminine,
}

/// An animal, with its article.
#[derive(Clone, Copy, Debug)]
pub struct AnimalName {
    pub name: &'static str,
    pub gender: AnimalGender,
}

/// An adjective: its masculine form, and its feminine form where that
/// differs.
#[derive(Clone, Copy, Debug)]
pub struct Adjective {
    pub masc: &'static str,
    pub fem: Option<&'static str>,
}

/// The animals that a game can be named after.
pub open spec fn animal_list() -> Seq<AnimalName> {
    seq![
        AnimalName { name: "L'aigle", gender: AnimalGender::Masculine },
        AnimalName { name: "L'âne", gender: AnimalGender::Masculine },
        AnimalName { name: "L'ânesse", gender: AnimalGender::Feminine },
        AnimalName { name: "La baleine", gender: AnimalGender::Feminine },
        AnimalName { name: "La belette", gender: AnimalGender::Feminine },
        AnimalName { name: "Le bouc", gender: AnimalGender::Masculine },
        AnimalName { name: "La chèvre", gender: AnimalGender::Masculine },
        AnimalName { name: "Le bœuf", gender: AnimalGender::Masculine },
        AnimalName { name: "Le taureau", gender: AnimalGender::Masculine },
        AnimalName { name: "La vache", gender: AnimalGender::Feminine },
        AnimalName { name: "Le canard", gender: AnimalGender::Masculine },
        AnimalName { name: "La cane", gender: AnimalGender::Feminine },
        AnimalName { name: "La carpe", gender: AnimalGender::Feminine },
        AnimalName { name: "Le castor", gender: AnimalGender::Masculine },
        AnimalName { name: "Le cerf", gender: AnimalGender::Masculine },
        AnimalName { name: "La biche", gender: AnimalGender::Feminine },
        AnimalName { name: "Le chat", gender: AnimalGender::Masculine },
        AnimalName { name: "La chatte", gender: AnimalGender::Feminine },
        AnimalName { name: "Le cheval", gender: AnimalGender::Masculine },
        AnimalName { name: "La jument", gender: AnimalGender::Feminine },
        AnimalName { name: "La chouette", gender: AnimalGender::Feminine },
        AnimalName { name: "Le coq", gender: AnimalGender::Masculine },
        AnimalName { name: "La poule", gender: AnimalGender::Masculine },
        AnimalName { name: "Le coyote", gender: AnimalGender::Masculine },
        AnimalName { name: "Le dindon", gender: AnimalGender::Masculine },
        AnimalName { name: "La dinde", gender: AnimalGender::Feminine },
        AnimalName { name: "L'écureuil ", gender: AnimalGender::Masculine },
        AnimalName { name: "La gazelle", gender: AnimalGender::Feminine },
        AnimalName { name: "Le gorille", gender: AnimalGender::Masculine },
        AnimalName { name: "La grenouille", gender: AnimalGender::Feminine },
        AnimalName { name: "La guêpe", gender: AnimalGender::Feminine },
        AnimalName { name: "Le hérisson", gender: AnimalGender::Masculine },
        AnimalName { name: "Le hibou", gender: AnimalGender::Masculine },
        AnimalName { name: "L'hirondelle", gender: AnimalGender::Feminine },
        AnimalName { name: "L'oie", gender: AnimalGender::Feminine },
        AnimalName { name: "Le loup", gender: AnimalGender::Masculine },
        AnimalName { name: "La louve", gender: AnimalGender::Feminine },
        AnimalName { name: "Le lynx", gender: AnimalGender::Masculine },
        AnimalName { name: "La marmotte", gender: AnimalGender::Feminine },
        AnimalName { name: "Le bélier", gender: AnimalGender::Masculine },
        AnimalName { name: "Le mouton", gender: AnimalGender::Masculine },
        AnimalName { name: "La brebis", gender: AnimalGender::Feminine },
        AnimalName { name: "Le panda", gender: AnimalGender::Masculine },
        AnimalName { name: "Le renard", gender: AnimalGender::Masculine },
        AnimalName { name: "Le rossignol", gender: AnimalGender::Masculine },
        AnimalName { name: "Le serpent", gender: AnimalGender::Masculine },
        AnimalName { name: "La sourie", gender: AnimalGender::Feminine },
        AnimalName { name: "Le rat", gender: AnimalGender::Masculine },
        AnimalName { name: "La rate", gender: AnimalGender::Feminine },
        AnimalName { name: "Le tigre", gender: AnimalGender::Masculine },
        AnimalName { name: "La tigresse", gender: AnimalGender::Feminine },
        AnimalName { name: "La tourterelle", gender: AnimalGender::Feminine },
        AnimalName { name: "Le zèbre", gender: AnimalGender::Masculine },
    ]
}

/// The adjectives that a game's name can carry.
pub open spec fn adjective_list() -> Seq<Adjective> {
    seq![
        Adjective { masc: "confiant", fem: Some("confiante") },
        Adjective { masc: "courageux", fem: Some("courageuse") },
        Adjective { masc: "égoïste", fem: None },
        Adjective { masc: "gigantesque", fem: None },
        Adjective { masc: "idéaliste", fem: None },
        Adjective { masc: "intelligent", fem: Some("intelligente") },
        Adjective { masc: "inventif", fem: Some("inventive") },
        Adjective { masc: "optimiste", fem: None },
        Adjective { masc: "prétentieux", fem: Some("prétentieuse") },
        Adjective { masc: "majestueux", fem: Some("majestueuse") },
        Adjective { masc: "passionnant", fem: Some("passionnante") },
        Adjective { masc: "placide", fem: None },
        Adjective { masc: "ébouriffé", fem: Some("ébouriffée") },
        Adjective { masc: "enragé", fem: Some("enragée") },
        Adjective { masc: "révolutionnaire", fem: None },
        Adjective { masc: "somptueux", fem: Some("somptueuse") },
        Adjective { masc: "festif", fem: Some("festive") },
        Adjective { masc: "incrédule", fem: None },
        Adjective { masc: "insupportable", fem: None },
        Adjective { masc: "trépidant", fem: Some("trépidant") },
        Adjective { masc: "vénérable", fem: None },
        Adjective { masc: "valeureux", fem: Some("valeureuse") },
    ]
}

/// The form of an adjective that goes with an animal: the feminine one for
/// a feminine name where the adjective has one, else the masculine one.
pub open spec fn agreed_form(animal: AnimalName, adjective: Adjective) -> Seq<char> {
    match adjective.fem {
        Some(fem) => if animal.gender == AnimalGender::Feminine {
            fem@
        } else {
            adjective.masc@
        },
        None => adjective.masc@,
    }
}

/// The name made of an animal and an adjective: the animal, a space, the
/// adjective in the form that goes with it.
pub open spec fn full_name(animal: AnimalName, adjective: Adjective) -> Seq<char> {
    animal.name@ + seq![' '] + agreed_form(animal, adjective)
}

/// Whether a text is a name that `generate_name` can give.
pub open spec fn is_generated_name(name: Seq<char>) -> bool {
    exists|i: int, j: int|
        0 <= i < animal_list().len() && 0 <= j < adjective_list().len() && name == full_name(
            animal_list()[i],
            adjective_list()[j],
        )
}

/// The animals that a game can be named after.
pub fn animals() -> (r: Vec<AnimalName>)
    ensures
        r@ == animal_list(),
{
    let r = vec![
        AnimalName { name: "L'aigle", gender: AnimalGender::Masculine },
        AnimalName { name: "L'âne", gender: AnimalGender::Masculine },
        AnimalName { name: "L'ânesse", gender: AnimalGender::Feminine },
        AnimalName { name: "La baleine", gender: AnimalGender::Feminine },
        AnimalName { name: "La belette", gender: AnimalGender::Feminine },
        AnimalName { name: "Le bouc", gender: AnimalGender::Masculine },
        AnimalName { name: "La chèvre", gender: AnimalGender::Masculine },
        AnimalName { name: "Le bœuf", gender: AnimalGender::Masculine },
        AnimalName { name: "Le taureau", gender: AnimalGender::Masculine },
        AnimalName { name: "La vache", gender: AnimalGender::Feminine },
        AnimalName { name: "Le canard", gender: AnimalGender::Masculine },
        AnimalName { name: "La cane", gender: AnimalGender::Feminine },
        AnimalName { name: "La carpe", gender: AnimalGender::Feminine },
        AnimalName { name: "Le castor", gender: AnimalGender::Masculine },
        AnimalName { name: "Le cerf", gender: AnimalGender::Masculine },
        AnimalName { name: "La biche", gender: AnimalGender::Feminine },
        AnimalName { name: "Le chat", gender: AnimalGender::Masculine },
        AnimalName { name: "La chatte", gender: AnimalGender::Feminine },
        AnimalName { name: "Le cheval", gender: AnimalGender::Masculine },
        AnimalName { name: "La jument", gender: AnimalGender::Feminine },
        AnimalName { name: "La chouette", gender: AnimalGender::Feminine },
        AnimalName { name: "Le coq", gender: AnimalGender::Masculine },
        AnimalName { name: "La poule", gender: AnimalGender::Masculine },
        AnimalName { name: "Le coyote", gender: AnimalGender::Masculine },
        AnimalName { name: "Le dindon", gender: AnimalGender::Masculine },
        AnimalName { name: "La dinde", gender: AnimalGender::Feminine },
        AnimalName { name: "L'écureuil ", gender: AnimalGender::Masculine },
        AnimalName { name: "La gazelle", gender: AnimalGender::Feminine },
        AnimalName { name: "Le gorille", gender: AnimalGender::Masculine },
        AnimalName { name: "La grenouille", gender: AnimalGender::Feminine },
        AnimalName { name: "La guêpe", gender: AnimalGender::Feminine },
        AnimalName { name: "Le hérisson", gender: AnimalGender::Masculine },
        AnimalName { name: "Le hibou", gender: AnimalGender::Masculine },
        AnimalName { name: "L'hirondelle", gender: AnimalGender::Feminine },
        AnimalName { name: "L'oie", gender: AnimalGender::Feminine },
        AnimalName { name: "Le loup", gender: AnimalGender::Masculine },
        AnimalName { name: "La louve", gender: AnimalGender::Feminine },
        AnimalName { name: "Le lynx", gender: AnimalGender::Masculine },
        AnimalName { name: "La marmotte", gender: AnimalGender::Feminine },
        AnimalName { name: "Le bélier", gender: AnimalGender::Masculine },
        AnimalName { name: "Le mouton", gender: AnimalGender::Masculine },
        AnimalName { name: "La brebis", gender: AnimalGender::Feminine },
        AnimalName { name: "Le panda", gender: AnimalGender::Masculine },
        AnimalName { name: "Le renard", gender: AnimalGender::Masculine },
        AnimalName { name: "Le rossignol", gender: AnimalGender::Masculine },
        AnimalName { name: "Le serpent", gender: AnimalGender::Masculine },
        AnimalName { name: "La sourie", gender: AnimalGender::Feminine },
        AnimalName { name: "Le rat", gender: AnimalGender::Masculine },
        AnimalName { name: "La rate", gender: AnimalGender::Feminine },
        AnimalName { name: "Le tigre", gender: AnimalGender::Masculine },
        AnimalName { name: "La tigresse", gender: AnimalGender::Feminine },
        AnimalName { name: "La tourterelle", gender: AnimalGender::Feminine },
        AnimalName { name: "Le zèbre", gender: AnimalGender::Masculine },
    ];
    assert(r@ =~= animal_list());
    r
}

/// The adjectives that a game's name can carry.
pub fn adjectives() -> (r: Vec<Adjective>)
    ensures
        r@ == adjective_list(),
{
    let r = vec![
        Adjective { masc: "confiant", fem: Some("confiante") },
        Adjective { masc: "courageux", fem: Some("courageuse") },
        Adjective { masc: "égoïste", fem: None },
        Adjective { masc: "gigantesque", fem: None },
        Adjective { masc: "idéaliste", fem: None },
        Adjective { masc: "intelligent", fem: Some("intelligente") },
        Adjective { masc: "inventif", fem: Some("inventive") },
        Adjective { masc: "optimiste", fem: None },
        Adjective { masc: "prétentieux", fem: Some("prétentieuse") },
        Adjective { masc: "majestueux", fem: Some("majestueuse") },
        Adjective { masc: "passionnant", fem: Some("passionnante") },
        Adjective { masc: "placide", fem: None },
        Adjective { masc: "ébouriffé", fem: Some("ébouriffée") },
        Adjective { masc: "enragé", fem: Some("enragée") },
        Adjective { masc: "révolutionnaire", fem: None },
        Adjective { masc: "somptueux", fem: Some("somptueuse") },
        Adjective { masc: "festif", fem: Some("festive") },
        Adjective { masc: "incrédule", fem: None },
        Adjective { masc: "insupportable", fem: None },
        Adjective { masc: "trépidant", fem: Some("trépidant") },
        Adjective { masc: "vénérable", fem: None },
        Adjective { masc: "valeureux", fem: Some("valeureuse") },
    ];
    assert(r@ =~= adjective_list());
    r
}

/// The name made of an animal and an adjective.
pub fn compose_name(animal: &AnimalName, adjective: &Adjective) -> (r: String)
    ensures
        r@ == full_name(*animal, *adjective),
{
    proof {
        reveal_strlit(" ");
    }
    let mut out = String::from_str(animal.name);
    out.append(" ");
    match adjective.fem {
        Some(fem) => {
            if animal.gender == AnimalGender::Feminine {
                out.append(fem);
            } else {
                out.append(adjective.masc);
            }
        },
        None => {
            out.append(adjective.masc);
        },
    }
    assert(out@ =~= full_name(*animal, *adjective));
    out
}

/// A name for a new game: an animal and an adjective, each taken by chance.
pub fn generate_name() -> (r: String)
    ensures
        is_generated_name(r@),
{
    let animal_dict = animals();
    let adjective_dict = adjectives();
    let animal = pick(&animal_dict).unwrap();
    let adjective = pick(&adjective_dict).unwrap();
    let r = compose_name(animal, adjective);
    proof {
        let i = choose|i: int| 0 <= i < animal_dict@.len() && animal_dict@[i] == *animal;
        let j = choose|j: int| 0 <= j < adjective_dict@.len() && adjective_dict@[j] == *adjective;
        assert(r@ == full_name(animal_list()[i], adjective_list()[j]));
    }
    r
}

} // verus!
