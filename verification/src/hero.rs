//! Hero records and the requests that create them.

use vstd::prelude::*;

verus! {

/// Identifier of a stored hero.
pub type ID = usize;

/// A hero as the registry stores it. The registry hands out copies, never
/// the stored record itself.
#[derive(Debug, PartialEq, Eq)]
pub struct Hero {
    pub id: ID,
    pub name: String,
    pub can_fly: bool,
}

/// What a caller supplies to have a hero created. It carries no identifier.
#[derive(Debug)]
pub struct NewHero {
    pub name: String,
    pub can_fly: bool,
}

/// Mathematical value of a [`Hero`].
pub struct HeroView {
    pub id: ID,
    pub name: Seq<char>,
    pub can_fly: bool,
}

/// Mathematical value of a [`NewHero`].
pub struct NewHeroView {
    pub name: Seq<char>,
    pub can_fly: bool,
}

impl View for Hero {
    type V = HeroView;

    open spec fn view(&self) -> HeroView {
        HeroView { id: self.id, name: self.name@, can_fly: self.can_fly }
    }
}

impl View for NewHero {
    type V = NewHeroView;

    open spec fn view(&self) -> NewHeroView {
        NewHeroView { name: self.name@, can_fly: self.can_fly }
    }
}

impl Clone for Hero {
    fn clone(&self) -> (copy: Self)
        ensures
            copy@ == self@,
    {
        Hero { id: self.id, name: self.name.clone(), can_fly: self.can_fly }
    }
}

impl Hero {
    /// The hero that a creation request becomes once it has been given `id`.
    pub fn from_new(id: ID, new_hero: NewHero) -> (hero: Hero)
        ensures
            hero@ == (HeroView { id, name: new_hero@.name, can_fly: new_hero@.can_fly }),
    {
        Hero { id, name: new_hero.name, can_fly: new_hero.can_fly }
    }
}

} // verus!
