//! Recipes and the cookbook a crab consults, each tagged with a diet.

use vstd::prelude::*;
use crate::diet::Diet;

verus! {

/// A recipe: a dish name together with the diet it suits.
pub struct Recipe {
    name: String,
    diet: Diet,
}

impl Recipe {
    pub closed spec fn name_spec(self) -> Seq<char> {
        self.name@
    }

    pub closed spec fn diet_spec(self) -> Diet {
        self.diet
    }

    pub fn new(name: String, diet: Diet) -> (r: Recipe)
        ensures
            r.name_spec() == name@,
            r.diet_spec() == diet,
    {
        Recipe { name, diet }
    }

    pub fn name(&self) -> (n: &str)
        ensures
            n@ == self.name_spec(),
    {
        self.name.as_str()
    }

    pub fn diet(&self) -> (d: Diet)
        ensures
            d == self.diet_spec(),
    {
        self.diet
    }
}

/// An ordered, read-only collection of recipes.
pub struct Cookbook {
    recipes: Vec<Recipe>,
}

impl View for Cookbook {
    type V = Seq<Recipe>;

    closed spec fn view(&self) -> Seq<Recipe> {
        self.recipes@
    }
}

impl Cookbook {
    pub fn new() -> (c: Cookbook)
        ensures
            c@ == Seq::<Recipe>::empty(),
    {
        Cookbook { recipes: Vec::new() }
    }

    pub fn add_recipe(&mut self, recipe: Recipe)
        ensures
            final(self)@ == old(self)@.push(recipe),
    {
        self.recipes.push(recipe);
    }

    /// The recipes, in the order they were added.
    pub fn recipes(&self) -> (rs: &Vec<Recipe>)
        ensures
            rs@ == self@,
    {
        &self.recipes
    }
}

} // verus!
