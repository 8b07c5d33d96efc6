use ocean::beach::Beach;
use ocean::beach::BeachError;
use ocean::color::Color;
use ocean::cookbook::Cookbook;
use ocean::cookbook::Recipe;
use ocean::crab::Crab;
use ocean::diet::Diet;
use ocean::ocean::Ocean;
use ocean::prey::Prey;
use ocean::reef::Reef;

fn plants_crab(name: &str, speed: u32) -> Crab {
    Crab::new(name.to_string(), speed, Color::new(0, 0, 0), Diet::Plants)
}

fn meat_crab(name: &str, speed: u32) -> Crab {
    Crab::new(name.to_string(), speed, Color::new(0, 0, 0), Diet::Meat)
}

#[test]
fn color_cross_wraps_around() {
    let c = Color::cross(&Color::new(200, 0, 0), &Color::new(100, 0, 0));
    assert_eq!(c, Color::new(44, 0, 0));
}

#[test]
fn color_cross_zero() {
    let c = Color::cross(&Color::new(0, 0, 0), &Color::new(0, 0, 0));
    assert_eq!(c, Color::new(0, 0, 0));
}

#[test]
fn color_cross_max_wraps_to_zero() {
    let c = Color::cross(&Color::new(255, 255, 255), &Color::new(1, 1, 1));
    assert_eq!(c, Color::new(0, 0, 0));
}

#[test]
fn color_safe_add_plain_and_wrapping() {
    assert_eq!(Color::safe_add(&10, &20), 30);
    assert_eq!(Color::safe_add(&255, &255), 254);
    assert_eq!(Color::safe_add(&200, &100), 44);
}

#[test]
fn color_constructors() {
    assert_eq!(Color::new_red(), Color::new(255, 0, 0));
    assert_eq!(Color::new_green(), Color::new(0, 255, 0));
    assert_eq!(Color::new_blue(), Color::new(0, 0, 255));
}

#[test]
fn crab_accessors() {
    let crab = Crab::new("ferris".to_string(), 7, Color::new(1, 2, 3), Diet::Shellfish);
    assert_eq!(crab.name(), "ferris");
    assert_eq!(crab.speed(), 7);
    assert_eq!(*crab.color(), Color::new(1, 2, 3));
    assert_eq!(crab.diet(), Diet::Shellfish);
}

#[test]
fn beach_add_and_get() {
    let mut beach = Beach::new();
    assert_eq!(beach.size(), 0);
    beach.add_crab(plants_crab("a", 3));
    beach.add_crab(plants_crab("b", 9));
    assert_eq!(beach.size(), 2);
    assert_eq!(beach.get_crab(0).name(), "a");
    assert_eq!(beach.get_crab(1).name(), "b");
    assert_eq!(beach.crabs().len(), 2);
}

#[test]
fn fastest_crab_empty_beach_is_none() {
    let beach = Beach::new();
    assert!(beach.get_fastest_crab().is_none());
}

#[test]
fn fastest_crab_picks_highest_speed() {
    let mut beach = Beach::new();
    beach.add_crab(plants_crab("slow", 3));
    beach.add_crab(plants_crab("fast", 9));
    beach.add_crab(plants_crab("mid", 5));
    let fastest = beach.get_fastest_crab().unwrap();
    assert_eq!(fastest.speed(), 9);
    assert_eq!(fastest.name(), "fast");
}

#[test]
fn fastest_crab_tie_breaks_to_first() {
    let mut beach = Beach::new();
    beach.add_crab(plants_crab("slow", 3));
    beach.add_crab(plants_crab("first_nine", 9));
    beach.add_crab(plants_crab("second_nine", 9));
    let fastest = beach.get_fastest_crab().unwrap();
    assert_eq!(fastest.name(), "first_nine");
}

#[test]
fn find_crabs_by_name_returns_matches_in_order() {
    let mut beach = Beach::new();
    beach.add_crab(plants_crab("zoe", 1));
    beach.add_crab(plants_crab("max", 2));
    beach.add_crab(plants_crab("zoe", 3));
    let found = beach.find_crabs_by_name("zoe");
    assert_eq!(found.len(), 2);
    assert_eq!(found[0].speed(), 1);
    assert_eq!(found[1].speed(), 3);
    assert_eq!(beach.find_crabs_by_name("nobody").len(), 0);
}

#[test]
fn breed_crabs_appends_child_with_speed_one() {
    let mut beach = Beach::new();
    beach.add_crab(Crab::new("mom".to_string(), 4, Color::new(200, 10, 0), Diet::Meat));
    beach.add_crab(Crab::new("pap".to_string(), 6, Color::new(100, 20, 0), Diet::Plants));
    beach.breed_crabs(0, 1, "kid".to_string());
    assert_eq!(beach.size(), 3);
    let kid = beach.get_crab(2);
    assert_eq!(kid.name(), "kid");
    assert_eq!(kid.speed(), 1);
    assert_eq!(*kid.color(), Color::new(44, 30, 0));
    assert_eq!(kid.diet(), Diet::Plants);
}

#[test]
fn try_breed_crabs_out_of_bounds_leaves_beach_unchanged() {
    let mut beach = Beach::new();
    beach.add_crab(plants_crab("a", 1));
    beach.add_crab(plants_crab("b", 2));
    let res = beach.try_breed_crabs(0, 5, "kid".to_string());
    assert_eq!(res, Err(BeachError::IndexOutOfBounds));
    assert_eq!(beach.size(), 2);
    assert!(beach.try_breed_crabs(0, 1, "kid".to_string()).is_ok());
    assert_eq!(beach.size(), 3);
}

#[test]
fn reef_take_is_last_in_first_out() {
    let mut reef = Reef::new();
    assert_eq!(reef.population(), 0);
    assert_eq!(reef.take_prey(), None);
    reef.add_prey(Prey::new_clam());
    reef.add_prey(Prey::new_algae());
    assert_eq!(reef.population(), 2);
    assert_eq!(reef.take_prey(), Some(Prey::Algae));
    assert_eq!(reef.take_prey(), Some(Prey::Clam));
    assert_eq!(reef.take_prey(), None);
}

#[test]
fn prey_diets_and_escapes() {
    let crab = meat_crab("m", 10);
    assert_eq!(Prey::new_minnow(25).diet(), Diet::Meat);
    assert_eq!(Prey::new_shrimp(1).diet(), Diet::Meat);
    assert_eq!(Prey::new_clam().diet(), Diet::Shellfish);
    assert_eq!(Prey::new_algae().diet(), Diet::Plants);
    assert!(Prey::new_minnow(25).try_escape(&crab));
    assert!(!Prey::new_minnow(5).try_escape(&crab));
    assert!(Prey::new_shrimp(1).try_escape(&crab));
    assert!(!Prey::new_shrimp(0).try_escape(&crab));
    assert!(!Prey::new_clam().try_escape(&crab));
    assert!(!Prey::new_algae().try_escape(&crab));
}

#[test]
fn hunt_with_no_reefs_returns_false() {
    let mut reefs: Vec<Reef> = Vec::new();
    let crab = plants_crab("lonely", 5);
    assert!(!crab.hunt(&mut reefs));
    assert!(reefs.is_empty());
}

#[test]
fn hunt_with_empty_reef_returns_false() {
    let mut reefs: Vec<Reef> = Vec::new();
    reefs.push(Reef::new());
    let mut crab = plants_crab("hopeful", 5);
    crab.discover_reef(0);
    assert!(!crab.hunt(&mut reefs));
    assert_eq!(reefs[0].population(), 0);
}

#[test]
fn hunt_catches_matching_prey_and_consumes_it() {
    let mut reefs: Vec<Reef> = Vec::new();
    let mut reef = Reef::new();
    reef.add_prey(Prey::new_algae());
    reefs.push(reef);
    let mut crab = plants_crab("lucky", 5);
    crab.discover_reef(0);
    assert!(crab.hunt(&mut reefs));
    assert_eq!(reefs[0].population(), 0);
}

#[test]
fn hunt_diet_mismatch_returns_false_and_restores_reef() {
    let mut reefs: Vec<Reef> = Vec::new();
    let mut reef = Reef::new();
    reef.add_prey(Prey::new_clam());
    reef.add_prey(Prey::new_minnow(1));
    reefs.push(reef);
    let mut crab = plants_crab("picky", 50);
    crab.discover_reef(0);
    assert!(!crab.hunt(&mut reefs));
    assert_eq!(reefs[0].population(), 2);
}

#[test]
fn hunt_fast_minnow_escapes_slow_crab() {
    let mut reefs: Vec<Reef> = Vec::new();
    let mut reef = Reef::new();
    reef.add_prey(Prey::new_minnow(25));
    reefs.push(reef);
    let mut slow = meat_crab("slow", 10);
    slow.discover_reef(0);
    assert!(!slow.hunt(&mut reefs));
    assert_eq!(reefs[0].population(), 1);
    let mut fast = meat_crab("fast", 30);
    fast.discover_reef(0);
    assert!(fast.hunt(&mut reefs));
    assert_eq!(reefs[0].population(), 0);
}

#[test]
fn hunt_energetic_shrimp_always_escapes() {
    let mut reefs: Vec<Reef> = Vec::new();
    let mut reef = Reef::new();
    reef.add_prey(Prey::new_shrimp(1));
    reefs.push(reef);
    let mut crab = meat_crab("hungry", 100);
    crab.discover_reef(0);
    assert!(!crab.hunt(&mut reefs));
    assert_eq!(reefs[0].population(), 1);
}

#[test]
fn repeated_hunts_conserve_everything_but_catches() {
    let mut reefs: Vec<Reef> = Vec::new();
    let mut reef = Reef::new();
    reef.add_prey(Prey::new_algae());
    reef.add_prey(Prey::new_clam());
    reef.add_prey(Prey::new_algae());
    reefs.push(reef);
    let mut crab = plants_crab("steady", 5);
    crab.discover_reef(0);
    assert!(crab.hunt(&mut reefs));
    assert_eq!(reefs[0].population(), 2);
    assert!(crab.hunt(&mut reefs));
    assert_eq!(reefs[0].population(), 1);
    assert!(!crab.hunt(&mut reefs));
    assert_eq!(reefs[0].population(), 1);
    assert_eq!(reefs[0].take_prey(), Some(Prey::Clam));
}

#[test]
fn hunt_tries_reefs_in_discovery_order() {
    let mut reefs: Vec<Reef> = Vec::new();
    reefs.push(Reef::new());
    let mut second = Reef::new();
    second.add_prey(Prey::new_algae());
    reefs.push(second);
    let mut crab = plants_crab("walker", 5);
    crab.discover_reef(0);
    crab.discover_reef(1);
    assert!(crab.hunt(&mut reefs));
    assert_eq!(reefs[1].population(), 0);
}

#[test]
fn choose_recipe_finds_first_match() {
    let mut cookbook = Cookbook::new();
    cookbook.add_recipe(Recipe::new("kelp salad".to_string(), Diet::Plants));
    cookbook.add_recipe(Recipe::new("fish stew".to_string(), Diet::Meat));
    cookbook.add_recipe(Recipe::new("fish pie".to_string(), Diet::Meat));
    let crab = meat_crab("cook", 3);
    let recipe = crab.choose_recipe(&cookbook).unwrap();
    assert_eq!(recipe.name(), "fish stew");
    assert_eq!(recipe.diet(), Diet::Meat);
}

#[test]
fn choose_recipe_none_when_no_match() {
    let mut cookbook = Cookbook::new();
    cookbook.add_recipe(Recipe::new("kelp salad".to_string(), Diet::Plants));
    let crab = meat_crab("cook", 3);
    assert!(crab.choose_recipe(&cookbook).is_none());
    let empty = Cookbook::new();
    assert!(crab.choose_recipe(&empty).is_none());
}

#[test]
fn random_diet_is_the_fixed_breeding_diet() {
    assert_eq!(Diet::random_diet(), Diet::Plants);
}

#[test]
fn generate_reef_populates_and_registers() {
    let mut ocean = Ocean::new();
    let rid = ocean.generate_reef(2, 1, 3, 4);
    assert_eq!(rid, 0);
    assert_eq!(ocean.reefs().len(), 1);
    assert_eq!(ocean.reefs()[0].population(), 10);
    let rid2 = ocean.generate_reef(0, 0, 0, 0);
    assert_eq!(rid2, 1);
    assert_eq!(ocean.reefs()[1].population(), 0);
}

#[test]
fn generated_reef_feeds_a_hunting_crab() {
    let mut ocean = Ocean::new();
    let rid = ocean.generate_reef(0, 0, 0, 2);
    let mut crab = plants_crab("diver", 5);
    crab.discover_reef(rid);
    assert!(crab.hunt(ocean.reefs_mut()));
    assert_eq!(ocean.reefs()[rid].population(), 1);
}

#[test]
fn ocean_holds_beaches() {
    let mut ocean = Ocean::new();
    assert_eq!(ocean.beaches().len(), 0);
    let mut beach = Beach::new();
    beach.add_crab(plants_crab("a", 1));
    ocean.add_beach(beach);
    assert_eq!(ocean.beaches().len(), 1);
    assert_eq!(ocean.beaches()[0].size(), 1);
}
