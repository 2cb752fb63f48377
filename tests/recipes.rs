use anylist_napi::{CreateRecipeOptions, Ingredient, IngredientInput, Recipe, RecipePlan};
use anylist_napi::recipe::clamp_rating;

fn ingredient(name: &str, quantity: &str) -> IngredientInput {
    IngredientInput {
        name: name.to_string(),
        quantity: Some(quantity.to_string()),
        note: None,
    }
}

fn pancake_options(rating: Option<i32>) -> CreateRecipeOptions {
    CreateRecipeOptions {
        name: "Pancakes".to_string(),
        ingredients: vec![ingredient("Flour", "2 cups"), ingredient("Milk", "1 cup")],
        preparation_steps: vec!["Mix".to_string(), "Cook".to_string()],
        note: None,
        source_name: None,
        source_url: None,
        servings: None,
        prep_time: None,
        cook_time: None,
        rating,
        nutritional_info: None,
        photo_id: None,
    }
}

fn stored_pancakes() -> Recipe {
    Recipe {
        id: "r-1".to_string(),
        name: "Pancakes".to_string(),
        ingredients: vec![Ingredient {
            name: "Flour".to_string(),
            quantity: Some("2 cups".to_string()),
            note: None,
        }],
        preparation_steps: vec!["Mix".to_string()],
        note: Some("Family favourite".to_string()),
        source_name: Some("Grandma".to_string()),
        source_url: None,
        servings: Some("4 servings".to_string()),
        prep_time: Some(10),
        cook_time: Some(15),
        rating: Some(4),
        nutritional_info: None,
        photo_id: Some("photo-1".to_string()),
    }
}

#[test]
fn create_plan_keeps_every_given_field() {
    let plan = RecipePlan::for_create(pancake_options(Some(4)));
    assert_eq!(plan.id, None);
    assert_eq!(plan.name, "Pancakes");
    assert_eq!(plan.ingredients.len(), 2);
    assert_eq!(plan.ingredients[0], ingredient("Flour", "2 cups"));
    assert_eq!(plan.ingredients[1], ingredient("Milk", "1 cup"));
    assert_eq!(plan.preparation_steps, vec!["Mix".to_string(), "Cook".to_string()]);
    assert_eq!(plan.rating, Some(4));
    assert_eq!(plan.note, None);
}

#[test]
fn create_plan_brings_rating_into_range() {
    assert_eq!(RecipePlan::for_create(pancake_options(Some(9))).rating, Some(5));
    assert_eq!(RecipePlan::for_create(pancake_options(Some(0))).rating, Some(1));
    assert_eq!(RecipePlan::for_create(pancake_options(Some(-3))).rating, Some(1));
    assert_eq!(RecipePlan::for_create(pancake_options(None)).rating, None);
}

#[test]
fn clamp_rating_bounds() {
    assert_eq!(clamp_rating(i32::MIN), 1);
    assert_eq!(clamp_rating(1), 1);
    assert_eq!(clamp_rating(3), 3);
    assert_eq!(clamp_rating(5), 5);
    assert_eq!(clamp_rating(i32::MAX), 5);
}

#[test]
fn update_plan_keeps_id_and_name_and_sets_rating() {
    let mut options = pancake_options(Some(5));
    options.name = "Crepes".to_string();
    let plan = RecipePlan::for_update(stored_pancakes(), options);
    assert_eq!(plan.id, Some("r-1".to_string()));
    assert_eq!(plan.name, "Pancakes");
    assert_eq!(plan.rating, Some(5));
    assert_eq!(plan.ingredients.len(), 2);
    assert_eq!(plan.preparation_steps.len(), 2);
}

#[test]
fn update_plan_clears_fields_left_out() {
    let plan = RecipePlan::for_update(stored_pancakes(), pancake_options(None));
    assert_eq!(plan.id, Some("r-1".to_string()));
    assert_eq!(plan.name, "Pancakes");
    assert_eq!(plan.rating, None);
    assert_eq!(plan.note, None);
    assert_eq!(plan.source_name, None);
    assert_eq!(plan.source_url, None);
    assert_eq!(plan.servings, None);
    assert_eq!(plan.prep_time, None);
    assert_eq!(plan.cook_time, None);
    assert_eq!(plan.nutritional_info, None);
    assert_eq!(plan.photo_id, None);
}

#[test]
fn update_plan_replaces_fields_that_are_set() {
    let mut options = pancake_options(Some(12));
    options.note = Some("Fluffy".to_string());
    options.cook_time = Some(20);
    options.photo_id = Some("photo-2".to_string());
    let plan = RecipePlan::for_update(stored_pancakes(), options);
    assert_eq!(plan.note, Some("Fluffy".to_string()));
    assert_eq!(plan.cook_time, Some(20));
    assert_eq!(plan.prep_time, None);
    assert_eq!(plan.photo_id, Some("photo-2".to_string()));
    assert_eq!(plan.rating, Some(5));
}
