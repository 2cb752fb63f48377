//! Recipe options and the recipe that a create or an update writes.
//!
//! A create writes a new recipe, whose id the service assigns. An update
//! rewrites the stored recipe under its own id and name: every other field
//! takes the value that the options give, and a field that they leave out is
//! cleared. A plan is that recipe, field by field, before it is saved.
use crate::model::{optional_rating_ok, rating_in_range, Recipe};
use vstd::prelude::*;

verus! {

/// An ingredient given when a recipe is written; it has no id of its own.
#[derive(Clone, Debug, PartialEq, Eq)]
pub struct IngredientInput {
    pub name: String,
    pub quantity: Option<String>,
    pub note: Option<String>,
}

/// Everything that creating or rewriting a recipe can set.
#[derive(Clone, Debug, PartialEq, Eq)]
pub struct CreateRecipeOptions {
    /// The recipe's display name.
    pub name: String,
    /// The ingredients, in order.
    pub ingredients: Vec<IngredientInput>,
    /// The preparation steps, in order.
    pub preparation_steps: Vec<String>,
    /// Free text about the recipe.
    pub note: Option<String>,
    /// Where the recipe comes from (a site, a book).
    pub source_name: Option<String>,
    pub source_url: Option<String>,
    /// The yield, as text ("4 servings").
    pub servings: Option<String>,
    /// Preparation time in minutes.
    pub prep_time: Option<i32>,
    /// Cooking time in minutes.
    pub cook_time: Option<i32>,
    /// Stars from one to five.
    pub rating: Option<i32>,
    pub nutritional_info: Option<String>,
    /// An id that an earlier photo upload returned.
    pub photo_id: Option<String>,
}

/// The recipe that a save will write. `id` is the stored recipe's id for an
/// update and absent for a new recipe.
#[derive(Clone, Debug, PartialEq, Eq)]
pub struct RecipePlan {
    pub id: Option<String>,
    pub name: String,
    pub ingredients: Vec<IngredientInput>,
    pub preparation_steps: Vec<String>,
    pub note: Option<String>,
    pub source_name: Option<String>,
    pub source_url: Option<String>,
    pub servings: Option<String>,
    pub prep_time: Option<i32>,
    pub cook_time: Option<i32>,
    pub rating: Option<i32>,
    pub nutritional_info: Option<String>,
    pub photo_id: Option<String>,
}

/// The rating that the service's builder keeps for `v`: `v` brought into one
/// to five.
pub open spec fn clamped_rating(v: i32) -> i32 {
    if v < 1 {
        1
    } else if v > 5 {
        5
    } else {
        v
    }
}

/// The rating that a plan holds for the rating given in the options.
pub open spec fn planned_rating(given: Option<i32>) -> Option<i32> {
    match given {
        Some(v) => Some(clamped_rating(v)),
        None => None,
    }
}

/// Brings a rating into one to five, as the service's builder does.
pub fn clamp_rating(v: i32) -> (r: i32)
    ensures
        r == clamped_rating(v),
        rating_in_range(r),
{
    if v < 1 {
        1
    } else if v > 5 {
        5
    } else {
        v
    }
}

fn plan_rating(given: Option<i32>) -> (r: Option<i32>)
    ensures
        r == planned_rating(given),
        optional_rating_ok(r),
{
    match given {
        Some(v) => Some(clamp_rating(v)),
        None => None,
    }
}

impl RecipePlan {
    /// The recipe that creating one from `options` writes: every field as
    /// given, the rating brought into one to five, and no id yet.
    pub fn for_create(options: CreateRecipeOptions) -> (r: RecipePlan)
        ensures
            r.id is None,
            r.name == options.name,
            r.ingredients == options.ingredients,
            r.preparation_steps == options.preparation_steps,
            r.note == options.note,
            r.source_name == options.source_name,
            r.source_url == options.source_url,
            r.servings == options.servings,
            r.prep_time == options.prep_time,
            r.cook_time == options.cook_time,
            r.rating == planned_rating(options.rating),
            r.nutritional_info == options.nutritional_info,
            r.photo_id == options.photo_id,
            optional_rating_ok(r.rating),
    {
        let rating = plan_rating(options.rating);
        RecipePlan {
            id: None,
            name: options.name,
            ingredients: options.ingredients,
            preparation_steps: options.preparation_steps,
            note: options.note,
            source_name: options.source_name,
            source_url: options.source_url,
            servings: options.servings,
            prep_time: options.prep_time,
            cook_time: options.cook_time,
            rating,
            nutritional_info: options.nutritional_info,
            photo_id: options.photo_id,
        }
    }

    /// The recipe that rewriting `stored` with `options` writes. Id and name
    /// stay those of `stored`: a recipe's name cannot be changed. Every other
    /// field takes the value that the options give (a rating brought into one
    /// to five), and one that they leave out is cleared.
    pub fn for_update(stored: Recipe, options: CreateRecipeOptions) -> (r: RecipePlan)
        ensures
            r.id == Some(stored.id),
            r.name == stored.name,
            r.ingredients == options.ingredients,
            r.preparation_steps == options.preparation_steps,
            r.note == options.note,
            r.source_name == options.source_name,
            r.source_url == options.source_url,
            r.servings == options.servings,
            r.prep_time == options.prep_time,
            r.cook_time == options.cook_time,
            r.rating == planned_rating(options.rating),
            r.nutritional_info == options.nutritional_info,
            r.photo_id == options.photo_id,
            optional_rating_ok(r.rating),
    {
        let rating = plan_rating(options.rating);
        RecipePlan {
            id: Some(stored.id),
            name: stored.name,
            ingredients: options.ingredients,
            preparation_steps: options.preparation_steps,
            note: options.note,
            source_name: options.source_name,
            source_url: options.source_url,
            servings: options.servings,
            prep_time: options.prep_time,
            cook_time: options.cook_time,
            rating,
            nutritional_info: options.nutritional_info,
            photo_id: options.photo_id,
        }
    }
}

} // verus!
