//! The verified core of a client facade for the AnyList grocery and recipe
//! service: the records it hands out, how failures are reported, how recipe
//! options become the recipe that is saved, and how a favourite is picked out
//! of its list. The awaiting calls to the service live around this crate.
pub mod model;

pub use model::{
    Category, CategoryGroup, FavouriteItem, FavouritesList, ICalendarInfo, Ingredient, List,
    ListItem, MealPlanEvent, Recipe, RecipeCollection, SavedTokens, Store, StoreFilter,
};
pub mod recipe;

pub use recipe::{CreateRecipeOptions, IngredientInput, RecipePlan};
pub mod error;

pub use error::{ClientError, ErrorKind, ServiceError};
pub mod favourites;
