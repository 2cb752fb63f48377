//! The records that the facade hands to its callers: plain snapshots of the
//! service's entities, related to each other by id only.
use vstd::prelude::*;

verus! {

/// The credentials of one session, enough to resume it later.
#[derive(Clone, Debug, PartialEq, Eq)]
pub struct SavedTokens {
    pub access_token: String,
    pub refresh_token: String,
    pub user_id: String,
    pub is_premium_user: bool,
}

/// One entry of a shopping list. `note` is the free text that the service
/// calls the item's details.
#[derive(Clone, Debug, PartialEq, Eq)]
pub struct ListItem {
    pub id: String,
    pub list_id: String,
    pub name: String,
    pub note: String,
    pub is_checked: bool,
    pub quantity: Option<String>,
    pub category: Option<String>,
    pub user_id: Option<String>,
    pub product_upc: Option<String>,
}

/// A shopping list with a snapshot of its items.
#[derive(Clone, Debug, PartialEq, Eq)]
pub struct List {
    pub id: String,
    pub name: String,
    pub items: Vec<ListItem>,
}

/// An ingredient as a recipe holds it.
#[derive(Clone, Debug, PartialEq, Eq)]
pub struct Ingredient {
    pub name: String,
    pub quantity: Option<String>,
    pub note: Option<String>,
}

/// A recipe as the service stores it. Times are in minutes.
#[derive(Clone, Debug, PartialEq, Eq)]
pub struct Recipe {
    pub id: String,
    pub name: String,
    pub ingredients: Vec<Ingredient>,
    pub preparation_steps: Vec<String>,
    pub note: Option<String>,
    pub source_name: Option<String>,
    pub source_url: Option<String>,
    pub servings: Option<String>,
    pub prep_time: Option<i32>,
    pub cook_time: Option<i32>,
    pub rating: Option<i32>,
    pub nutritional_info: Option<String>,
    pub photo_id: Option<String>,
}

/// A category that list items can be filed under.
#[derive(Clone, Debug, PartialEq, Eq)]
pub struct Category {
    pub id: String,
    pub name: String,
    pub icon: Option<String>,
    pub sort_index: i32,
}

/// The categories of one list, grouped.
#[derive(Clone, Debug, PartialEq, Eq)]
pub struct CategoryGroup {
    pub id: String,
    pub name: String,
    pub categories: Vec<Category>,
}

/// A store defined on a list.
#[derive(Clone, Debug, PartialEq, Eq)]
pub struct Store {
    pub id: String,
    pub name: String,
    pub sort_index: i32,
}

/// A named selection of the stores of a list.
#[derive(Clone, Debug, PartialEq, Eq)]
pub struct StoreFilter {
    pub id: String,
    pub name: String,
    pub store_ids: Vec<String>,
}

/// An entry of a favourites (starter) list; `list_id` is that list's id.
#[derive(Clone, Debug, PartialEq, Eq)]
pub struct FavouriteItem {
    pub id: String,
    pub list_id: String,
    pub name: String,
    pub quantity: Option<String>,
    pub details: Option<String>,
    pub category: Option<String>,
}

/// A favourites list, possibly tied to one shopping list.
#[derive(Clone, Debug, PartialEq, Eq)]
pub struct FavouritesList {
    pub id: String,
    pub name: String,
    pub items: Vec<FavouriteItem>,
    pub shopping_list_id: Option<String>,
}

/// A meal plan entry; `date` is an ISO-8601 `YYYY-MM-DD` string.
#[derive(Clone, Debug, PartialEq, Eq)]
pub struct MealPlanEvent {
    pub id: String,
    pub date: String,
    pub title: Option<String>,
    pub recipe_id: Option<String>,
    pub label_id: Option<String>,
    pub details: Option<String>,
}

/// The state of the user's iCalendar export.
#[derive(Clone, Debug, PartialEq, Eq)]
pub struct ICalendarInfo {
    pub enabled: bool,
    pub url: Option<String>,
    pub token: Option<String>,
}

/// A named set of recipes, by id.
#[derive(Clone, Debug, PartialEq, Eq)]
pub struct RecipeCollection {
    pub id: String,
    pub name: String,
    pub recipe_ids: Vec<String>,
}

/// A rating is a whole number of stars from one to five.
pub open spec fn rating_in_range(r: i32) -> bool {
    1 <= r <= 5
}

/// An optional rating is well formed when it is absent or in range.
pub open spec fn optional_rating_ok(r: Option<i32>) -> bool {
    match r {
        Some(v) => rating_in_range(v),
        None => true,
    }
}

/// An optional duration is well formed when it is absent or not negative.
pub open spec fn optional_minutes_ok(m: Option<i32>) -> bool {
    match m {
        Some(v) => v >= 0,
        None => true,
    }
}

/// The ids of a sequence of stores.
pub open spec fn store_ids_of(stores: Seq<Store>) -> Set<Seq<char>> {
    Set::new(|id: Seq<char>| exists|j: int| 0 <= j < stores.len() && #[trigger] stores[j].id@ == id)
}

impl List {
    /// Every item of the list names this list as its own.
    pub open spec fn items_belong(&self) -> bool {
        forall|i: int| 0 <= i < self.items@.len() ==> #[trigger] self.items@[i].list_id@ == self.id@
    }

    /// Tells whether every item of the list names this list as its own.
    pub fn items_belong_to_list(&self) -> (r: bool)
        ensures
            r == self.items_belong(),
    {
        let mut i: usize = 0;
        while i < self.items.len()
            invariant
                0 <= i <= self.items@.len(),
                forall|k: int| 0 <= k < i ==> #[trigger] self.items@[k].list_id@ == self.id@,
            decreases self.items@.len() - i,
        {
            if self.items[i].list_id != self.id {
                return false;
            }
            i = i + 1;
        }
        true
    }
}

impl Recipe {
    /// The rating is absent or from one to five, and the times are not negative.
    pub open spec fn well_formed(&self) -> bool {
        &&& optional_rating_ok(self.rating)
        &&& optional_minutes_ok(self.prep_time)
        &&& optional_minutes_ok(self.cook_time)
    }

    /// Tells whether the recipe's rating and times are in their ranges.
    pub fn is_well_formed(&self) -> (r: bool)
        ensures
            r == self.well_formed(),
    {
        let rating_ok = match self.rating {
            Some(v) => 1 <= v && v <= 5,
            None => true,
        };
        let prep_ok = match self.prep_time {
            Some(v) => v >= 0,
            None => true,
        };
        let cook_ok = match self.cook_time {
            Some(v) => v >= 0,
            None => true,
        };
        rating_ok && prep_ok && cook_ok
    }
}

impl StoreFilter {
    /// Every store that the filter names is one of `stores`.
    pub open spec fn within(&self, stores: Seq<Store>) -> bool {
        forall|i: int| 0 <= i < self.store_ids@.len() ==> store_ids_of(stores).contains(
            #[trigger] self.store_ids@[i]@,
        )
    }

    /// Tells whether every store that the filter names is one of `stores`.
    pub fn within_stores(&self, stores: &Vec<Store>) -> (r: bool)
        ensures
            r == self.within(stores@),
    {
        let mut i: usize = 0;
        while i < self.store_ids.len()
            invariant
                0 <= i <= self.store_ids@.len(),
                forall|k: int|
                    0 <= k < i ==> store_ids_of(stores@).contains(#[trigger] self.store_ids@[k]@),
            decreases self.store_ids@.len() - i,
        {
            let mut found = false;
            let mut j: usize = 0;
            while j < stores.len()
                invariant
                    0 <= i < self.store_ids@.len(),
                    0 <= j <= stores@.len(),
                    found ==> store_ids_of(stores@).contains(self.store_ids@[i as int]@),
                    !found ==> forall|m: int|
                        0 <= m < j ==> #[trigger] stores@[m].id@ != self.store_ids@[i as int]@,
                decreases stores@.len() - j,
            {
                if stores[j].id == self.store_ids[i] {
                    found = true;
                }
                j = j + 1;
            }
            if !found {
                assert(!store_ids_of(stores@).contains(self.store_ids@[i as int]@));
                return false;
            }
            i = i + 1;
        }
        true
    }
}

impl ICalendarInfo {
    /// The export is enabled exactly when both its url and its token are known.
    pub open spec fn consistent(&self) -> bool {
        self.enabled == (self.url is Some && self.token is Some)
    }

    /// Tells whether `enabled` agrees with the presence of url and token.
    pub fn is_consistent(&self) -> (r: bool)
        ensures
            r == self.consistent(),
    {
        let both = self.url.is_some() && self.token.is_some();
        self.enabled == both
    }
}

} // verus!
