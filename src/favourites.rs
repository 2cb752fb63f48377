//! Picking a favourite out of its favourites list before it is copied onto a
//! shopping list. The lookup is the facade's own: the service is only asked
//! to add the item once the favourite has been found.
use crate::error::{favourite_not_found_text, ClientError, ErrorKind};
use crate::model::{FavouriteItem, FavouritesList};
use vstd::prelude::*;

verus! {

/// Some item of `items` has the id `id`.
pub open spec fn has_favourite(items: Seq<FavouriteItem>, id: Seq<char>) -> bool {
    exists|k: int| 0 <= k < items.len() && #[trigger] items[k].id@ == id
}

impl FavouritesList {
    /// The position of the first item whose id is `favourite_id`; where no
    /// item has it, the not-found error with the message
    /// "Favourite item not found".
    pub fn position_of(&self, favourite_id: &String) -> (r: Result<usize, ClientError>)
        ensures
            (r is Ok) == has_favourite(self.items@, favourite_id@),
            r matches Ok(i) ==> {
                &&& i < self.items@.len()
                &&& self.items@[i as int].id@ == favourite_id@
                &&& forall|k: int| 0 <= k < i ==> #[trigger] self.items@[k].id@ != favourite_id@
            },
            r matches Err(e) ==> e.kind == ErrorKind::NotFound && e.message@
                == favourite_not_found_text(),
    {
        let mut i: usize = 0;
        while i < self.items.len()
            invariant
                0 <= i <= self.items@.len(),
                forall|k: int| 0 <= k < i ==> #[trigger] self.items@[k].id@ != favourite_id@,
            decreases self.items@.len() - i,
        {
            if self.items[i].id == *favourite_id {
                return Ok(i);
            }
            i = i + 1;
        }
        Err(ClientError::favourite_not_found())
    }
}

} // verus!
