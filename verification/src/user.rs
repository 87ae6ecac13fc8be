//! Users, each the owner of one shopping cart.

use vstd::prelude::*;
use crate::connection::{BaseConnection, FindResult, FindResultWrapper, ShoppingCartConnection};
use crate::error::CartError;
use crate::ids::Uuid;
use crate::order_datatypes::{CommonOrderField, CommonOrderInput, OrderDirection};
use crate::shoppingcart::{ShoppingCart, ShoppingCartView};

verus! {

/// Type of a user owning a shopping cart.
#[derive(Debug, PartialEq, Eq)]
pub struct User {
    /// UUID of the user.
    pub _id: Uuid,
    /// Shopping cart of the user.
    pub shoppingcart: ShoppingCart,
}

/// The mathematical value of a user.
pub struct UserView {
    pub _id: Uuid,
    pub shoppingcart: ShoppingCartView,
}

impl View for User {
    type V = UserView;

    open spec fn view(&self) -> UserView {
        UserView { _id: self._id, shoppingcart: self.shoppingcart@ }
    }
}

/// What the document store is asked when the shopping carts of a user are
/// listed: the owner to filter by, the stored field and the sign to sort
/// by, how many carts to pass over and how many to return at most.
#[derive(Clone, Copy, Debug, PartialEq, Eq)]
pub struct ShoppingCartsFind {
    pub user_id: Uuid,
    pub sort_field: &'static str,
    pub sort_direction: i32,
    pub skip: Option<u64>,
    pub limit: Option<i64>,
}

impl User {
    /// A copy of the user.
    pub fn duplicate(&self) -> (user: User)
        ensures
            user@ == self@,
    {
        User { _id: self._id, shoppingcart: self.shoppingcart.duplicate() }
    }

    /// The find that lists the shopping carts of the user: filtered by the
    /// owner, sorted by the field and direction of `order_by` (identity,
    /// ascending by default), with `skip` and `first` handed on as offset
    /// and limit.
    pub fn shoppingcarts_find(
        &self,
        first: Option<u32>,
        skip: Option<u64>,
        order_by: Option<CommonOrderInput>,
    ) -> (find: ShoppingCartsFind)
        ensures
            find.user_id == self._id,
            find.sort_field@ == CommonOrderInput::resolved_field(order_by).field_name(),
            find.sort_direction == CommonOrderInput::resolved_direction(order_by).sign(),
            find.skip == skip,
            find.limit == match first {
                Some(limit) => Some(limit as i64),
                None => None,
            },
    {
        let field: CommonOrderField = CommonOrderInput::field_or_default(order_by);
        let direction: OrderDirection = CommonOrderInput::direction_or_default(order_by);
        let limit = match first {
            Some(limit) => Some(limit as i64),
            None => None,
        };
        ShoppingCartsFind {
            user_id: self._id,
            sort_field: field.as_str(),
            sort_direction: i32::from(direction),
            skip,
            limit,
        }
    }

    /// Retrieves the shopping carts of the user from what the paged find
    /// returned: the connection of the carts found, or a failure if the
    /// find failed.
    pub fn shoppingcarts(found: Option<FindResult<ShoppingCart>>) -> (result: Result<
        ShoppingCartConnection,
        CartError,
    >)
        ensures
            match found {
                Some(find_results) => result is Ok && result->Ok_0.nodes == find_results.items
                    && result->Ok_0.has_next_page == find_results.has_next_page
                    && result->Ok_0.total_count == find_results.total_count,
                None => result == Err::<ShoppingCartConnection, CartError>(
                    CartError::RetrievingShoppingCartsFailed,
                ),
            },
    {
        match found {
            Some(find_results) => {
                let find_result_wrapper = FindResultWrapper(find_results);
                let connection: BaseConnection<ShoppingCart> = BaseConnection::from(
                    find_result_wrapper,
                );
                Ok(ShoppingCartConnection::from(connection))
            },
            None => Err(CartError::RetrievingShoppingCartsFailed),
        }
    }
}

} // verus!
