//! The read side: what is asked of the document store for each query, and
//! what the reply means.
//!
//! A lookup that fails in the store looks the same to the caller as one
//! that finds nothing.

use vstd::prelude::*;
use crate::authorization::{authorize_user, is_authorized};
use crate::error::CartError;
use crate::ids::Uuid;
use crate::shoppingcart::{ShoppingCart, ShoppingCartView};
use crate::shoppingcart_item::ShoppingCartItem;
use crate::store::{Database, StoreReply, StoreReplyView, StoreRequest, StoreRequestView};
use crate::user::{User, UserView};

verus! {

/// The user document that a reply carries, if it carries one.
pub open spec fn user_in(reply: StoreReplyView) -> Option<UserView> {
    match reply {
        StoreReplyView::User(found) => found,
        _ => None,
    }
}

/// The value of a result that holds a user.
pub open spec fn user_result(result: Result<User, CartError>) -> Result<UserView, CartError> {
    match result {
        Ok(user) => Ok(user@),
        Err(error) => Err(error),
    }
}

/// The value of a result that holds a shopping cart.
pub open spec fn cart_result(result: Result<ShoppingCart, CartError>) -> Result<
    ShoppingCartView,
    CartError,
> {
    match result {
        Ok(shoppingcart) => Ok(shoppingcart@),
        Err(error) => Err(error),
    }
}

/// What the lookup of the user `id` means for the cart of that user.
pub open spec fn shoppingcart_of(reply: StoreReplyView, id: Uuid) -> Result<
    ShoppingCartView,
    CartError,
> {
    match user_in(reply) {
        Some(user) => Ok(user.shoppingcart),
        None => Err(CartError::ShoppingCartNotFound { id }),
    }
}

/// What the lookup of the user `id` means.
pub open spec fn user_of(reply: StoreReplyView, id: Uuid) -> Result<UserView, CartError> {
    match user_in(reply) {
        Some(user) => Ok(user),
        None => Err(CartError::UserNotFound { id }),
    }
}

/// What the lookup of the user that holds the item `id` means.
pub open spec fn item_user_of(reply: StoreReplyView, id: Uuid) -> Result<UserView, CartError> {
    match user_in(reply) {
        Some(user) => Ok(user),
        None => Err(CartError::ShoppingCartItemNotFound { id }),
    }
}

/// What the lookup of the user `user_id` holding an item of the product
/// variant means.
pub open spec fn variant_user_of(reply: StoreReplyView, product_variant_id: Uuid, user_id: Uuid)
    -> Result<UserView, CartError> {
    match user_in(reply) {
        Some(user) => Ok(user),
        None => Err(CartError::ShoppingCartItemOfVariantNotFound { product_variant_id, user_id }),
    }
}

/// The item that a user document cut down to one item carries: the first
/// of its cart.
pub open spec fn projected_item(user: UserView) -> Result<ShoppingCartItem, CartError> {
    if user.shoppingcart.items.len() > 0 {
        Ok(user.shoppingcart.items[0])
    } else {
        Err(CartError::ProjectionFailed)
    }
}

/// What the lookup of the user that holds the item `id` means for the
/// item.
pub open spec fn item_of(reply: StoreReplyView, id: Uuid) -> Result<ShoppingCartItem, CartError> {
    match item_user_of(reply, id) {
        Ok(user) => projected_item(user),
        Err(error) => Err(error),
    }
}

/// What the lookup of the user `user_id` holding an item of the product
/// variant means for the item.
pub open spec fn item_of_variant_of(reply: StoreReplyView, product_variant_id: Uuid, user_id: Uuid)
    -> Result<ShoppingCartItem, CartError> {
    match variant_user_of(reply, product_variant_id, user_id) {
        Ok(user) => projected_item(user),
        Err(error) => Err(error),
    }
}

/// Takes the user document out of a reply, if it carries one.
fn found_user(reply: StoreReply) -> (found: Option<User>)
    ensures
        match found {
            Some(user) => user_in(reply@) == Some(user@),
            None => user_in(reply@) is None,
        },
{
    match reply {
        StoreReply::User(found) => found,
        _ => None,
    }
}

/// Reads the reply to the lookup of the user `id` for the shopping cart:
/// the cart of the user that the store found, or a failure naming `id` if
/// it found none.
pub fn query_shoppingcart(reply: StoreReply, id: Uuid) -> (result: Result<ShoppingCart, CartError>)
    ensures
        cart_result(result) == shoppingcart_of(reply@, id),
{
    match found_user(reply) {
        Some(user) => Ok(user.shoppingcart),
        None => Err(CartError::ShoppingCartNotFound { id }),
    }
}

/// Reads the reply to the lookup of the user that holds the shopping cart
/// item `id`: the user that the store found, with the cart cut down to the
/// item, or a failure naming `id`.
pub fn query_shoppingcart_item_user(reply: StoreReply, id: Uuid) -> (result: Result<
    User,
    CartError,
>)
    ensures
        user_result(result) == item_user_of(reply@, id),
{
    match found_user(reply) {
        Some(user) => Ok(user),
        None => Err(CartError::ShoppingCartItemNotFound { id }),
    }
}

/// Projects the result of a shopping cart item query, a user whose cart is
/// cut down to the matched item, to that item.
pub fn project_user_to_shopping_cart_item(user: User) -> (result: Result<
    ShoppingCartItem,
    CartError,
>)
    ensures
        result == projected_item(user@),
{
    if user.shoppingcart.internal_shoppingcart_items.len() > 0 {
        Ok(user.shoppingcart.internal_shoppingcart_items[0])
    } else {
        Err(CartError::ProjectionFailed)
    }
}

/// Reads the reply to the lookup of the user that holds the shopping cart
/// item `id` and applies the projection directly.
pub fn query_shoppingcart_item(reply: StoreReply, id: Uuid) -> (result: Result<
    ShoppingCartItem,
    CartError,
>)
    ensures
        result == item_of(reply@, id),
{
    match query_shoppingcart_item_user(reply, id) {
        Ok(user) => project_user_to_shopping_cart_item(user),
        Err(error) => Err(error),
    }
}

/// Reads the reply to the lookup of the shopping cart item by product
/// variant and user and applies the projection directly.
pub fn query_shoppingcart_item_by_product_variant_id_and_user_id(
    reply: StoreReply,
    product_variant_id: Uuid,
    user_id: Uuid,
) -> (result: Result<ShoppingCartItem, CartError>)
    ensures
        result == item_of_variant_of(reply@, product_variant_id, user_id),
{
    match query_shoppingcart_item_user_by_product_variant_id_and_user_id(
        reply,
        product_variant_id,
        user_id,
    ) {
        Ok(user) => project_user_to_shopping_cart_item(user),
        Err(error) => Err(error),
    }
}

/// Reads the reply to the lookup of the user `user_id` whose cart holds an
/// item of the product variant: the user that the store found, with the
/// cart cut down to the item, or a failure naming both identities.
pub fn query_shoppingcart_item_user_by_product_variant_id_and_user_id(
    reply: StoreReply,
    product_variant_id: Uuid,
    user_id: Uuid,
) -> (result: Result<User, CartError>)
    ensures
        user_result(result) == variant_user_of(reply@, product_variant_id, user_id),
{
    match found_user(reply) {
        Some(user) => Ok(user),
        None => Err(CartError::ShoppingCartItemOfVariantNotFound { product_variant_id, user_id }),
    }
}

/// Reads what the lookup of an object by its identity found: the object,
/// or a failure naming `id`.
pub fn query_object<T>(found: Option<T>, id: Uuid) -> (result: Result<T, CartError>)
    ensures
        match found {
            Some(object) => result == Ok::<T, CartError>(object),
            None => result == Err::<T, CartError>(CartError::ObjectNotFound { id }),
        },
{
    match found {
        Some(object) => Ok(object),
        None => Err(CartError::ObjectNotFound { id }),
    }
}

/// Reads the reply to the lookup of the user `id`: the user that the
/// store found, or a failure naming `id`.
pub fn query_user(reply: StoreReply, id: Uuid) -> (result: Result<User, CartError>)
    ensures
        user_result(result) == user_of(reply@, id),
{
    match found_user(reply) {
        Some(user) => Ok(user),
        None => Err(CartError::UserNotFound { id }),
    }
}

/// The item `id` as the owner sees it: the lookup must find it and the
/// caller must be the user that holds it.
pub open spec fn item_for_caller(reply: StoreReplyView, caller: Option<Uuid>, id: Uuid) -> Result<
    ShoppingCartItem,
    CartError,
> {
    match item_user_of(reply, id) {
        Ok(user) => if is_authorized(caller, user._id) {
            projected_item(user)
        } else {
            Err(CartError::Unauthorized { owner: user._id })
        },
        Err(error) => Err(error),
    }
}

/// Describes the shopping cart queries.
#[derive(Clone, Copy, Debug, Default, PartialEq, Eq)]
pub struct Query;

impl Query {
    /// What the entity resolver for the user `id` asks of the store.
    pub fn user_entity_resolver_request(id: Uuid) -> (request: StoreRequest)
        ensures
            request@ == (StoreRequestView::FindUser { id }),
    {
        StoreRequest::FindUser { id }
    }

    /// What the store's reply means to the entity resolver for the user
    /// `id`. The resolver serves other services and checks no caller.
    pub fn user_entity_resolver_answer(reply: StoreReply, id: Uuid) -> (result: Result<
        User,
        CartError,
    >)
        ensures
            user_result(result) == user_of(reply@, id),
    {
        query_user(reply, id)
    }

    /// Entity resolver for the user `id`, answered from the in-memory
    /// store.
    pub fn user_entity_resolver(&self, database: &Database, id: Uuid) -> (result: Result<
        User,
        CartError,
    >)
        ensures
            user_result(result) == match database@.user(id) {
                Some(user) => Ok::<UserView, CartError>(user),
                None => Err(CartError::UserNotFound { id }),
            },
    {
        let request = Query::user_entity_resolver_request(id);
        Query::user_entity_resolver_answer(database.read(&request), id)
    }

    /// What the query for the shopping cart item `id` asks of the store.
    pub fn shoppingcart_item_request(id: Uuid) -> (request: StoreRequest)
        ensures
            request@ == (StoreRequestView::FindShoppingCartItemUser { id }),
    {
        StoreRequest::FindShoppingCartItemUser { id }
    }

    /// What the store's reply means to the query for the shopping cart
    /// item `id`: the item, if it was found and the caller is the user
    /// that holds it.
    pub fn shoppingcart_item_answer(reply: StoreReply, caller: Option<Uuid>, id: Uuid) -> (result:
        Result<ShoppingCartItem, CartError>)
        ensures
            result == item_for_caller(reply@, caller, id),
    {
        match query_shoppingcart_item_user(reply, id) {
            Ok(user) => match authorize_user(caller, user._id) {
                Ok(_) => project_user_to_shopping_cart_item(user),
                Err(error) => Err(error),
            },
            Err(error) => Err(error),
        }
    }

    /// Retrieves the shopping cart item `id` for `caller` from the
    /// in-memory store.
    pub fn shoppingcart_item(&self, database: &Database, caller: Option<Uuid>, id: Uuid) -> (result:
        Result<ShoppingCartItem, CartError>)
        ensures
            result == match database@.item(id) {
                Some((owner, shoppingcart_item)) => if is_authorized(caller, owner) {
                    Ok::<ShoppingCartItem, CartError>(shoppingcart_item)
                } else {
                    Err(CartError::Unauthorized { owner })
                },
                None => Err(CartError::ShoppingCartItemNotFound { id }),
            },
    {
        let request = Query::shoppingcart_item_request(id);
        Query::shoppingcart_item_answer(database.read(&request), caller, id)
    }

    /// What the entity resolver for the shopping cart item `id` asks of
    /// the store.
    pub fn shoppingcart_item_entity_resolver_request(id: Uuid) -> (request: StoreRequest)
        ensures
            request@ == (StoreRequestView::FindShoppingCartItemUser { id }),
    {
        StoreRequest::FindShoppingCartItemUser { id }
    }

    /// What the store's reply means to the entity resolver for the
    /// shopping cart item `id`. The resolver serves other services and
    /// checks no caller.
    pub fn shoppingcart_item_entity_resolver_answer(reply: StoreReply, id: Uuid) -> (result: Result<
        ShoppingCartItem,
        CartError,
    >)
        ensures
            result == item_of(reply@, id),
    {
        query_shoppingcart_item(reply, id)
    }

    /// Entity resolver for the shopping cart item `id`, answered from the
    /// in-memory store.
    pub fn shoppingcart_item_entity_resolver(&self, database: &Database, id: Uuid) -> (result:
        Result<ShoppingCartItem, CartError>)
        ensures
            result == match database@.item(id) {
                Some((_, shoppingcart_item)) => Ok::<ShoppingCartItem, CartError>(
                    shoppingcart_item,
                ),
                None => Err(CartError::ShoppingCartItemNotFound { id }),
            },
    {
        let request = Query::shoppingcart_item_entity_resolver_request(id);
        Query::shoppingcart_item_entity_resolver_answer(database.read(&request), id)
    }
}

/// Entity resolution agrees with the direct query: for a caller that is
/// the owner, both give the same result on the same reply.
pub proof fn law_entity_resolver_agrees_with_query(
    reply: StoreReplyView,
    caller: Option<Uuid>,
    id: Uuid,
)
    requires
        item_user_of(reply, id) matches Ok(user) ==> is_authorized(caller, user._id),
    ensures
        item_for_caller(reply, caller, id) == item_of(reply, id),
{
}

} // verus!
