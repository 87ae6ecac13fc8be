use shoppingcart::authorization::authorize_user;
use shoppingcart::error::{CartError, ErrorKind};
use shoppingcart::ids::{Timestamp, Uuid};
use shoppingcart::query::{
    project_user_to_shopping_cart_item, query_object, query_shoppingcart, query_shoppingcart_item,
    query_shoppingcart_item_by_product_variant_id_and_user_id, query_shoppingcart_item_user,
    query_shoppingcart_item_user_by_product_variant_id_and_user_id, query_user, Query,
};
use shoppingcart::shoppingcart::ShoppingCart;
use shoppingcart::shoppingcart_item::{ProductVariant, ShoppingCartItem};
use shoppingcart::store::{Database, StoreReply, StoreRequest};
use shoppingcart::user::User;

fn id(value: u128) -> Uuid {
    Uuid::from_u128(value)
}

fn item(item_id: u128, count: u32, variant: u128) -> ShoppingCartItem {
    ShoppingCartItem {
        _id: id(item_id),
        count,
        added_at: Timestamp::from_millis(100),
        product_variant: ProductVariant { _id: id(variant) },
    }
}

fn user(user_id: u128, items: Vec<ShoppingCartItem>) -> User {
    User {
        _id: id(user_id),
        shoppingcart: ShoppingCart {
            last_updated_at: Timestamp::from_millis(50),
            internal_shoppingcart_items: items,
        },
    }
}

fn store() -> Database {
    Database {
        users: vec![user(1, vec![item(100, 1, 10), item(101, 2, 11)]), user(2, vec![item(200, 5, 10)])],
        product_variants: vec![ProductVariant { _id: id(10) }, ProductVariant { _id: id(11) }],
    }
}

#[test]
fn authorize_passes_owner_only() {
    assert_eq!(authorize_user(Some(id(1)), id(1)), Ok(()));
    assert_eq!(authorize_user(Some(id(2)), id(1)), Err(CartError::Unauthorized { owner: id(1) }));
    assert_eq!(authorize_user(None, id(1)), Err(CartError::Unauthorized { owner: id(1) }));
}

#[test]
fn cart_query_decodes_reply() {
    let found = StoreReply::User(Some(user(1, vec![item(100, 1, 10)])));
    assert_eq!(query_shoppingcart(found, id(1)), Ok(user(1, vec![item(100, 1, 10)]).shoppingcart));
    assert_eq!(
        query_shoppingcart(StoreReply::User(None), id(1)),
        Err(CartError::ShoppingCartNotFound { id: id(1) })
    );
    assert_eq!(
        query_shoppingcart(StoreReply::Failed, id(1)),
        Err(CartError::ShoppingCartNotFound { id: id(1) })
    );
    assert_eq!(
        query_shoppingcart(StoreReply::Written, id(1)),
        Err(CartError::ShoppingCartNotFound { id: id(1) })
    );
}

#[test]
fn user_queries_decode_reply() {
    assert_eq!(query_user(StoreReply::User(Some(user(2, vec![]))), id(2)), Ok(user(2, vec![])));
    assert_eq!(query_user(StoreReply::Failed, id(2)), Err(CartError::UserNotFound { id: id(2) }));
    assert_eq!(query_object(Some(7u8), id(2)), Ok(7u8));
    assert_eq!(query_object::<u8>(None, id(2)), Err(CartError::ObjectNotFound { id: id(2) }));
    assert_eq!(
        query_shoppingcart_item_user(StoreReply::User(Some(user(1, vec![item(100, 1, 10)]))), id(100)),
        Ok(user(1, vec![item(100, 1, 10)]))
    );
    assert_eq!(
        query_shoppingcart_item_user(StoreReply::User(None), id(100)),
        Err(CartError::ShoppingCartItemNotFound { id: id(100) })
    );
    assert_eq!(
        query_shoppingcart_item_user_by_product_variant_id_and_user_id(
            StoreReply::User(None),
            id(10),
            id(1)
        ),
        Err(CartError::ShoppingCartItemOfVariantNotFound { product_variant_id: id(10), user_id: id(1) })
    );
    assert_eq!(
        query_shoppingcart_item_user_by_product_variant_id_and_user_id(
            StoreReply::User(Some(user(1, vec![item(100, 1, 10)]))),
            id(10),
            id(1)
        ),
        Ok(user(1, vec![item(100, 1, 10)]))
    );
}

#[test]
fn item_queries_project_first_item() {
    assert_eq!(
        project_user_to_shopping_cart_item(user(1, vec![item(101, 2, 11), item(100, 1, 10)])),
        Ok(item(101, 2, 11))
    );
    assert_eq!(project_user_to_shopping_cart_item(user(1, vec![])), Err(CartError::ProjectionFailed));
    assert_eq!(CartError::ProjectionFailed.kind(), ErrorKind::NotFound);
    assert_eq!(
        query_shoppingcart_item(StoreReply::User(Some(user(1, vec![item(101, 2, 11)]))), id(101)),
        Ok(item(101, 2, 11))
    );
    assert_eq!(
        query_shoppingcart_item(StoreReply::Failed, id(101)),
        Err(CartError::ShoppingCartItemNotFound { id: id(101) })
    );
    assert_eq!(
        query_shoppingcart_item_by_product_variant_id_and_user_id(
            StoreReply::User(Some(user(1, vec![item(101, 2, 11)]))),
            id(11),
            id(1)
        ),
        Ok(item(101, 2, 11))
    );
    assert_eq!(
        query_shoppingcart_item_by_product_variant_id_and_user_id(StoreReply::Failed, id(11), id(1)),
        Err(CartError::ShoppingCartItemOfVariantNotFound { product_variant_id: id(11), user_id: id(1) })
    );
}

#[test]
fn resolvers_ask_and_answer() {
    assert_eq!(Query::user_entity_resolver_request(id(1)), StoreRequest::FindUser { id: id(1) });
    assert_eq!(
        Query::shoppingcart_item_request(id(100)),
        StoreRequest::FindShoppingCartItemUser { id: id(100) }
    );
    assert_eq!(
        Query::shoppingcart_item_entity_resolver_request(id(100)),
        StoreRequest::FindShoppingCartItemUser { id: id(100) }
    );
    let db = store();
    assert_eq!(Query.user_entity_resolver(&db, id(2)), Ok(user(2, vec![item(200, 5, 10)])));
    assert_eq!(Query.user_entity_resolver(&db, id(9)), Err(CartError::UserNotFound { id: id(9) }));
    assert_eq!(Query.shoppingcart_item(&db, Some(id(1)), id(101)), Ok(item(101, 2, 11)));
    assert_eq!(
        Query.shoppingcart_item(&db, Some(id(2)), id(101)),
        Err(CartError::Unauthorized { owner: id(1) })
    );
    assert_eq!(
        Query.shoppingcart_item(&db, None, id(101)),
        Err(CartError::Unauthorized { owner: id(1) })
    );
    assert_eq!(
        Query.shoppingcart_item(&db, Some(id(1)), id(999)),
        Err(CartError::ShoppingCartItemNotFound { id: id(999) })
    );
    // The entity resolver checks no caller and agrees with the direct query.
    assert_eq!(Query.shoppingcart_item_entity_resolver(&db, id(101)), Ok(item(101, 2, 11)));
    assert_eq!(
        Query.shoppingcart_item_entity_resolver(&db, id(200)),
        Query.shoppingcart_item(&db, Some(id(2)), id(200))
    );
    assert_eq!(
        Query.shoppingcart_item_entity_resolver(&db, id(999)),
        Err(CartError::ShoppingCartItemNotFound { id: id(999) })
    );
    assert_eq!(
        Query::shoppingcart_item_answer(StoreReply::Failed, Some(id(1)), id(5)),
        Err(CartError::ShoppingCartItemNotFound { id: id(5) })
    );
    assert_eq!(
        Query::user_entity_resolver_answer(StoreReply::Failed, id(5)),
        Err(CartError::UserNotFound { id: id(5) })
    );
    assert_eq!(
        Query::shoppingcart_item_entity_resolver_answer(StoreReply::User(Some(user(1, vec![]))), id(5)),
        Err(CartError::ProjectionFailed)
    );
}
