use shoppingcart::connection::{
    BaseConnection, FindResult, FindResultWrapper, ShoppingCartConnection, ShoppingCartItemConnection,
};
use shoppingcart::error::{CartError, ErrorKind};
use shoppingcart::ids::{Timestamp, Uuid};
use shoppingcart::mutation_input_structs::{
    distinct_entries, AddShoppingCartInput, AddShoppingCartItemInput, ShoppingCartItemInput,
    UpdateShoppingCartInput,
};
use shoppingcart::order_datatypes::{
    CommonOrderField, CommonOrderInput, OrderDirection, ShoppingCartOrderField, ShoppingCartOrderInput,
};
use shoppingcart::shoppingcart::{copy_items, ShoppingCart};
use shoppingcart::shoppingcart_item::{NodeWrapper, ProductVariant, ShoppingCartItem};
use shoppingcart::user::{ShoppingCartsFind, User};
use std::cmp::Ordering;

fn id(value: u128) -> Uuid {
    Uuid::from_u128(value)
}

fn item(item_id: u128, count: u32) -> ShoppingCartItem {
    ShoppingCartItem {
        _id: id(item_id),
        count,
        added_at: Timestamp::from_millis(100),
        product_variant: ProductVariant { _id: id(10) },
    }
}

const SAMPLE: u128 = 0x67e55044_10b1_426f_9247_bb680e5fe0c8;

#[test]
fn identity_text_is_hyphenated_lower_case() {
    assert_eq!(id(SAMPLE).to_text(), "67e55044-10b1-426f-9247-bb680e5fe0c8");
    assert_eq!(id(0).to_text(), "00000000-0000-0000-0000-000000000000");
    assert_eq!(id(u128::MAX).to_text(), "ffffffff-ffff-ffff-ffff-ffffffffffff");
    assert_eq!(id(0xAB).to_text(), "00000000-0000-0000-0000-0000000000ab");
}

#[test]
fn identity_text_agrees_with_bson() {
    let parsed = bson::Uuid::parse_str("67e55044-10b1-426f-9247-bb680e5fe0c8").unwrap();
    assert_eq!(u128::from_be_bytes(parsed.bytes()), SAMPLE);
    assert_eq!(id(SAMPLE).to_text(), parsed.to_string());
}

#[test]
fn identity_order_agrees_with_bson() {
    let values = [0u128, 1, 0xFF, 0x100, 1 << 64, (1 << 64) + 1, SAMPLE, u128::MAX - 1, u128::MAX];
    for a in values {
        for b in values {
            let left = bson::Uuid::from_bytes(a.to_be_bytes());
            let right = bson::Uuid::from_bytes(b.to_be_bytes());
            assert_eq!(a.cmp(&b), left.cmp(&right));
            assert_eq!(item(a, 1).partial_cmp(&item(b, 2)), Some(left.cmp(&right)));
        }
    }
}

#[test]
fn fresh_identities_differ() {
    let a = Uuid::new();
    let b = Uuid::new();
    assert_ne!(a, b);
    // Version 4, variant 1, as drawn by the outside generator.
    assert_eq!((a.value >> 76) & 0xF, 4);
    assert_eq!((a.value >> 62) & 0x3, 2);
}

#[test]
fn clock_is_read_in_milliseconds() {
    // On a machine whose clock is set, a reading in milliseconds lies after
    // 2020-01-01; one in seconds would not.
    assert!(Timestamp::now().millis > 1_577_836_800_000);
    assert_eq!(Timestamp::from_millis(-5).millis, -5);
}

#[test]
fn new_cart_is_empty() {
    let cart = ShoppingCart::new();
    assert!(cart.internal_shoppingcart_items.is_empty());
    assert!(cart.last_updated_at.millis > 1_577_836_800_000);
    let dated = ShoppingCart::new_at(Timestamp::from_millis(7));
    assert_eq!(
        dated,
        ShoppingCart { last_updated_at: Timestamp::from_millis(7), internal_shoppingcart_items: vec![] }
    );
    let full = ShoppingCart {
        last_updated_at: Timestamp::from_millis(7),
        internal_shoppingcart_items: vec![item(1, 1), item(2, 2)],
    };
    assert_eq!(full.duplicate(), full);
    assert_eq!(copy_items(&full.internal_shoppingcart_items), full.internal_shoppingcart_items);
    let owner = User { _id: id(1), shoppingcart: full };
    assert_eq!(owner.duplicate(), owner);
}

#[test]
fn items_compare_by_identity_alone() {
    assert!(item(1, 9) < item(2, 0));
    assert!(item(3, 0) > item(2, 9));
    assert_eq!(item(2, 1).partial_cmp(&item(2, 5)), Some(Ordering::Equal));
    assert_ne!(item(2, 1), item(2, 5));
    assert_eq!(Uuid::from(item(42, 1)), id(42));
    assert_eq!(NodeWrapper(item(42, 1)).into_edge(), (id(42), item(42, 1)));
}

#[test]
fn order_fields_map_to_stored_names() {
    assert_eq!(ShoppingCartOrderField::Id.as_str(), "_id");
    assert_eq!(ShoppingCartOrderField::UserId.as_str(), "user_id");
    assert_eq!(ShoppingCartOrderField::Name.as_str(), "name");
    assert_eq!(ShoppingCartOrderField::CreatedAt.as_str(), "created_at");
    assert_eq!(ShoppingCartOrderField::LastUpdatedAt.as_str(), "last_updated_at");
    assert_eq!(CommonOrderField::Id.as_str(), "_id");
}

#[test]
fn order_directions_map_to_signs() {
    assert_eq!(i32::from(OrderDirection::Asc), 1);
    assert_eq!(i32::from(OrderDirection::Desc), -1);
}

#[test]
fn order_defaults_are_identity_ascending() {
    assert_eq!(OrderDirection::default(), OrderDirection::Asc);
    assert_eq!(ShoppingCartOrderField::default(), ShoppingCartOrderField::Id);
    assert_eq!(CommonOrderField::default(), CommonOrderField::Id);
    assert_eq!(
        ShoppingCartOrderInput::default(),
        ShoppingCartOrderInput {
            direction: Some(OrderDirection::Asc),
            field: Some(ShoppingCartOrderField::Id)
        }
    );
    assert_eq!(
        CommonOrderInput::default(),
        CommonOrderInput { direction: Some(OrderDirection::Asc), field: Some(CommonOrderField::Id) }
    );
    assert_eq!(CommonOrderInput::direction_or_default(None), OrderDirection::Asc);
    assert_eq!(
        CommonOrderInput::direction_or_default(Some(CommonOrderInput { direction: None, field: None })),
        OrderDirection::Asc
    );
    assert_eq!(
        CommonOrderInput::direction_or_default(Some(CommonOrderInput {
            direction: Some(OrderDirection::Desc),
            field: None
        })),
        OrderDirection::Desc
    );
    assert_eq!(CommonOrderInput::field_or_default(None), CommonOrderField::Id);
}

#[test]
fn carts_find_carries_order_and_bounds() {
    let owner = User { _id: id(5), shoppingcart: ShoppingCart::new_at(Timestamp::from_millis(1)) };
    assert_eq!(
        owner.shoppingcarts_find(None, None, None),
        ShoppingCartsFind { user_id: id(5), sort_field: "_id", sort_direction: 1, skip: None, limit: None }
    );
    let descending = CommonOrderInput { direction: Some(OrderDirection::Desc), field: None };
    assert_eq!(
        owner.shoppingcarts_find(Some(u32::MAX), Some(u64::MAX), Some(descending)),
        ShoppingCartsFind {
            user_id: id(5),
            sort_field: "_id",
            sort_direction: -1,
            skip: Some(u64::MAX),
            limit: Some(4_294_967_295)
        }
    );
}

#[test]
fn carts_connection_comes_from_find_result() {
    let cart = || ShoppingCart {
        last_updated_at: Timestamp::from_millis(7),
        internal_shoppingcart_items: vec![item(1, 1)],
    };
    let found = FindResult { has_next_page: true, total_count: 12, items: vec![cart()] };
    assert_eq!(
        User::shoppingcarts(Some(found)),
        Ok(ShoppingCartConnection { nodes: vec![cart()], has_next_page: true, total_count: 12 })
    );
    assert_eq!(User::shoppingcarts(None), Err(CartError::RetrievingShoppingCartsFailed));
    assert_eq!(
        CartError::RetrievingShoppingCartsFailed.kind(),
        ErrorKind::StorageOperationFailed
    );
}

#[test]
fn connections_convert_field_by_field() {
    let found = FindResult { has_next_page: false, total_count: 2, items: vec![item(1, 1), item(2, 1)] };
    let base = BaseConnection::from(FindResultWrapper(found));
    assert_eq!(
        base,
        BaseConnection { nodes: vec![item(1, 1), item(2, 1)], has_next_page: false, total_count: 2 }
    );
    assert_eq!(
        ShoppingCartItemConnection::from(base),
        ShoppingCartItemConnection {
            nodes: vec![item(1, 1), item(2, 1)],
            has_next_page: false,
            total_count: 2
        }
    );
}

#[test]
fn inputs_hold_what_callers_give() {
    let wanted = ShoppingCartItemInput { count: 0, product_variant_id: id(10) };
    let add = AddShoppingCartInput { user_id: id(1), shopping_cart_items: vec![wanted] };
    assert_eq!(add.shopping_cart_items[0].count, 0);
    let one = AddShoppingCartItemInput { id: id(1), shopping_cart_item: wanted };
    assert_eq!(one.shopping_cart_item.product_variant_id, id(10));
}

#[test]
fn inputs_form_a_set() {
    let a = ShoppingCartItemInput { count: 1, product_variant_id: id(10) };
    let b = ShoppingCartItemInput { count: 2, product_variant_id: id(10) };
    let c = ShoppingCartItemInput { count: 1, product_variant_id: id(11) };
    assert_eq!(distinct_entries(&vec![a, b, a, c, b, a]), vec![a, b, c]);
    assert_eq!(distinct_entries(&vec![c, a]), vec![c, a]);
    assert_eq!(distinct_entries(&vec![]), vec![]);
    assert_eq!(
        AddShoppingCartInput::new(id(1), &vec![a, a, b]),
        AddShoppingCartInput { user_id: id(1), shopping_cart_items: vec![a, b] }
    );
    assert_eq!(
        UpdateShoppingCartInput::new(id(1), Some(&vec![b, b, a, b])),
        UpdateShoppingCartInput { id: id(1), shopping_cart_items: Some(vec![b, a]) }
    );
    assert_eq!(
        UpdateShoppingCartInput::new(id(1), None),
        UpdateShoppingCartInput { id: id(1), shopping_cart_items: None }
    );
}

#[test]
fn messages_name_the_offending_identity() {
    let text = "67e55044-10b1-426f-9247-bb680e5fe0c8";
    let other = "00000000-0000-0000-0000-000000000007";
    let sample = id(SAMPLE);
    assert_eq!(
        CartError::ShoppingCartNotFound { id: sample }.message(),
        format!("ShoppingCart with UUID: `{}` not found.", text)
    );
    assert_eq!(
        CartError::UserNotFound { id: sample }.message(),
        format!("User with UUID: `{}` not found.", text)
    );
    assert_eq!(
        CartError::ObjectNotFound { id: sample }.message(),
        format!("Object with UUID: `{}` not found.", text)
    );
    assert_eq!(
        CartError::ShoppingCartItemNotFound { id: sample }.message(),
        format!("ShoppingCartItem of UUID: `{}` not found.", text)
    );
    assert_eq!(
        CartError::ShoppingCartItemOfVariantNotFound { product_variant_id: sample, user_id: id(7) }
            .message(),
        format!(
            "ShoppingCartItem referencing product variant of UUID: `{}` in shopping cart of user with UUID: `{}` not found.",
            text, other
        )
    );
    assert_eq!(
        CartError::ProjectionFailed.message(),
        "Projection failed, shoppingcart item could not be extracted from user."
    );
    assert_eq!(
        CartError::ProductVariantNotPresent { id: sample }.message(),
        format!("Product variant with the UUID: `{}` is not present in the system.", text)
    );
    assert_eq!(
        CartError::ProductVariantsNotPresent.message(),
        "Product variants with the specified UUIDs are not present in the system."
    );
    assert_eq!(
        CartError::UserNotPresent { id: sample }.message(),
        format!("User with the UUID: `{}` is not present in the system.", text)
    );
    assert_eq!(
        CartError::Unauthorized { owner: sample }.message(),
        format!(
            "Authorization failed: operation is not permitted on the shopping cart of user with UUID: `{}`.",
            text
        )
    );
    assert_eq!(
        CartError::UpdateShoppingCartFailed { id: sample }.message(),
        format!("Updating product_variant_ids of shoppingcart of id: `{}` failed in MongoDB.", text)
    );
    assert_eq!(
        CartError::AddShoppingCartItemFailed { id: sample }.message(),
        format!("Add shoppingcart item of id: `{}` failed in MongoDB.", text)
    );
    assert_eq!(
        CartError::UpdateShoppingCartItemFailed { id: sample }.message(),
        format!("Updating count of shoppingcart item of id: `{}` failed in MongoDB.", text)
    );
    assert_eq!(
        CartError::DeleteShoppingCartItemFailed { id: sample }.message(),
        format!("Deleting shoppingcart item of id: `{}` failed in MongoDB.", text)
    );
    assert_eq!(
        CartError::RetrievingShoppingCartsFailed.message(),
        "Retrieving shoppingcarts failed in MongoDB."
    );
    assert_eq!(CartError::EventNotApplied.message(), "Applying the event to the projection failed.");
    assert_eq!(CartError::UnroutableEvent.message(), "Event topic is not handled by this service.");
}

#[test]
fn every_failure_has_its_kind() {
    let sample = id(1);
    assert_eq!(CartError::ShoppingCartNotFound { id: sample }.kind(), ErrorKind::NotFound);
    assert_eq!(CartError::UserNotFound { id: sample }.kind(), ErrorKind::NotFound);
    assert_eq!(CartError::ObjectNotFound { id: sample }.kind(), ErrorKind::NotFound);
    assert_eq!(CartError::ShoppingCartItemNotFound { id: sample }.kind(), ErrorKind::NotFound);
    assert_eq!(
        CartError::ShoppingCartItemOfVariantNotFound { product_variant_id: sample, user_id: sample }.kind(),
        ErrorKind::NotFound
    );
    assert_eq!(CartError::ProductVariantNotPresent { id: sample }.kind(), ErrorKind::ValidationFailed);
    assert_eq!(CartError::UserNotPresent { id: sample }.kind(), ErrorKind::ValidationFailed);
    assert_eq!(CartError::Unauthorized { owner: sample }.kind(), ErrorKind::Unauthorized);
    assert_eq!(
        CartError::AddShoppingCartItemFailed { id: sample }.kind(),
        ErrorKind::StorageOperationFailed
    );
    assert_eq!(
        CartError::UpdateShoppingCartItemFailed { id: sample }.kind(),
        ErrorKind::StorageOperationFailed
    );
    assert_eq!(
        CartError::DeleteShoppingCartItemFailed { id: sample }.kind(),
        ErrorKind::StorageOperationFailed
    );
    assert_eq!(CartError::UnroutableEvent.kind(), ErrorKind::UnroutableEvent);
}
