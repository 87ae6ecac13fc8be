use shoppingcart::error::{CartError, ErrorKind};
use shoppingcart::ids::{Timestamp, Uuid};
use shoppingcart::mutation::{
    mint_shoppingcart_item, normalize_shopping_cart_items, CreateShoppingCartItem,
    DeleteShoppingCartItem, Mutation, UpdateShoppingCart, UpdateShoppingCartItem,
};
use shoppingcart::mutation_input_structs::{
    CreateShoppingCartItemInput, ShoppingCartItemInput, UpdateShoppingCartInput,
    UpdateShoppingCartItemInput,
};
use shoppingcart::shoppingcart::ShoppingCart;
use shoppingcart::shoppingcart_item::{ProductVariant, ShoppingCartItem};
use shoppingcart::store::{Database, Operation, Step, StoreReply, StoreRequest};
use shoppingcart::user::User;

fn id(value: u128) -> Uuid {
    Uuid::from_u128(value)
}

fn at(millis: i64) -> Timestamp {
    Timestamp::from_millis(millis)
}

fn item(item_id: u128, count: u32, variant: u128) -> ShoppingCartItem {
    ShoppingCartItem {
        _id: id(item_id),
        count,
        added_at: at(100),
        product_variant: ProductVariant { _id: id(variant) },
    }
}

/// Users 1 and 2, product variants 10, 11 and 12; user 1 holds items 100
/// (variant 10) and 101 (variant 11), user 2 holds item 200 (variant 10).
fn database() -> Database {
    Database {
        users: vec![
            User {
                _id: id(1),
                shoppingcart: ShoppingCart {
                    last_updated_at: at(50),
                    internal_shoppingcart_items: vec![item(100, 1, 10), item(101, 2, 11)],
                },
            },
            User {
                _id: id(2),
                shoppingcart: ShoppingCart {
                    last_updated_at: at(60),
                    internal_shoppingcart_items: vec![item(200, 5, 10)],
                },
            },
        ],
        product_variants: vec![
            ProductVariant { _id: id(10) },
            ProductVariant { _id: id(11) },
            ProductVariant { _id: id(12) },
        ],
    }
}

fn create_input(owner: u128, count: u32, variant: u128) -> CreateShoppingCartItemInput {
    CreateShoppingCartItemInput {
        id: id(owner),
        shopping_cart_item: ShoppingCartItemInput { count, product_variant_id: id(variant) },
    }
}

#[test]
fn create_adds_new_item_for_unseen_variant() {
    let mut db = database();
    let result = Mutation.create_shoppingcart_item_with(
        &mut db,
        Some(id(1)),
        create_input(1, 3, 12),
        id(102),
        at(500),
    );
    let expected = ShoppingCartItem {
        _id: id(102),
        count: 3,
        added_at: at(500),
        product_variant: ProductVariant { _id: id(12) },
    };
    assert_eq!(result, Ok(expected));
    let mut after = database();
    after.users[0].shoppingcart.internal_shoppingcart_items.push(expected);
    after.users[0].shoppingcart.last_updated_at = at(500);
    assert_eq!(db, after);
    // Adding sets the time of the last update to the time of the addition.
    assert_eq!(db.users[0].shoppingcart.last_updated_at, at(500));
    assert_eq!(db.users[1].shoppingcart.last_updated_at, at(60));
}

#[test]
fn create_twice_returns_same_item_and_keeps_one() {
    let mut db = database();
    let first = Mutation
        .create_shoppingcart_item_with(&mut db, Some(id(1)), create_input(1, 3, 12), id(102), at(500))
        .unwrap();
    let after_first = {
        let mut expected = database();
        expected.users[0].shoppingcart.internal_shoppingcart_items.push(first);
        expected.users[0].shoppingcart.last_updated_at = at(500);
        expected
    };
    let second = Mutation
        .create_shoppingcart_item_with(&mut db, Some(id(1)), create_input(1, 9, 12), id(103), at(900))
        .unwrap();
    assert_eq!(second, first);
    assert_eq!(second._id, id(102));
    assert_eq!(second.count, 3);
    assert_eq!(db, after_first);
    let of_variant = db.users[0]
        .shoppingcart
        .internal_shoppingcart_items
        .iter()
        .filter(|item| item.product_variant._id == id(12))
        .count();
    assert_eq!(of_variant, 1);
}

#[test]
fn create_returns_existing_item_unchanged() {
    let mut db = database();
    let result = Mutation.create_shoppingcart_item_with(
        &mut db,
        Some(id(1)),
        create_input(1, 40, 11),
        id(999),
        at(900),
    );
    assert_eq!(result, Ok(item(101, 2, 11)));
    assert_eq!(db, database());
}

#[test]
fn create_with_drawn_identity_is_idempotent() {
    let mut db = database();
    let first = Mutation.create_shoppingcart_item(&mut db, Some(id(2)), create_input(2, 1, 11)).unwrap();
    assert_eq!(first.count, 1);
    assert_eq!(first.product_variant, ProductVariant { _id: id(11) });
    let second = Mutation.create_shoppingcart_item(&mut db, Some(id(2)), create_input(2, 1, 11)).unwrap();
    assert_eq!(second, first);
    assert_eq!(db.users[1].shoppingcart.internal_shoppingcart_items, vec![item(200, 5, 10), first]);
}

#[test]
fn create_allows_count_zero() {
    let mut db = database();
    let result = Mutation.create_shoppingcart_item_with(
        &mut db,
        Some(id(1)),
        create_input(1, 0, 12),
        id(102),
        at(500),
    );
    assert_eq!(result.map(|item| item.count), Ok(0));
}

#[test]
fn create_rejects_unknown_variant_and_unknown_owner() {
    let mut db = database();
    let unknown_variant = Mutation.create_shoppingcart_item_with(
        &mut db,
        Some(id(1)),
        create_input(1, 1, 77),
        id(102),
        at(500),
    );
    assert_eq!(unknown_variant, Err(CartError::ProductVariantNotPresent { id: id(77) }));
    assert_eq!(unknown_variant.unwrap_err().kind(), ErrorKind::ValidationFailed);
    let unknown_owner = Mutation.create_shoppingcart_item_with(
        &mut db,
        Some(id(3)),
        create_input(3, 1, 10),
        id(102),
        at(500),
    );
    assert_eq!(unknown_owner, Err(CartError::UserNotPresent { id: id(3) }));
    assert_eq!(unknown_owner.unwrap_err().kind(), ErrorKind::ValidationFailed);
    assert_eq!(db, database());
}

#[test]
fn unauthorized_mutations_write_nothing() {
    let mut db = database();
    let other = Some(id(2));
    assert_eq!(
        Mutation.create_shoppingcart_item_with(&mut db, other, create_input(1, 1, 12), id(102), at(500)),
        Err(CartError::Unauthorized { owner: id(1) })
    );
    assert_eq!(
        Mutation.create_shoppingcart_item_with(&mut db, None, create_input(1, 1, 12), id(102), at(500)),
        Err(CartError::Unauthorized { owner: id(1) })
    );
    assert_eq!(
        Mutation.update_shoppingcart_with(&mut db, other, id(1), Some(vec![item(300, 1, 10)]), at(700)),
        Err(CartError::Unauthorized { owner: id(1) })
    );
    assert_eq!(
        Mutation.update_shoppingcart_with(&mut db, None, id(1), None, at(700)),
        Err(CartError::Unauthorized { owner: id(1) })
    );
    assert_eq!(
        Mutation.update_shoppingcart_item(
            &mut db,
            other,
            UpdateShoppingCartItemInput { id: id(100), count: 9 }
        ),
        Err(CartError::Unauthorized { owner: id(1) })
    );
    assert_eq!(
        Mutation.delete_shoppingcart_item(&mut db, other, id(101)),
        Err(CartError::Unauthorized { owner: id(1) })
    );
    assert_eq!(
        Mutation.delete_shoppingcart_item(&mut db, None, id(200)),
        Err(CartError::Unauthorized { owner: id(2) })
    );
    assert_eq!(CartError::Unauthorized { owner: id(1) }.kind(), ErrorKind::Unauthorized);
    assert_eq!(db, database());
}

#[test]
fn replace_puts_new_items_and_bumps_time() {
    let mut db = database();
    let new_items = vec![item(300, 4, 12), item(301, 1, 10), item(302, 2, 10)];
    let result =
        Mutation.update_shoppingcart_with(&mut db, Some(id(1)), id(1), Some(new_items.clone()), at(700));
    let expected =
        ShoppingCart { last_updated_at: at(700), internal_shoppingcart_items: new_items.clone() };
    assert_eq!(result, Ok(expected));
    assert_eq!(db.users[0].shoppingcart.internal_shoppingcart_items, new_items);
    assert_eq!(db.users[0].shoppingcart.last_updated_at, at(700));
    assert_eq!(db.users[1], database().users.remove(1));
    assert_eq!(db.product_variants, database().product_variants);
}

#[test]
fn replace_with_one_invalid_variant_fails_entirely() {
    let mut db = database();
    let new_items = vec![item(300, 4, 12), item(301, 1, 77), item(302, 2, 10), item(303, 2, 11)];
    let result = Mutation.update_shoppingcart_with(&mut db, Some(id(1)), id(1), Some(new_items), at(700));
    assert_eq!(result, Err(CartError::ProductVariantNotPresent { id: id(77) }));
    assert_eq!(db, database());
}

#[test]
fn replace_names_first_missing_variant() {
    let mut db = database();
    let new_items = vec![item(300, 4, 10), item(301, 1, 88), item(302, 2, 77)];
    let result = Mutation.update_shoppingcart_with(&mut db, Some(id(1)), id(1), Some(new_items), at(700));
    assert_eq!(result, Err(CartError::ProductVariantNotPresent { id: id(88) }));
    assert_eq!(db, database());
}

#[test]
fn replace_without_items_returns_cart_unchanged() {
    let mut db = database();
    let result = Mutation.update_shoppingcart_with(&mut db, Some(id(2)), id(2), None, at(700));
    assert_eq!(
        result,
        Ok(ShoppingCart {
            last_updated_at: at(60),
            internal_shoppingcart_items: vec![item(200, 5, 10)]
        })
    );
    assert_eq!(db, database());
}

#[test]
fn replace_with_empty_list_empties_cart() {
    let mut db = database();
    let result = Mutation.update_shoppingcart_with(&mut db, Some(id(1)), id(1), Some(vec![]), at(700));
    assert_eq!(
        result,
        Ok(ShoppingCart { last_updated_at: at(700), internal_shoppingcart_items: vec![] })
    );
}

#[test]
fn replace_for_unknown_owner_fails() {
    let mut db = database();
    let result =
        Mutation.update_shoppingcart_with(&mut db, Some(id(3)), id(3), Some(vec![item(300, 1, 10)]), at(700));
    assert_eq!(result, Err(CartError::UserNotPresent { id: id(3) }));
    let read_only = Mutation.update_shoppingcart_with(&mut db, Some(id(3)), id(3), None, at(700));
    assert_eq!(read_only, Err(CartError::ShoppingCartNotFound { id: id(3) }));
    assert_eq!(db, database());
}

#[test]
fn replace_from_inputs_mints_one_item_per_input() {
    let mut db = database();
    let input = UpdateShoppingCartInput {
        id: id(2),
        shopping_cart_items: Some(vec![
            ShoppingCartItemInput { count: 7, product_variant_id: id(11) },
            ShoppingCartItemInput { count: 8, product_variant_id: id(11) },
        ]),
    };
    let cart = Mutation.update_shoppingcart(&mut db, Some(id(2)), &input).unwrap();
    let items = &cart.internal_shoppingcart_items;
    assert_eq!(items.len(), 2);
    assert_eq!((items[0].count, items[0].product_variant._id), (7, id(11)));
    assert_eq!((items[1].count, items[1].product_variant._id), (8, id(11)));
    assert_eq!(items[0].added_at, cart.last_updated_at);
    assert_eq!(items[1].added_at, cart.last_updated_at);
    assert_ne!(items[0]._id, items[1]._id);
    assert_eq!(db.users[1].shoppingcart, cart);
}

#[test]
fn normalize_keeps_counts_and_variants() {
    let inputs = vec![
        ShoppingCartItemInput { count: 1, product_variant_id: id(10) },
        ShoppingCartItemInput { count: 0, product_variant_id: id(12) },
    ];
    let items = normalize_shopping_cart_items(&inputs, at(42));
    assert_eq!(items.len(), 2);
    assert_eq!(items[0], mint_shoppingcart_item(&inputs[0], items[0]._id, at(42)));
    assert_eq!(items[1], mint_shoppingcart_item(&inputs[1], items[1]._id, at(42)));
    assert_eq!(normalize_shopping_cart_items(&vec![], at(42)), vec![]);
}

#[test]
fn update_count_changes_that_item_and_the_time() {
    let mut db = database();
    let result = Mutation.update_shoppingcart_item_with(
        &mut db,
        Some(id(1)),
        UpdateShoppingCartItemInput { id: id(101), count: 42 },
        at(800),
    );
    assert_eq!(result, Ok(item(101, 42, 11)));
    let mut expected = database();
    expected.users[0].shoppingcart.internal_shoppingcart_items[1].count = 42;
    expected.users[0].shoppingcart.last_updated_at = at(800);
    assert_eq!(db, expected);
}

#[test]
fn update_count_now_changes_that_item() {
    let mut db = database();
    let result = Mutation.update_shoppingcart_item(
        &mut db,
        Some(id(2)),
        UpdateShoppingCartItemInput { id: id(200), count: 0 },
    );
    assert_eq!(result, Ok(item(200, 0, 10)));
    assert_eq!(db.users[1].shoppingcart.internal_shoppingcart_items, vec![item(200, 0, 10)]);
    assert_eq!(db.users[0], database().users.remove(0));
}

#[test]
fn update_count_of_unknown_item_is_not_found() {
    let mut db = database();
    let result = Mutation.update_shoppingcart_item(
        &mut db,
        Some(id(1)),
        UpdateShoppingCartItemInput { id: id(555), count: 42 },
    );
    assert_eq!(result, Err(CartError::ShoppingCartItemNotFound { id: id(555) }));
    assert_eq!(result.unwrap_err().kind(), ErrorKind::NotFound);
    assert_eq!(db, database());
}

#[test]
fn delete_removes_the_item_and_sets_the_time() {
    let mut db = database();
    assert_eq!(
        Mutation.delete_shoppingcart_item_with(&mut db, Some(id(1)), id(100), at(800)),
        Ok(true)
    );
    let mut expected = database();
    expected.users[0].shoppingcart.internal_shoppingcart_items.remove(0);
    expected.users[0].shoppingcart.last_updated_at = at(800);
    assert_eq!(db, expected);
}

#[test]
fn delete_is_idempotent() {
    let mut db = database();
    assert_eq!(
        Mutation.delete_shoppingcart_item_with(&mut db, Some(id(1)), id(100), at(800)),
        Ok(true)
    );
    let mut expected = database();
    expected.users[0].shoppingcart.internal_shoppingcart_items.remove(0);
    expected.users[0].shoppingcart.last_updated_at = at(800);
    // The item is gone: deleting it again succeeds and writes nothing.
    assert_eq!(
        Mutation.delete_shoppingcart_item_with(&mut db, Some(id(1)), id(100), at(900)),
        Ok(true)
    );
    assert_eq!(db, expected);
    assert_eq!(Mutation.delete_shoppingcart_item(&mut db, Some(id(1)), id(100)), Ok(true));
    assert_eq!(db, expected);
    // An item that never was there, and a caller that is not authenticated.
    assert_eq!(Mutation.delete_shoppingcart_item(&mut db, None, id(555)), Ok(true));
    assert_eq!(db, expected);
}

#[test]
fn delete_now_removes_the_item() {
    let mut db = database();
    assert_eq!(Mutation.delete_shoppingcart_item(&mut db, Some(id(2)), id(200)), Ok(true));
    assert!(db.users[1].shoppingcart.internal_shoppingcart_items.is_empty());
    assert_eq!(db.users[0], database().users.remove(0));
}

#[test]
fn create_machine_walks_through_its_requests() {
    let input = create_input(1, 3, 12);
    let minted = mint_shoppingcart_item(&input.shopping_cart_item, id(102), at(500));
    let step = CreateShoppingCartItem::start_with(Some(id(1)), input, id(102), at(500));
    let Step::Ask(request, operation) = step else { panic!("expected a request") };
    assert_eq!(
        request,
        StoreRequest::FindShoppingCartItemUserByProductVariant {
            product_variant_id: id(12),
            user_id: id(1)
        }
    );
    let Step::Ask(request, operation) = operation.resume(StoreReply::User(None)) else {
        panic!("expected a request")
    };
    assert_eq!(request, StoreRequest::FindUser { id: id(1) });
    let found = database().users.remove(0);
    let Step::Ask(request, operation) = operation.resume(StoreReply::User(Some(found))) else {
        panic!("expected a request")
    };
    assert_eq!(request, StoreRequest::FindProductVariant { id: id(12) });
    let Step::Ask(request, operation) =
        operation.resume(StoreReply::ProductVariant(Some(ProductVariant { _id: id(12) })))
    else {
        panic!("expected a request")
    };
    assert_eq!(
        request,
        StoreRequest::PushShoppingCartItem {
            user_id: id(1),
            shoppingcart_item: minted,
            last_updated_at: at(500),
        }
    );
    assert_eq!(operation.resume(StoreReply::Written), Step::Done(Ok(minted)));
    assert_eq!(
        operation.resume(StoreReply::Failed),
        Step::Done(Err(CartError::AddShoppingCartItemFailed { id: id(102) }))
    );
}

#[test]
fn create_machine_treats_failed_lookups_as_missing() {
    let input = create_input(1, 3, 12);
    let step = CreateShoppingCartItem::start_with(Some(id(1)), input, id(102), at(500));
    let Step::Ask(_, operation) = step else { panic!("expected a request") };
    let Step::Ask(_, operation) = operation.resume(StoreReply::Failed) else {
        panic!("expected a request")
    };
    assert_eq!(
        operation.resume(StoreReply::Failed),
        Step::Done(Err(CartError::UserNotPresent { id: id(1) }))
    );
    let found = database().users.remove(0);
    let Step::Ask(_, operation) = operation.resume(StoreReply::User(Some(found))) else {
        panic!("expected a request")
    };
    assert_eq!(
        operation.resume(StoreReply::Failed),
        Step::Done(Err(CartError::ProductVariantNotPresent { id: id(12) }))
    );
    assert_eq!(
        operation.resume(StoreReply::ProductVariant(None)),
        Step::Done(Err(CartError::ProductVariantNotPresent { id: id(12) }))
    );
}

#[test]
fn create_machine_refuses_other_caller_before_any_request() {
    let step = CreateShoppingCartItem::start_with(Some(id(2)), create_input(1, 3, 12), id(102), at(500));
    assert_eq!(step, Step::Done(Err(CartError::Unauthorized { owner: id(1) })));
    let drawn = CreateShoppingCartItem::start(None, create_input(1, 3, 12));
    assert_eq!(drawn, Step::Done(Err(CartError::Unauthorized { owner: id(1) })));
}

#[test]
fn replace_machine_reports_storage_failures() {
    let items = vec![item(300, 4, 12)];
    let step = UpdateShoppingCart::start_with(Some(id(1)), id(1), Some(items.clone()), at(700));
    let Step::Ask(request, operation) = step else { panic!("expected a request") };
    assert_eq!(request, StoreRequest::FindProductVariants { ids: vec![id(12)] });
    assert_eq!(
        UpdateShoppingCart::start_with(Some(id(1)), id(1), Some(items.clone()), at(700)),
        Step::Ask(
            StoreRequest::FindProductVariants { ids: vec![id(12)] },
            UpdateShoppingCart::ValidateItems {
                id: id(1),
                shoppingcart_items: items.clone(),
                last_updated_at: at(700)
            }
        )
    );
    let failed_lookup =
        UpdateShoppingCart::ValidateItems { id: id(1), shoppingcart_items: items.clone(), last_updated_at: at(700) }
            .resume(StoreReply::Failed);
    assert_eq!(failed_lookup, Step::Done(Err(CartError::ProductVariantsNotPresent)));
    assert_eq!(CartError::ProductVariantsNotPresent.kind(), ErrorKind::ValidationFailed);
    let Step::Ask(request, operation) =
        operation.resume(StoreReply::ProductVariants(vec![ProductVariant { _id: id(12) }]))
    else {
        panic!("expected a request")
    };
    assert_eq!(request, StoreRequest::FindUser { id: id(1) });
    let found = database().users.remove(0);
    let Step::Ask(request, operation) = operation.resume(StoreReply::User(Some(found))) else {
        panic!("expected a request")
    };
    assert_eq!(
        request,
        StoreRequest::SetShoppingCartItems {
            user_id: id(1),
            shoppingcart_items: items,
            last_updated_at: at(700)
        }
    );
    assert_eq!(operation, UpdateShoppingCart::Write { id: id(1) });
    assert_eq!(
        UpdateShoppingCart::Write { id: id(1) }.resume(StoreReply::Failed),
        Step::Done(Err(CartError::UpdateShoppingCartFailed { id: id(1) }))
    );
    assert_eq!(
        CartError::UpdateShoppingCartFailed { id: id(1) }.kind(),
        ErrorKind::StorageOperationFailed
    );
    assert_eq!(
        operation.resume(StoreReply::Written),
        Step::Ask(StoreRequest::FindUser { id: id(1) }, UpdateShoppingCart::Read { id: id(1) })
    );
    assert_eq!(
        UpdateShoppingCart::Read { id: id(1) }.resume(StoreReply::Failed),
        Step::Done(Err(CartError::ShoppingCartNotFound { id: id(1) }))
    );
}

#[test]
fn item_machines_report_storage_failures() {
    let input = UpdateShoppingCartItemInput { id: id(100), count: 9 };
    let Step::Ask(request, operation) =
        UpdateShoppingCartItem::start_with(Some(id(1)), input, at(800))
    else {
        panic!("expected a request")
    };
    assert_eq!(request, StoreRequest::FindShoppingCartItemUser { id: id(100) });
    assert_eq!(
        operation.resume(StoreReply::Failed),
        Step::Done(Err(CartError::ShoppingCartItemNotFound { id: id(100) }))
    );
    assert_eq!(
        operation.resume(StoreReply::User(None)),
        Step::Done(Err(CartError::ShoppingCartItemNotFound { id: id(100) }))
    );
    let holder = || User {
        _id: id(1),
        shoppingcart: ShoppingCart {
            last_updated_at: at(50),
            internal_shoppingcart_items: vec![item(100, 1, 10)],
        },
    };
    let Step::Ask(request, operation) = operation.resume(StoreReply::User(Some(holder()))) else {
        panic!("expected a request")
    };
    assert_eq!(
        request,
        StoreRequest::SetShoppingCartItemCount { id: id(100), count: 9, last_updated_at: at(800) }
    );
    assert_eq!(
        operation.resume(StoreReply::Failed),
        Step::Done(Err(CartError::UpdateShoppingCartItemFailed { id: id(100) }))
    );
    assert_eq!(
        operation.resume(StoreReply::Written),
        Step::Ask(
            StoreRequest::FindShoppingCartItemUser { id: id(100) },
            UpdateShoppingCartItem::Read { id: id(100) }
        )
    );
    let empty = User { _id: id(1), shoppingcart: ShoppingCart::new_at(at(50)) };
    assert_eq!(
        UpdateShoppingCartItem::Read { id: id(100) }.resume(StoreReply::User(Some(empty))),
        Step::Done(Err(CartError::ProjectionFailed))
    );
    assert!(matches!(
        UpdateShoppingCartItem::start(Some(id(1)), input),
        Step::Ask(
            StoreRequest::FindShoppingCartItemUser { .. },
            UpdateShoppingCartItem::Locate { .. }
        )
    ));

    let Step::Ask(request, operation) =
        DeleteShoppingCartItem::start_with(Some(id(1)), id(100), at(800))
    else {
        panic!("expected a request")
    };
    assert_eq!(request, StoreRequest::FindShoppingCartItemUser { id: id(100) });
    // No cart holds the item: done, nothing asked. A failed lookup is a failure.
    assert_eq!(operation.resume(StoreReply::User(None)), Step::Done(Ok(true)));
    assert_eq!(
        operation.resume(StoreReply::Failed),
        Step::Done(Err(CartError::ShoppingCartItemNotFound { id: id(100) }))
    );
    let Step::Ask(request, operation) = operation.resume(StoreReply::User(Some(holder()))) else {
        panic!("expected a request")
    };
    assert_eq!(
        request,
        StoreRequest::PullShoppingCartItem { id: id(100), last_updated_at: at(800) }
    );
    assert_eq!(operation.resume(StoreReply::Written), Step::Done(Ok(true)));
    assert_eq!(
        operation.resume(StoreReply::DuplicateKey),
        Step::Done(Err(CartError::DeleteShoppingCartItemFailed { id: id(100) }))
    );
    assert!(matches!(
        DeleteShoppingCartItem::start(Some(id(1)), id(100)),
        Step::Ask(
            StoreRequest::FindShoppingCartItemUser { .. },
            DeleteShoppingCartItem::Locate { .. }
        )
    ));
}

#[test]
fn run_answers_every_request_of_an_operation() {
    let mut db = database();
    let step = CreateShoppingCartItem::start_with(Some(id(2)), create_input(2, 4, 11), id(201), at(700));
    let minted = mint_shoppingcart_item(&create_input(2, 4, 11).shopping_cart_item, id(201), at(700));
    assert_eq!(db.run(step), Ok(minted));
    assert_eq!(db.users[1].shoppingcart.internal_shoppingcart_items, vec![item(200, 5, 10), minted]);
    assert_eq!(db.users[1].shoppingcart.last_updated_at, at(700));
    let done: Step<DeleteShoppingCartItem, bool> =
        Step::Done(Err(CartError::DeleteShoppingCartItemFailed { id: id(1) }));
    assert_eq!(db.run(done), Err(CartError::DeleteShoppingCartItemFailed { id: id(1) }));
}
