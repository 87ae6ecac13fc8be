use shoppingcart::ids::{Timestamp, Uuid};
use shoppingcart::shoppingcart::ShoppingCart;
use shoppingcart::shoppingcart_item::{ProductVariant, ShoppingCartItem};
use shoppingcart::store::{
    contains_id, index_of_item, index_of_item_among, index_of_item_of_variant, index_of_variant,
    Database, StoreReply, StoreRequest,
};
use shoppingcart::user::User;

fn id(value: u128) -> Uuid {
    Uuid::from_u128(value)
}

fn at(millis: i64) -> Timestamp {
    Timestamp::from_millis(millis)
}

fn item(item_id: u128, count: u32, variant: u128) -> ShoppingCartItem {
    ShoppingCartItem {
        _id: id(item_id),
        count,
        added_at: at(100),
        product_variant: ProductVariant { _id: id(variant) },
    }
}

fn user(user_id: u128, millis: i64, items: Vec<ShoppingCartItem>) -> User {
    User {
        _id: id(user_id),
        shoppingcart: ShoppingCart { last_updated_at: at(millis), internal_shoppingcart_items: items },
    }
}

fn store() -> Database {
    Database {
        users: vec![
            user(1, 50, vec![item(100, 1, 10), item(101, 2, 11), item(102, 3, 10)]),
            user(2, 60, vec![item(200, 5, 10)]),
            user(3, 70, vec![]),
        ],
        product_variants: vec![ProductVariant { _id: id(10) }, ProductVariant { _id: id(11) }],
    }
}

#[test]
fn new_store_is_empty() {
    let db = Database::new();
    assert!(db.users.is_empty());
    assert!(db.product_variants.is_empty());
}

#[test]
fn find_user_returns_whole_document() {
    let db = store();
    assert_eq!(
        db.read(&StoreRequest::FindUser { id: id(2) }),
        StoreReply::User(Some(user(2, 60, vec![item(200, 5, 10)])))
    );
    assert_eq!(db.read(&StoreRequest::FindUser { id: id(9) }), StoreReply::User(None));
}

#[test]
fn find_item_user_projects_to_matched_item() {
    let db = store();
    assert_eq!(
        db.read(&StoreRequest::FindShoppingCartItemUser { id: id(101) }),
        StoreReply::User(Some(user(1, 50, vec![item(101, 2, 11)])))
    );
    assert_eq!(
        db.read(&StoreRequest::FindShoppingCartItemUser { id: id(200) }),
        StoreReply::User(Some(user(2, 60, vec![item(200, 5, 10)])))
    );
    assert_eq!(
        db.read(&StoreRequest::FindShoppingCartItemUser { id: id(999) }),
        StoreReply::User(None)
    );
}

#[test]
fn find_by_variant_projects_to_first_item_of_variant() {
    let db = store();
    let request = |variant: u128, owner: u128| StoreRequest::FindShoppingCartItemUserByProductVariant {
        product_variant_id: id(variant),
        user_id: id(owner),
    };
    assert_eq!(
        db.read(&request(10, 1)),
        StoreReply::User(Some(user(1, 50, vec![item(100, 1, 10)])))
    );
    assert_eq!(db.read(&request(11, 2)), StoreReply::User(None));
    assert_eq!(db.read(&request(10, 3)), StoreReply::User(None));
    assert_eq!(db.read(&request(10, 9)), StoreReply::User(None));
}

#[test]
fn find_variants_returns_stored_ones_among_ids() {
    let db = store();
    assert_eq!(
        db.read(&StoreRequest::FindProductVariant { id: id(11) }),
        StoreReply::ProductVariant(Some(ProductVariant { _id: id(11) }))
    );
    assert_eq!(
        db.read(&StoreRequest::FindProductVariant { id: id(12) }),
        StoreReply::ProductVariant(None)
    );
    assert_eq!(
        db.read(&StoreRequest::FindProductVariants { ids: vec![id(11), id(12), id(11)] }),
        StoreReply::ProductVariants(vec![ProductVariant { _id: id(11) }])
    );
    assert_eq!(
        db.read(&StoreRequest::FindProductVariants { ids: vec![] }),
        StoreReply::ProductVariants(vec![])
    );
}

#[test]
fn execute_answers_reads_without_change() {
    let mut db = store();
    let reply = db.execute(&StoreRequest::FindUser { id: id(3) });
    assert_eq!(reply, StoreReply::User(Some(user(3, 70, vec![]))));
    assert_eq!(db, store());
}

#[test]
fn insert_refuses_stored_identity() {
    let mut db = store();
    assert_eq!(
        db.execute(&StoreRequest::InsertUser { user: user(4, 80, vec![]) }),
        StoreReply::Written
    );
    assert_eq!(db.users.len(), 4);
    assert_eq!(db.users[3], user(4, 80, vec![]));
    assert_eq!(
        db.execute(&StoreRequest::InsertUser { user: user(4, 999, vec![item(1, 1, 1)]) }),
        StoreReply::DuplicateKey
    );
    assert_eq!(db.users.len(), 4);
    assert_eq!(db.users[3], user(4, 80, vec![]));
    assert_eq!(
        db.execute(&StoreRequest::InsertProductVariant {
            product_variant: ProductVariant { _id: id(12) }
        }),
        StoreReply::Written
    );
    assert_eq!(
        db.execute(&StoreRequest::InsertProductVariant {
            product_variant: ProductVariant { _id: id(10) }
        }),
        StoreReply::DuplicateKey
    );
    assert_eq!(
        db.product_variants,
        vec![ProductVariant { _id: id(10) }, ProductVariant { _id: id(11) }, ProductVariant { _id: id(12) }]
    );
}

#[test]
fn writes_change_one_document_and_set_its_time() {
    let mut db = store();
    assert_eq!(
        db.execute(&StoreRequest::PushShoppingCartItem {
            user_id: id(3),
            shoppingcart_item: item(300, 1, 11),
            last_updated_at: at(800),
        }),
        StoreReply::Written
    );
    assert_eq!(db.users[2], user(3, 800, vec![item(300, 1, 11)]));
    assert_eq!(
        db.execute(&StoreRequest::SetShoppingCartItems {
            user_id: id(2),
            shoppingcart_items: vec![item(201, 1, 11), item(202, 1, 11)],
            last_updated_at: at(900),
        }),
        StoreReply::Written
    );
    assert_eq!(db.users[1], user(2, 900, vec![item(201, 1, 11), item(202, 1, 11)]));
    assert_eq!(
        db.execute(&StoreRequest::SetShoppingCartItemCount {
            id: id(102),
            count: 0,
            last_updated_at: at(910),
        }),
        StoreReply::Written
    );
    assert_eq!(db.users[0], user(1, 910, vec![item(100, 1, 10), item(101, 2, 11), item(102, 0, 10)]));
    assert_eq!(
        db.execute(&StoreRequest::PullShoppingCartItem { id: id(100), last_updated_at: at(920) }),
        StoreReply::Written
    );
    assert_eq!(db.users[0], user(1, 920, vec![item(101, 2, 11), item(102, 0, 10)]));
    assert_eq!(
        db.execute(&StoreRequest::PullShoppingCartItems {
            user_id: id(1),
            ids: vec![id(102), id(555), id(201)],
            last_updated_at: at(930),
        }),
        StoreReply::Written
    );
    assert_eq!(db.users[0], user(1, 930, vec![item(101, 2, 11)]));
    assert_eq!(db.users[1], user(2, 900, vec![item(201, 1, 11), item(202, 1, 11)]));
    assert_eq!(db.users[2], user(3, 800, vec![item(300, 1, 11)]));
}

#[test]
fn writes_that_match_nothing_are_acknowledged() {
    let mut db = store();
    assert_eq!(
        db.execute(&StoreRequest::PushShoppingCartItem {
            user_id: id(9),
            shoppingcart_item: item(300, 1, 11),
            last_updated_at: at(800),
        }),
        StoreReply::Written
    );
    assert_eq!(
        db.execute(&StoreRequest::SetShoppingCartItemCount {
            id: id(999),
            count: 3,
            last_updated_at: at(800),
        }),
        StoreReply::Written
    );
    assert_eq!(
        db.execute(&StoreRequest::PullShoppingCartItem { id: id(999), last_updated_at: at(800) }),
        StoreReply::Written
    );
    assert_eq!(
        db.execute(&StoreRequest::PullShoppingCartItems {
            user_id: id(9),
            ids: vec![id(100)],
            last_updated_at: at(800),
        }),
        StoreReply::Written
    );
    assert_eq!(
        db.execute(&StoreRequest::SetShoppingCartItems {
            user_id: id(9),
            shoppingcart_items: vec![],
            last_updated_at: at(1)
        }),
        StoreReply::Written
    );
    assert_eq!(db, store());
}

#[test]
fn pull_of_absent_items_from_stored_user_changes_nothing() {
    let mut db = store();
    assert_eq!(
        db.execute(&StoreRequest::PullShoppingCartItems {
            user_id: id(2),
            ids: vec![id(100)],
            last_updated_at: at(800),
        }),
        StoreReply::Written
    );
    assert_eq!(
        db.execute(&StoreRequest::PullShoppingCartItems {
            user_id: id(3),
            ids: vec![],
            last_updated_at: at(800),
        }),
        StoreReply::Written
    );
    assert_eq!(db, store());
}

#[test]
fn searches_return_first_match_or_length() {
    let items = vec![item(100, 1, 10), item(101, 2, 11), item(102, 3, 10)];
    assert_eq!(index_of_item(&items, id(101)), 1);
    assert_eq!(index_of_item(&items, id(7)), 3);
    assert_eq!(index_of_item_of_variant(&items, id(10)), 0);
    assert_eq!(index_of_item_of_variant(&items, id(11)), 1);
    assert_eq!(index_of_item_of_variant(&items, id(12)), 3);
    assert_eq!(index_of_item_among(&items, &vec![id(7), id(102), id(101)]), 1);
    assert_eq!(index_of_item_among(&items, &vec![id(7)]), 3);
    assert_eq!(index_of_item_among(&items, &vec![]), 3);
    let variants = vec![ProductVariant { _id: id(10) }, ProductVariant { _id: id(11) }];
    assert_eq!(index_of_variant(&variants, id(11)), 1);
    assert_eq!(index_of_variant(&variants, id(12)), 2);
    assert!(contains_id(&vec![id(1), id(2)], id(2)));
    assert!(!contains_id(&vec![id(1), id(2)], id(3)));
    assert!(!contains_id(&vec![], id(3)));
}
