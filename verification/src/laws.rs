//! What holds of the service as a whole, stated over the contents of the
//! store before and after its operations.

use vstd::prelude::*;
use crate::authorization::is_authorized;
use crate::error::CartError;
use crate::http_event_service::{
    new_user,
    order_created_topic,
    order_event_applied,
    product_variant_created_topic,
    topic_event_applied,
    user_created_topic,
    TopicEventResponse,
};
use crate::ids::{Timestamp, Uuid};
use crate::mutation::{
    cart_replaced,
    item_count_updated,
    item_created,
    item_deleted,
    refers_to_none_of,
    CreateShoppingCartItem,
    DeleteShoppingCartItem,
    UpdateShoppingCart,
    UpdateShoppingCartItem,
};
use crate::mutation_input_structs::UpdateShoppingCartItemInput;
use crate::query::user_in;
use crate::sequences::{
    find_first,
    first_index,
    lemma_filter_membership,
    lemma_filter_of_all,
    lemma_filter_of_none,
    lemma_filter_of_one,
    lemma_first_index,
    lemma_first_index_is,
};
use crate::shoppingcart::{distinct_item_ids, ShoppingCartView};
use crate::shoppingcart_item::{ProductVariant, ShoppingCartItem};
use crate::store::{
    cart_replaced_by,
    item_pushed,
    with_count,
    item_has_id,
    item_has_other_id,
    item_among,
    item_not_among,
    item_of_variant,
    lemma_apply_keeps_wf,
    lemma_find_after_update,
    user_has_id,
    user_holds_any,
    user_holds_item,
    user_holds_variant,
    variant_has_id,
    with_cart,
    DatabaseView,
    Operation,
    StepView,
    StoreReplyView,
    StoreRequestView,
};

verus! {

/// The items in the cart of user `user_id`; none if the user is not
/// stored.
pub open spec fn items_of(database: DatabaseView, user_id: Uuid) -> Seq<ShoppingCartItem> {
    match database.user(user_id) {
        Some(user) => user.shoppingcart.items,
        None => Seq::empty(),
    }
}

/// How many items of the sequence refer to the product variant.
pub open spec fn count_of_variant(items: Seq<ShoppingCartItem>, product_variant_id: Uuid) -> nat {
    items.filter(item_of_variant(product_variant_id)).len()
}

/// Idempotent item creation: when adding an item of a product variant to a
/// cart has succeeded, adding one of the same variant again returns the
/// same item, identity included, and leaves the store as the first call
/// left it. If the cart held at most one item of the variant before, it
/// holds exactly one afterwards.
pub proof fn law_create_is_idempotent(
    database: DatabaseView,
    caller: Option<Uuid>,
    user_id: Uuid,
    first: ShoppingCartItem,
    second: ShoppingCartItem,
)
    requires
        database.wf(),
        first.product_variant == second.product_variant,
        item_created(database, caller, user_id, first).1 is Ok,
    ensures
        item_created(item_created(database, caller, user_id, first).0, caller, user_id, second)
            == item_created(database, caller, user_id, first),
        count_of_variant(items_of(database, user_id), first.product_variant._id) <= 1
            ==> count_of_variant(
            items_of(item_created(database, caller, user_id, first).0, user_id),
            first.product_variant._id,
        ) == 1,
{
    let variant = first.product_variant._id;
    let holds = user_holds_variant(variant, user_id);
    let of_variant = item_of_variant(variant);
    let after = item_created(database, caller, user_id, first).0;
    lemma_first_index(database.users, holds);
    lemma_first_index(database.users, user_has_id(user_id));
    if find_first(database.users, holds) is Some {
        // The item was there, so nothing was written. The user that holds it
        // is the only user with the identity.
        let h = first_index(database.users, holds);
        let u = first_index(database.users, user_has_id(user_id));
        assert(holds(database.users[h]));
        assert(user_has_id(user_id)(database.users[h]));
        assert(u == h) by {
            if u < h {
                assert(database.users[u]._id != database.users[h]._id);
            }
        }
        let items = items_of(database, user_id);
        lemma_first_index(items, of_variant);
        items.lemma_filter_contains(of_variant, first_index(items, of_variant));
    } else {
        let u = first_index(database.users, user_has_id(user_id));
        let user = database.users[u];
        let items = user.shoppingcart.items;
        assert(!holds(user));
        assert(first_index(items, of_variant) >= items.len());
        lemma_first_index(items, of_variant);
        let grown = items.push(first);
        assert(after.users == database.users.update(u, with_cart(user, grown, first.added_at)));
        assert(of_variant(first));
        assert forall|k: int| 0 <= k < items.len() implies !of_variant(#[trigger] grown[k]) by {
            assert(grown[k] == items[k]);
        }
        lemma_first_index_is(grown, of_variant, items.len() as int);
        assert(holds(after.users[u]));
        assert forall|k: int| 0 <= k < u implies !holds(#[trigger] after.users[k]) by {
            assert(after.users[k] == database.users[k]);
        }
        lemma_first_index_is(after.users, holds, u);
        assert forall|k: int| 0 <= k < u implies !user_has_id(user_id)(
            #[trigger] after.users[k],
        ) by {
            assert(after.users[k] == database.users[k]);
        }
        lemma_first_index_is(after.users, user_has_id(user_id), u);
        assert(items_of(after, user_id) == grown);
        assert(count_of_variant(grown, variant) == 1) by {
            reveal(Seq::filter);
            lemma_filter_of_none(items, of_variant);
            assert(grown.drop_last() =~= items);
        }
    }
}


/// Idempotent delivery of user creation: after the event for the user `id`
/// was delivered, exactly one user `id` is stored, and a second delivery,
/// whenever it comes, is acknowledged and changes nothing.
pub proof fn law_user_created_is_idempotent(
    database: DatabaseView,
    id: Uuid,
    first_at: Timestamp,
    second_at: Timestamp,
)
    requires
        database.wf(),
    ensures
        ({
            let delivered = topic_event_applied(database, user_created_topic(), id, first_at);
            let again = topic_event_applied(delivered.0, user_created_topic(), id, second_at);
            &&& delivered.1 == Ok::<TopicEventResponse, CartError>(TopicEventResponse { status: 0 })
            &&& again.1 == delivered.1
            &&& again.0 == delivered.0
            &&& delivered.0.wf()
            &&& delivered.0.users.filter(user_has_id(id)).len() == 1
            &&& delivered.0.product_variants == database.product_variants
            &&& database.user(id) is Some ==> delivered.0 == database
            &&& database.user(id) is None ==> delivered.0.users == database.users.push(
                new_user(id, first_at),
            )
        }),
{
    reveal_strlit("catalog/product-variant/created");
    reveal_strlit("user/user/created");
    assert(user_created_topic().len() != product_variant_created_topic().len());
    let first = StoreRequestView::InsertUser { user: new_user(id, first_at) };
    let delivered = database.apply(first).0;
    lemma_apply_keeps_wf(database, first);
    lemma_first_index(database.users, user_has_id(id));
    if database.user(id) is None {
        assert(delivered.users == database.users.push(new_user(id, first_at)));
        assert forall|k: int| 0 <= k < database.users.len() implies !user_has_id(id)(
            #[trigger] delivered.users[k],
        ) by {
            assert(delivered.users[k] == database.users[k]);
        }
        lemma_first_index_is(delivered.users, user_has_id(id), database.users.len() as int);
    }
    lemma_first_index(delivered.users, user_has_id(id));
    assert forall|i: int, j: int| 0 <= i < j < delivered.users.len() implies !(user_has_id(id)(
        delivered.users[i],
    ) && user_has_id(id)(delivered.users[j])) by {
        assert(delivered.users[i]._id != delivered.users[j]._id);
    }
    lemma_filter_of_one(delivered.users, user_has_id(id));
}

/// Idempotent delivery of product variant creation: after the event for
/// the product variant `id` was delivered, exactly one stub of it is
/// stored, and a second delivery is acknowledged and changes nothing.
pub proof fn law_product_variant_created_is_idempotent(
    database: DatabaseView,
    id: Uuid,
    first_at: Timestamp,
    second_at: Timestamp,
)
    requires
        database.wf(),
    ensures
        ({
            let delivered = topic_event_applied(
                database,
                product_variant_created_topic(),
                id,
                first_at,
            );
            let again = topic_event_applied(
                delivered.0,
                product_variant_created_topic(),
                id,
                second_at,
            );
            &&& delivered.1 == Ok::<TopicEventResponse, CartError>(TopicEventResponse { status: 0 })
            &&& again.1 == delivered.1
            &&& again.0 == delivered.0
            &&& delivered.0.wf()
            &&& delivered.0.product_variants.filter(variant_has_id(id)) == seq![
                ProductVariant { _id: id },
            ]
            &&& delivered.0.users == database.users
        }),
{
    let first = StoreRequestView::InsertProductVariant {
        product_variant: ProductVariant { _id: id },
    };
    let delivered = database.apply(first).0;
    lemma_apply_keeps_wf(database, first);
    lemma_first_index(database.product_variants, variant_has_id(id));
    if !database.knows_variant(id) {
        assert forall|k: int| 0 <= k < database.product_variants.len() implies !variant_has_id(id)(
            #[trigger] delivered.product_variants[k],
        ) by {
            assert(delivered.product_variants[k] == database.product_variants[k]);
        }
        lemma_first_index_is(
            delivered.product_variants,
            variant_has_id(id),
            database.product_variants.len() as int,
        );
    }
    lemma_first_index(delivered.product_variants, variant_has_id(id));
    assert forall|i: int, j: int|
        0 <= i < j < delivered.product_variants.len() implies !(variant_has_id(id)(
        delivered.product_variants[i],
    ) && variant_has_id(id)(delivered.product_variants[j])) by {
        assert(delivered.product_variants[i]._id != delivered.product_variants[j]._id);
    }
    lemma_filter_of_one(delivered.product_variants, variant_has_id(id));
}

/// After every item whose identity is among `ids` has been removed from a
/// cart, the cart holds no such item.
pub proof fn lemma_pulled_items_are_gone(items: Seq<ShoppingCartItem>, ids: Seq<Uuid>)
    ensures
        first_index(items.filter(item_not_among(ids)), item_among(ids)) == items.filter(
            item_not_among(ids),
        ).len(),
{
    let kept = items.filter(item_not_among(ids));
    assert forall|k: int| 0 <= k < kept.len() implies !item_among(ids)(#[trigger] kept[k]) by {
        items.lemma_filter_pred(item_not_among(ids), k);
    }
    lemma_first_index_is(kept, item_among(ids), kept.len() as int);
}

/// Order removal is a set subtraction: after an order event for the user
/// `user_id`, the cart of that user holds exactly the items it held whose
/// identities the order does not list, in their order; every other user is
/// as before. If an item was removed, the cart was last updated when the
/// event was received; if none was, the store is as it was. A second
/// delivery of the event, whenever it comes, is acknowledged and changes
/// nothing.
pub proof fn law_order_removes_ordered_items(
    database: DatabaseView,
    user_id: Uuid,
    ids: Seq<Uuid>,
    first_at: Timestamp,
    second_at: Timestamp,
)
    requires
        database.wf(),
    ensures
        ({
            let delivered = order_event_applied(
                database,
                order_created_topic(),
                user_id,
                ids,
                first_at,
            );
            let again = order_event_applied(
                delivered.0,
                order_created_topic(),
                user_id,
                ids,
                second_at,
            );
            let removes = first_index(items_of(database, user_id), item_among(ids)) < items_of(
                database,
                user_id,
            ).len();
            &&& delivered.1 == Ok::<TopicEventResponse, CartError>(TopicEventResponse { status: 0 })
            &&& again == delivered
            &&& items_of(delivered.0, user_id) == items_of(database, user_id).filter(
                item_not_among(ids),
            )
            &&& forall|item: ShoppingCartItem|
                #[trigger] items_of(delivered.0, user_id).contains(item) <==> items_of(
                    database,
                    user_id,
                ).contains(item) && !ids.contains(item._id)
            &&& removes ==> cart_of(delivered.0, user_id) == Some(
                ShoppingCartView {
                    last_updated_at: first_at,
                    items: items_of(database, user_id).filter(item_not_among(ids)),
                },
            )
            &&& !removes ==> delivered.0 == database
            &&& delivered.0.product_variants == database.product_variants
            &&& delivered.0.users.len() == database.users.len()
            &&& forall|k: int|
                0 <= k < database.users.len() && k != first_index(
                    database.users,
                    user_has_id(user_id),
                ) ==> #[trigger] delivered.0.users[k] == database.users[k]
        }),
{
    let delivered = order_event_applied(
        database,
        order_created_topic(),
        user_id,
        ids,
        first_at,
    ).0;
    let again = order_event_applied(delivered, order_created_topic(), user_id, ids, second_at).0;
    let kept = item_not_among(ids);
    let holds = user_holds_any(user_id, ids);
    lemma_first_index(database.users, user_has_id(user_id));
    lemma_first_index(database.users, holds);
    let p = first_index(database.users, user_has_id(user_id));
    let q = first_index(database.users, holds);
    let before = items_of(database, user_id);
    lemma_first_index(before, item_among(ids));
    if q < database.users.len() {
        // The user that holds a listed item is the only user with the identity.
        assert(holds(database.users[q]));
        assert(q == p) by {
            if p < q {
                assert(database.users[p]._id != database.users[q]._id);
            }
        }
        lemma_pulled_items_are_gone(before, ids);
        assert forall|k: int| 0 <= k < p implies !user_has_id(user_id)(
            #[trigger] delivered.users[k],
        ) by {
            assert(delivered.users[k] == database.users[k]);
        }
        lemma_first_index_is(delivered.users, user_has_id(user_id), p);
        assert forall|k: int| 0 <= k < delivered.users.len() implies !holds(
            #[trigger] delivered.users[k],
        ) by {
            if k != p {
                assert(delivered.users[k] == database.users[k]);
                if k < p {
                    assert(database.users[k]._id != database.users[p]._id);
                } else {
                    assert(database.users[p]._id != database.users[k]._id);
                }
            }
        }
        lemma_first_index_is(delivered.users, holds, delivered.users.len() as int);
    } else {
        assert(delivered == database);
        if p < database.users.len() {
            assert(!holds(database.users[p]));
            lemma_filter_of_all(before, kept);
        } else {
            lemma_filter_of_none(Seq::<ShoppingCartItem>::empty(), kept);
        }
    }
    assert forall|item: ShoppingCartItem|
        #[trigger] items_of(delivered, user_id).contains(item) <==> before.contains(item)
            && !ids.contains(item._id) by {
        lemma_filter_membership(before, kept, item);
    }
}

/// An order event that lists none of the items in the cart of the user,
/// be it that they were removed already, were never added, or that the
/// user is not stored, changes nothing and is acknowledged.
pub proof fn law_order_of_absent_items_changes_nothing(
    database: DatabaseView,
    user_id: Uuid,
    ids: Seq<Uuid>,
    received_at: Timestamp,
)
    requires
        database.wf(),
        forall|k: int|
            0 <= k < items_of(database, user_id).len() ==> !ids.contains(
                (#[trigger] items_of(database, user_id)[k])._id,
            ),
    ensures
        order_event_applied(database, order_created_topic(), user_id, ids, received_at) == (
            database,
            Ok::<TopicEventResponse, CartError>(TopicEventResponse { status: 0 }),
        ),
{
    let holds = user_holds_any(user_id, ids);
    lemma_first_index(database.users, user_has_id(user_id));
    lemma_first_index(database.users, holds);
    let p = first_index(database.users, user_has_id(user_id));
    let q = first_index(database.users, holds);
    if q < database.users.len() {
        assert(holds(database.users[q]));
        assert(q == p) by {
            if p < q {
                assert(database.users[p]._id != database.users[q]._id);
            }
        }
        let items = items_of(database, user_id);
        lemma_first_index(items, item_among(ids));
        assert(item_among(ids)(items[first_index(items, item_among(ids))]));
    }
}

/// Creation events commute: a user creation and a product variant
/// creation leave the same store in either order of delivery.
pub proof fn law_creation_events_commute(
    database: DatabaseView,
    user_id: Uuid,
    product_variant_id: Uuid,
    user_at: Timestamp,
    product_variant_at: Timestamp,
)
    ensures
        topic_event_applied(
            topic_event_applied(database, user_created_topic(), user_id, user_at).0,
            product_variant_created_topic(),
            product_variant_id,
            product_variant_at,
        ).0 == topic_event_applied(
            topic_event_applied(
                database,
                product_variant_created_topic(),
                product_variant_id,
                product_variant_at,
            ).0,
            user_created_topic(),
            user_id,
            user_at,
        ).0,
{
    reveal_strlit("catalog/product-variant/created");
    reveal_strlit("user/user/created");
    assert(user_created_topic().len() != product_variant_created_topic().len());
}

/// A product variant is among the stored ones exactly when a lookup by its
/// identity finds one.
pub proof fn lemma_stored_variant(database: DatabaseView, product_variant: ProductVariant)
    ensures
        database.product_variants.contains(product_variant) <==> database.knows_variant(
            product_variant._id,
        ),
{
    let pred = variant_has_id(product_variant._id);
    lemma_first_index(database.product_variants, pred);
    if database.product_variants.contains(product_variant) {
        let i = choose|i: int|
            0 <= i < database.product_variants.len() && database.product_variants[i]
                == product_variant;
        assert(pred(database.product_variants[i]));
    }
    if database.knows_variant(product_variant._id) {
        let p = first_index(database.product_variants, pred);
        assert(database.product_variants[p] == product_variant);
    }
}

/// Replace-items atomicity: a replacement that fails leaves the store as
/// it was. It fails, naming a product variant that is not stored, whenever
/// one of the new items refers to such a variant, however many of the
/// others refer to stored ones.
pub proof fn law_replace_is_atomic(
    database: DatabaseView,
    caller: Option<Uuid>,
    id: Uuid,
    shoppingcart_items: Seq<ShoppingCartItem>,
    last_updated_at: Timestamp,
    invalid: int,
)
    ensures
        cart_replaced(database, caller, id, Some(shoppingcart_items), last_updated_at).1 is Err
            ==> cart_replaced(database, caller, id, Some(shoppingcart_items), last_updated_at).0
            == database,
        is_authorized(caller, id) && 0 <= invalid < shoppingcart_items.len()
            && !database.knows_variant(shoppingcart_items[invalid].product_variant._id) ==> ({
            let replaced = cart_replaced(
                database,
                caller,
                id,
                Some(shoppingcart_items),
                last_updated_at,
            );
            &&& replaced.0 == database
            &&& replaced.1 matches Err(CartError::ProductVariantNotPresent { id: missing })
            &&& !database.knows_variant(missing)
        }),
{
    let pred = refers_to_none_of(database.product_variants);
    lemma_first_index(shoppingcart_items, pred);
    let missing = first_index(shoppingcart_items, pred);
    if missing < shoppingcart_items.len() {
        lemma_stored_variant(database, shoppingcart_items[missing].product_variant);
    }
    if 0 <= invalid < shoppingcart_items.len() && !database.knows_variant(
        shoppingcart_items[invalid].product_variant._id,
    ) {
        lemma_stored_variant(database, shoppingcart_items[invalid].product_variant);
        assert(pred(shoppingcart_items[invalid]));
    }
}

/// Authorization gate: a mutation of a cart that is invoked by anyone but
/// the owner of the cart, or by no authenticated caller, fails as
/// unauthorized and leaves the store as it was. For adding an item and
/// replacing the items the owner is the user named in the input; for
/// changing and deleting an item it is the user whose cart holds the item.
pub proof fn law_authorization_gate(
    database: DatabaseView,
    caller: Option<Uuid>,
    user_id: Uuid,
    shoppingcart_item: ShoppingCartItem,
    shoppingcart_items: Option<Seq<ShoppingCartItem>>,
    last_updated_at: Timestamp,
    id: Uuid,
    count: u32,
)
    ensures
        caller != Some(user_id) ==> item_created(database, caller, user_id, shoppingcart_item) == (
            database,
            Err::<ShoppingCartItem, CartError>(CartError::Unauthorized { owner: user_id }),
        ),
        caller != Some(user_id) ==> cart_replaced(
            database,
            caller,
            user_id,
            shoppingcart_items,
            last_updated_at,
        ).0 == database && cart_replaced(
            database,
            caller,
            user_id,
            shoppingcart_items,
            last_updated_at,
        ).1 == Err::<ShoppingCartView, CartError>(
            CartError::Unauthorized { owner: user_id },
        ),
        database.item(id) matches Some((owner, _)) ==> (caller != Some(owner)
            ==> item_count_updated(database, caller, id, count, last_updated_at) == (
            database,
            Err::<ShoppingCartItem, CartError>(CartError::Unauthorized { owner }),
        ) && item_deleted(database, caller, id, last_updated_at) == (
            database,
            Err::<bool, CartError>(CartError::Unauthorized { owner }),
        )),
{
}


/// The cart of the user `user_id`, if the user is stored.
pub open spec fn cart_of(database: DatabaseView, user_id: Uuid) -> Option<ShoppingCartView> {
    match database.user(user_id) {
        Some(user) => Some(user.shoppingcart),
        None => None,
    }
}

/// The user whose cart holds the item `id` is found by its own identity
/// too, in a store whose user identities are unique.
pub proof fn lemma_holder_is_found_by_identity(database: DatabaseView, id: Uuid)
    requires
        database.wf(),
        database.item(id) is Some,
    ensures
        first_index(database.users, user_holds_item(id)) < database.users.len(),
        first_index(
            database.users,
            user_has_id(database.users[first_index(database.users, user_holds_item(id))]._id),
        ) == first_index(database.users, user_holds_item(id)),
{
    lemma_first_index(database.users, user_holds_item(id));
    let p = first_index(database.users, user_holds_item(id));
    let owner = database.users[p]._id;
    assert forall|k: int| 0 <= k < p implies !user_has_id(owner)(#[trigger] database.users[k]) by {
        assert(database.users[k]._id != database.users[p]._id);
    }
    lemma_first_index_is(database.users, user_has_id(owner), p);
}

/// Every mutation that changes the items of a cart sets the time of the
/// last update of that cart: to the time at which the item was added when
/// an item is added, and to the time of the call when the items are
/// replaced, a count is changed or an item is deleted. What the cart then
/// holds is stated with it.
pub proof fn law_item_writes_set_last_updated_at(
    database: DatabaseView,
    caller: Option<Uuid>,
    user_id: Uuid,
    shoppingcart_item: ShoppingCartItem,
    shoppingcart_items: Seq<ShoppingCartItem>,
    id: Uuid,
    count: u32,
    last_updated_at: Timestamp,
)
    requires
        database.wf(),
    ensures
        item_created(database, caller, user_id, shoppingcart_item).1 is Ok && find_first(
            database.users,
            user_holds_variant(shoppingcart_item.product_variant._id, user_id),
        ) is None ==> cart_of(
            item_created(database, caller, user_id, shoppingcart_item).0,
            user_id,
        ) == Some(
            ShoppingCartView {
                last_updated_at: shoppingcart_item.added_at,
                items: items_of(database, user_id).push(shoppingcart_item),
            },
        ),
        cart_replaced(database, caller, user_id, Some(shoppingcart_items), last_updated_at).1
            is Ok ==> cart_of(
            cart_replaced(database, caller, user_id, Some(shoppingcart_items), last_updated_at).0,
            user_id,
        ) == Some(ShoppingCartView { last_updated_at, items: shoppingcart_items }),
        database.item(id) matches Some((owner, _)) ==> (item_count_updated(
            database,
            caller,
            id,
            count,
            last_updated_at,
        ).1 is Ok ==> cart_of(
            item_count_updated(database, caller, id, count, last_updated_at).0,
            owner,
        ) == Some(
            ShoppingCartView {
                last_updated_at,
                items: items_of(database, owner).update(
                    first_index(items_of(database, owner), item_has_id(id)),
                    with_count(
                        items_of(database, owner)[first_index(
                            items_of(database, owner),
                            item_has_id(id),
                        )],
                        count,
                    ),
                ),
            },
        )),
        database.item(id) matches Some((owner, _)) ==> (item_deleted(
            database,
            caller,
            id,
            last_updated_at,
        ).1 is Ok ==> cart_of(item_deleted(database, caller, id, last_updated_at).0, owner)
            == Some(
            ShoppingCartView {
                last_updated_at,
                items: items_of(database, owner).filter(item_has_other_id(id)),
            },
        )),
{
    lemma_first_index(database.users, user_has_id(user_id));
    lemma_find_after_update(
        database.users,
        user_id,
        item_pushed(shoppingcart_item, shoppingcart_item.added_at),
    );
    lemma_find_after_update(
        database.users,
        user_id,
        cart_replaced_by(shoppingcart_items, last_updated_at),
    );
    if database.item(id) is Some {
        lemma_holder_is_found_by_identity(database, id);
        lemma_first_index(database.users, user_holds_item(id));
        let p = first_index(database.users, user_holds_item(id));
        let owner = database.users[p]._id;
        let counted = item_count_updated(database, caller, id, count, last_updated_at).0;
        if item_count_updated(database, caller, id, count, last_updated_at).1 is Ok {
            assert forall|k: int| 0 <= k < p implies !user_has_id(owner)(
                #[trigger] counted.users[k],
            ) by {
                assert(counted.users[k] == database.users[k]);
                assert(database.users[k]._id != database.users[p]._id);
            }
            assert(counted.users[p]._id == owner);
            lemma_first_index_is(counted.users, user_has_id(owner), p);
        }
        let deleted = item_deleted(database, caller, id, last_updated_at).0;
        if item_deleted(database, caller, id, last_updated_at).1 is Ok {
            assert forall|k: int| 0 <= k < p implies !user_has_id(owner)(
                #[trigger] deleted.users[k],
            ) by {
                assert(deleted.users[k] == database.users[k]);
                assert(database.users[k]._id != database.users[p]._id);
            }
            assert(deleted.users[p]._id == owner);
            lemma_first_index_is(deleted.users, user_has_id(owner), p);
        }
    }
}

/// After every item `id` has been removed from a cart, the cart holds no
/// item `id`.
pub proof fn lemma_pulled_item_is_gone(items: Seq<ShoppingCartItem>, id: Uuid)
    ensures
        first_index(items.filter(item_has_other_id(id)), item_has_id(id)) == items.filter(
            item_has_other_id(id),
        ).len(),
{
    let kept = items.filter(item_has_other_id(id));
    assert forall|k: int| 0 <= k < kept.len() implies !item_has_id(id)(#[trigger] kept[k]) by {
        items.lemma_filter_pred(item_has_other_id(id), k);
    }
    lemma_first_index_is(kept, item_has_id(id), kept.len() as int);
}

/// Idempotent delete: deleting an item that no cart holds returns true and
/// changes nothing, whoever calls. So a delete that follows a successful
/// delete of the same item returns true again and leaves the store as the
/// first left it, provided the item was in one cart only.
pub proof fn law_delete_is_idempotent(
    database: DatabaseView,
    caller: Option<Uuid>,
    id: Uuid,
    first_at: Timestamp,
    second_at: Timestamp,
)
    requires
        forall|k: int|
            0 <= k < database.users.len() && k != first_index(
                database.users,
                user_holds_item(id),
            ) ==> !user_holds_item(id)(#[trigger] database.users[k]),
    ensures
        database.item(id) is None ==> item_deleted(database, caller, id, first_at) == (
            database,
            Ok::<bool, CartError>(true),
        ),
        item_deleted(database, caller, id, first_at).1 is Ok ==> item_deleted(
            database,
            caller,
            id,
            first_at,
        ).0.item(id) is None && item_deleted(
            item_deleted(database, caller, id, first_at).0,
            caller,
            id,
            second_at,
        ) == (item_deleted(database, caller, id, first_at).0, Ok::<bool, CartError>(true)),
{
    lemma_first_index(database.users, user_holds_item(id));
    let p = first_index(database.users, user_holds_item(id));
    let deleted = item_deleted(database, caller, id, first_at).0;
    if item_deleted(database, caller, id, first_at).1 is Ok {
        if p < database.users.len() {
            lemma_pulled_item_is_gone(database.users[p].shoppingcart.items, id);
        }
        assert forall|k: int| 0 <= k < deleted.users.len() implies !user_holds_item(id)(
            #[trigger] deleted.users[k],
        ) by {
            if k != p {
                assert(deleted.users[k] == database.users[k]);
            }
        }
        lemma_first_index_is(deleted.users, user_holds_item(id), deleted.users.len() as int);
    }
}

/// Every cart of the store is well formed: no two of its items share an
/// identity.
pub open spec fn carts_well_formed(database: DatabaseView) -> bool {
    forall|k: int|
        0 <= k < database.users.len() ==> distinct_item_ids(
            (#[trigger] database.users[k]).shoppingcart.items,
        )
}

/// The request brings no identity into a cart that the cart holds
/// already: items that are put into a cart together have distinct
/// identities, and an item that is appended has an identity new to the
/// cart.
pub open spec fn brings_fresh_identities(
    database: DatabaseView,
    request: StoreRequestView,
) -> bool {
    match request {
        StoreRequestView::InsertUser { user } => distinct_item_ids(user.shoppingcart.items),
        StoreRequestView::SetShoppingCartItems { shoppingcart_items, .. } => distinct_item_ids(
            shoppingcart_items,
        ),
        StoreRequestView::PushShoppingCartItem { user_id, shoppingcart_item, .. } => first_index(
            items_of(database, user_id),
            item_has_id(shoppingcart_item._id),
        ) == items_of(database, user_id).len(),
        _ => true,
    }
}

/// Filtering keeps identities distinct.
pub proof fn lemma_filter_keeps_distinct(
    items: Seq<ShoppingCartItem>,
    pred: spec_fn(ShoppingCartItem) -> bool,
)
    requires
        distinct_item_ids(items),
    ensures
        distinct_item_ids(items.filter(pred)),
    decreases items.len(),
{
    reveal(Seq::filter);
    if items.len() > 0 {
        let front = items.drop_last();
        let last = items[items.len() - 1];
        assert forall|i: int, j: int| 0 <= i < j < front.len() implies (#[trigger] front[i])._id != (
        #[trigger] front[j])._id by {
            assert(front[i] == items[i] && front[j] == items[j]);
        }
        lemma_filter_keeps_distinct(front, pred);
        let kept = front.filter(pred);
        if pred(last) {
            let all = kept.push(last);
            assert forall|i: int, j: int| 0 <= i < j < all.len() implies (#[trigger] all[i])._id != (
            #[trigger] all[j])._id by {
                if j == kept.len() {
                    assert(all[i] == kept[i]);
                    assert(kept.contains(kept[i]));
                    front.lemma_filter_contains_rev(pred, kept[i]);
                    let m = choose|m: int| 0 <= m < front.len() && front[m] == kept[i];
                    assert(items[m] == front[m]);
                } else {
                    assert(all[i] == kept[i] && all[j] == kept[j]);
                }
            }
        }
    }
}

/// Carts stay well formed: a request that brings no identity into a cart
/// that the cart holds already leaves every cart without a repeated
/// identity. Setting a count and removing items never repeat one.
pub proof fn law_fresh_identities_keep_carts_well_formed(
    database: DatabaseView,
    request: StoreRequestView,
)
    requires
        carts_well_formed(database),
        brings_fresh_identities(database, request),
    ensures
        carts_well_formed(database.apply(request).0),
{
    let after = database.apply(request).0;
    assert forall|k: int| 0 <= k < after.users.len() implies distinct_item_ids(
        (#[trigger] after.users[k]).shoppingcart.items,
    ) by {
        match request {
            StoreRequestView::InsertUser { user } => {
                if k < database.users.len() {
                    assert(after.users[k] == database.users[k]);
                }
            },
            StoreRequestView::SetShoppingCartItems { user_id, .. } => {
                lemma_first_index(database.users, user_has_id(user_id));
                if k != first_index(database.users, user_has_id(user_id)) {
                    assert(after.users[k] == database.users[k]);
                }
            },
            StoreRequestView::PushShoppingCartItem { user_id, shoppingcart_item, .. } => {
                lemma_first_index(database.users, user_has_id(user_id));
                let p = first_index(database.users, user_has_id(user_id));
                if k != p {
                    assert(after.users[k] == database.users[k]);
                } else {
                    let items = database.users[p].shoppingcart.items;
                    assert(items == items_of(database, user_id));
                    lemma_first_index(items, item_has_id(shoppingcart_item._id));
                    let grown = items.push(shoppingcart_item);
                    assert forall|i: int, j: int| 0 <= i < j < grown.len() implies (
                    #[trigger] grown[i])._id != (#[trigger] grown[j])._id by {
                        if j == items.len() {
                            assert(!item_has_id(shoppingcart_item._id)(items[i]));
                        } else {
                            assert(grown[i] == items[i] && grown[j] == items[j]);
                        }
                    }
                }
            },
            StoreRequestView::SetShoppingCartItemCount { id, .. } => {
                lemma_first_index(database.users, user_holds_item(id));
                let p = first_index(database.users, user_holds_item(id));
                if k != p {
                    assert(after.users[k] == database.users[k]);
                } else {
                    let items = database.users[p].shoppingcart.items;
                    lemma_first_index(items, item_has_id(id));
                    let changed = after.users[k].shoppingcart.items;
                    assert forall|i: int, j: int| 0 <= i < j < changed.len() implies (
                    #[trigger] changed[i])._id != (#[trigger] changed[j])._id by {
                        assert(changed[i]._id == items[i]._id && changed[j]._id == items[j]._id);
                    }
                }
            },
            StoreRequestView::PullShoppingCartItem { id, .. } => {
                lemma_first_index(database.users, user_holds_item(id));
                let p = first_index(database.users, user_holds_item(id));
                if k != p {
                    assert(after.users[k] == database.users[k]);
                } else {
                    lemma_filter_keeps_distinct(
                        database.users[p].shoppingcart.items,
                        item_has_other_id(id),
                    );
                }
            },
            StoreRequestView::PullShoppingCartItems { user_id, ids, .. } => {
                lemma_first_index(database.users, user_holds_any(user_id, ids));
                let p = first_index(database.users, user_holds_any(user_id, ids));
                if k != p {
                    assert(after.users[k] == database.users[k]);
                } else {
                    lemma_filter_keeps_distinct(
                        database.users[p].shoppingcart.items,
                        item_not_among(ids),
                    );
                }
            },
            _ => {},
        }
    }
}

/// A cart holds no more than was put into it: apart from the replacement
/// of its items, no request makes a cart longer, except that the append of
/// an item makes one cart longer by that item.
pub proof fn law_carts_grow_by_appended_items_only(
    database: DatabaseView,
    request: StoreRequestView,
    k: int,
)
    requires
        0 <= k < database.users.len(),
        !(request is SetShoppingCartItems),
    ensures
        k < database.apply(request).0.users.len(),
        database.apply(request).0.users[k].shoppingcart.items.len()
            <= database.users[k].shoppingcart.items.len() + (if request is PushShoppingCartItem {
            1int
        } else {
            0int
        }),
{
    let items = database.users[k].shoppingcart.items;
    match request {
        StoreRequestView::PushShoppingCartItem { user_id, .. } => {
            lemma_first_index(database.users, user_has_id(user_id));
        },
        StoreRequestView::SetShoppingCartItemCount { id, .. } => {
            lemma_first_index(database.users, user_holds_item(id));
            lemma_first_index(items, item_has_id(id));
        },
        StoreRequestView::PullShoppingCartItem { id, .. } => {
            lemma_first_index(database.users, user_holds_item(id));
            items.lemma_filter_len(item_has_other_id(id));
        },
        StoreRequestView::PullShoppingCartItems { user_id, ids, .. } => {
            lemma_first_index(database.users, user_holds_any(user_id, ids));
            items.lemma_filter_len(item_not_among(ids));
        },
        _ => {},
    }
}

/// Every write is an update of one document: a request changes at most
/// one user document, the first that its filter matches, or inserts one
/// document; it never changes the identity of a user, and it leaves the
/// product variants alone unless it inserts one.
pub proof fn law_write_touches_one_document(database: DatabaseView, request: StoreRequestView)
    ensures
        ({
            let after = database.apply(request).0;
            &&& request.is_read() ==> after == database
            &&& !(request is InsertProductVariant) ==> after.product_variants
                == database.product_variants
            &&& request is InsertProductVariant ==> after.users == database.users
            &&& request is InsertUser ==> after.users == database.users || after.users
                == database.users.push(request->InsertUser_user)
            &&& !(request is InsertUser) ==> {
                &&& after.users.len() == database.users.len()
                &&& forall|k: int|
                    0 <= k < database.users.len() ==> (#[trigger] after.users[k])._id
                        == database.users[k]._id
                &&& forall|i: int, j: int|
                    0 <= i < j < database.users.len() ==> #[trigger] after.users[i]
                        == database.users[i] || #[trigger] after.users[j] == database.users[j]
            }
        }),
{
    match request {
        StoreRequestView::SetShoppingCartItems { user_id, .. } => {
            lemma_first_index(database.users, user_has_id(user_id));
        },
        StoreRequestView::PushShoppingCartItem { user_id, .. } => {
            lemma_first_index(database.users, user_has_id(user_id));
        },
        StoreRequestView::SetShoppingCartItemCount { id, .. } => {
            lemma_first_index(database.users, user_holds_item(id));
        },
        StoreRequestView::PullShoppingCartItem { id, .. } => {
            lemma_first_index(database.users, user_holds_item(id));
        },
        StoreRequestView::PullShoppingCartItems { user_id, ids, .. } => {
            lemma_first_index(database.users, user_holds_any(user_id, ids));
        },
        _ => {},
    }
}

/// Authorization is decided before any write, against every store: a
/// mutation started by anyone but the owner is done, as unauthorized, when
/// it starts if the input names the owner, and else as soon as the store
/// has told whose cart holds the item. Until then it has asked only for
/// that user.
pub proof fn law_gate_precedes_writes(
    caller: Option<Uuid>,
    user_id: Uuid,
    shoppingcart_item: ShoppingCartItem,
    shoppingcart_items: Option<Vec<ShoppingCartItem>>,
    last_updated_at: Timestamp,
    input: UpdateShoppingCartItemInput,
    reply: StoreReplyView,
)
    ensures
        caller != Some(user_id) ==> CreateShoppingCartItem::spec_start(
            caller,
            user_id,
            shoppingcart_item,
        ) == StepView::<CreateShoppingCartItem, ShoppingCartItem>::Done(
            Err(CartError::Unauthorized { owner: user_id }),
        ),
        caller != Some(user_id) ==> UpdateShoppingCart::spec_start(
            caller,
            user_id,
            shoppingcart_items,
            last_updated_at,
        ) == StepView::<UpdateShoppingCart, ShoppingCartView>::Done(
            Err(CartError::Unauthorized { owner: user_id }),
        ),
        UpdateShoppingCartItem::spec_start(caller, input, last_updated_at) matches StepView::Ask(
            request,
            _,
        ) && request.is_read(),
        DeleteShoppingCartItem::spec_start(caller, input.id, last_updated_at) matches StepView::Ask(
            request,
            _,
        ) && request.is_read(),
        user_in(reply) matches Some(owner) ==> (caller != Some(owner._id) ==> (
            UpdateShoppingCartItem::Locate { caller, input, last_updated_at }).spec_resume(reply)
            == StepView::<UpdateShoppingCartItem, ShoppingCartItem>::Done(
            Err(CartError::Unauthorized { owner: owner._id }),
        ) && (DeleteShoppingCartItem::Locate {
            caller,
            id: input.id,
            last_updated_at,
        }).spec_resume(reply) == StepView::<DeleteShoppingCartItem, bool>::Done(
            Err(CartError::Unauthorized { owner: owner._id }),
        )),
{
}

} // verus!
