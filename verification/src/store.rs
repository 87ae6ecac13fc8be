//! The document store as this service sees it: the requests it sends, the
//! replies it takes, and an in-memory store that answers every request as
//! the protocol expects of the real one.
//!
//! Every write is one filtered update of one document, and every write to
//! the items of a cart sets the time of the last update of that cart.
//! Reads of a single cart item return the owning user with the cart cut
//! down to the matched item.

use vstd::prelude::*;
use crate::error::CartError;
use crate::ids::{Timestamp, Uuid};
use crate::sequences::{
    find_first,
    first_index,
    lemma_filter_start,
    lemma_filter_step,
    lemma_first_index,
    lemma_first_index_is,
};
use crate::shoppingcart::{copy_items, ShoppingCart, ShoppingCartView};
use crate::shoppingcart_item::{ProductVariant, ShoppingCartItem};
use crate::user::{User, UserView};

verus! {

/// A request to the document store.
#[derive(Debug, PartialEq, Eq)]
pub enum StoreRequest {
    /// Find the user `id`.
    FindUser { id: Uuid },
    /// Find the user whose cart holds the item `id`, with the cart cut down
    /// to that item.
    FindShoppingCartItemUser { id: Uuid },
    /// Find the user `user_id` if the cart holds an item of the product
    /// variant, with the cart cut down to the first such item.
    FindShoppingCartItemUserByProductVariant { product_variant_id: Uuid, user_id: Uuid },
    /// Find the product variant `id`.
    FindProductVariant { id: Uuid },
    /// Find the product variants whose identities are among `ids`.
    FindProductVariants { ids: Vec<Uuid> },
    /// Insert a user.
    InsertUser { user: User },
    /// Insert a product variant.
    InsertProductVariant { product_variant: ProductVariant },
    /// Replace the items of the cart of user `user_id` and set the time of
    /// its last update.
    SetShoppingCartItems {
        user_id: Uuid,
        shoppingcart_items: Vec<ShoppingCartItem>,
        last_updated_at: Timestamp,
    },
    /// Append an item to the cart of user `user_id` and set the time of
    /// its last update.
    PushShoppingCartItem {
        user_id: Uuid,
        shoppingcart_item: ShoppingCartItem,
        last_updated_at: Timestamp,
    },
    /// Set the count of the item `id` in the cart that holds it, and the
    /// time of the last update of that cart.
    SetShoppingCartItemCount { id: Uuid, count: u32, last_updated_at: Timestamp },
    /// Remove the item `id` from the cart that holds it and set the time
    /// of the last update of that cart.
    PullShoppingCartItem { id: Uuid, last_updated_at: Timestamp },
    /// Remove from the cart of user `user_id` every item whose identity is
    /// among `ids`, and set the time of its last update. A cart that holds
    /// no such item is not written to.
    PullShoppingCartItems { user_id: Uuid, ids: Vec<Uuid>, last_updated_at: Timestamp },
}

/// The mathematical value of a request.
pub enum StoreRequestView {
    FindUser { id: Uuid },
    FindShoppingCartItemUser { id: Uuid },
    FindShoppingCartItemUserByProductVariant { product_variant_id: Uuid, user_id: Uuid },
    FindProductVariant { id: Uuid },
    FindProductVariants { ids: Seq<Uuid> },
    InsertUser { user: UserView },
    InsertProductVariant { product_variant: ProductVariant },
    SetShoppingCartItems {
        user_id: Uuid,
        shoppingcart_items: Seq<ShoppingCartItem>,
        last_updated_at: Timestamp,
    },
    PushShoppingCartItem {
        user_id: Uuid,
        shoppingcart_item: ShoppingCartItem,
        last_updated_at: Timestamp,
    },
    SetShoppingCartItemCount { id: Uuid, count: u32, last_updated_at: Timestamp },
    PullShoppingCartItem { id: Uuid, last_updated_at: Timestamp },
    PullShoppingCartItems { user_id: Uuid, ids: Seq<Uuid>, last_updated_at: Timestamp },
}

impl StoreRequestView {
    /// The request asks for documents and changes nothing.
    pub open spec fn is_read(self) -> bool {
        self is FindUser || self is FindShoppingCartItemUser
            || self is FindShoppingCartItemUserByProductVariant || self is FindProductVariant
            || self is FindProductVariants
    }
}

impl View for StoreRequest {
    type V = StoreRequestView;

    open spec fn view(&self) -> StoreRequestView {
        match *self {
            StoreRequest::FindUser { id } => StoreRequestView::FindUser { id },
            StoreRequest::FindShoppingCartItemUser { id } =>
                StoreRequestView::FindShoppingCartItemUser { id },
            StoreRequest::FindShoppingCartItemUserByProductVariant {
                product_variant_id,
                user_id,
            } => StoreRequestView::FindShoppingCartItemUserByProductVariant {
                product_variant_id,
                user_id,
            },
            StoreRequest::FindProductVariant { id } => StoreRequestView::FindProductVariant { id },
            StoreRequest::FindProductVariants { ids } => StoreRequestView::FindProductVariants {
                ids: ids@,
            },
            StoreRequest::InsertUser { user } => StoreRequestView::InsertUser { user: user@ },
            StoreRequest::InsertProductVariant { product_variant } =>
                StoreRequestView::InsertProductVariant { product_variant },
            StoreRequest::SetShoppingCartItems { user_id, shoppingcart_items, last_updated_at } =>
                StoreRequestView::SetShoppingCartItems {
                    user_id,
                    shoppingcart_items: shoppingcart_items@,
                    last_updated_at,
                },
            StoreRequest::PushShoppingCartItem { user_id, shoppingcart_item, last_updated_at } =>
                StoreRequestView::PushShoppingCartItem {
                    user_id,
                    shoppingcart_item,
                    last_updated_at,
                },
            StoreRequest::SetShoppingCartItemCount { id, count, last_updated_at } =>
                StoreRequestView::SetShoppingCartItemCount { id, count, last_updated_at },
            StoreRequest::PullShoppingCartItem { id, last_updated_at } =>
                StoreRequestView::PullShoppingCartItem { id, last_updated_at },
            StoreRequest::PullShoppingCartItems { user_id, ids, last_updated_at } =>
                StoreRequestView::PullShoppingCartItems { user_id, ids: ids@, last_updated_at },
        }
    }
}

/// A reply of the document store.
#[derive(Debug, PartialEq, Eq)]
pub enum StoreReply {
    /// The user document found, if any.
    User(Option<User>),
    /// The product variant found, if any.
    ProductVariant(Option<ProductVariant>),
    /// The product variants found.
    ProductVariants(Vec<ProductVariant>),
    /// The write was acknowledged.
    Written,
    /// The insert was refused: a document with that identity is stored.
    DuplicateKey,
    /// The request failed in transport or in the store.
    Failed,
}

/// The mathematical value of a reply.
pub enum StoreReplyView {
    User(Option<UserView>),
    ProductVariant(Option<ProductVariant>),
    ProductVariants(Seq<ProductVariant>),
    Written,
    DuplicateKey,
    Failed,
}

impl View for StoreReply {
    type V = StoreReplyView;

    open spec fn view(&self) -> StoreReplyView {
        match *self {
            StoreReply::User(found) => StoreReplyView::User(
                match found {
                    Some(user) => Some(user@),
                    None => None,
                },
            ),
            StoreReply::ProductVariant(found) => StoreReplyView::ProductVariant(found),
            StoreReply::ProductVariants(found) => StoreReplyView::ProductVariants(found@),
            StoreReply::Written => StoreReplyView::Written,
            StoreReply::DuplicateKey => StoreReplyView::DuplicateKey,
            StoreReply::Failed => StoreReplyView::Failed,
        }
    }
}

/// Where an operation stands after a step: it asks something of the
/// document store, or it is done.
#[derive(Debug, PartialEq, Eq)]
pub enum Step<M, T> {
    /// The request to perform, and the operation to resume with the reply.
    Ask(StoreRequest, M),
    /// The result of the operation.
    Done(Result<T, CartError>),
}

/// The mathematical value of a step.
pub enum StepView<M, T> {
    Ask(StoreRequestView, M),
    Done(Result<T, CartError>),
}

impl<M, T: View> View for Step<M, T> {
    type V = StepView<M, T::V>;

    open spec fn view(&self) -> StepView<M, T::V> {
        match *self {
            Step::Ask(request, operation) => StepView::Ask(request@, operation),
            Step::Done(Ok(value)) => StepView::Done(Ok(value@)),
            Step::Done(Err(error)) => StepView::Done(Err(error)),
        }
    }
}

/// The item has the identity `id`.
pub open spec fn item_has_id(id: Uuid) -> spec_fn(ShoppingCartItem) -> bool {
    |item: ShoppingCartItem| item._id == id
}

/// The item refers to the product variant `product_variant_id`.
pub open spec fn item_of_variant(product_variant_id: Uuid) -> spec_fn(ShoppingCartItem) -> bool {
    |item: ShoppingCartItem| item.product_variant._id == product_variant_id
}

/// The identity of the item is not `id`.
pub open spec fn item_has_other_id(id: Uuid) -> spec_fn(ShoppingCartItem) -> bool {
    |item: ShoppingCartItem| item._id != id
}

/// The identity of the item is among `ids`.
pub open spec fn item_among(ids: Seq<Uuid>) -> spec_fn(ShoppingCartItem) -> bool {
    |item: ShoppingCartItem| ids.contains(item._id)
}

/// The identity of the item is not among `ids`.
pub open spec fn item_not_among(ids: Seq<Uuid>) -> spec_fn(ShoppingCartItem) -> bool {
    |item: ShoppingCartItem| !ids.contains(item._id)
}

/// The product variant has the identity `id`.
pub open spec fn variant_has_id(id: Uuid) -> spec_fn(ProductVariant) -> bool {
    |product_variant: ProductVariant| product_variant._id == id
}

/// The identity of the product variant is among `ids`.
pub open spec fn variant_among(ids: Seq<Uuid>) -> spec_fn(ProductVariant) -> bool {
    |product_variant: ProductVariant| ids.contains(product_variant._id)
}

/// The user has the identity `id`.
pub open spec fn user_has_id(id: Uuid) -> spec_fn(UserView) -> bool {
    |user: UserView| user._id == id
}

/// The cart of the user holds an item with the identity `id`.
pub open spec fn user_holds_item(id: Uuid) -> spec_fn(UserView) -> bool {
    |user: UserView|
        first_index(user.shoppingcart.items, item_has_id(id)) < user.shoppingcart.items.len()
}

/// The user has the identity `user_id` and the cart holds an item of the
/// product variant.
pub open spec fn user_holds_variant(product_variant_id: Uuid, user_id: Uuid) -> spec_fn(
    UserView,
) -> bool {
    |user: UserView|
        user._id == user_id && first_index(
            user.shoppingcart.items,
            item_of_variant(product_variant_id),
        ) < user.shoppingcart.items.len()
}

/// The user has the identity `user_id` and the cart holds an item whose
/// identity is among `ids`.
pub open spec fn user_holds_any(user_id: Uuid, ids: Seq<Uuid>) -> spec_fn(UserView) -> bool {
    |user: UserView|
        user._id == user_id && first_index(user.shoppingcart.items, item_among(ids))
            < user.shoppingcart.items.len()
}

/// The user with the cart replaced by `items`.
pub open spec fn with_items(user: UserView, items: Seq<ShoppingCartItem>) -> UserView {
    UserView {
        _id: user._id,
        shoppingcart: ShoppingCartView {
            last_updated_at: user.shoppingcart.last_updated_at,
            items,
        },
    }
}

/// The user with the cart cut down to the first item that satisfies
/// `pred`.
pub open spec fn projected_to(user: UserView, pred: spec_fn(ShoppingCartItem) -> bool) -> UserView {
    with_items(user, seq![user.shoppingcart.items[first_index(user.shoppingcart.items, pred)]])
}

/// The item with its count set to `count`.
pub open spec fn with_count(item: ShoppingCartItem, count: u32) -> ShoppingCartItem {
    ShoppingCartItem {
        _id: item._id,
        count,
        added_at: item.added_at,
        product_variant: item.product_variant,
    }
}

/// The change that replaces the items of a cart and sets the time of its
/// last update.
pub open spec fn cart_replaced_by(
    shoppingcart_items: Seq<ShoppingCartItem>,
    last_updated_at: Timestamp,
) -> spec_fn(UserView) -> UserView {
    |user: UserView|
        UserView {
            _id: user._id,
            shoppingcart: ShoppingCartView { last_updated_at, items: shoppingcart_items },
        }
}

/// The user with the items of the cart replaced by `items` and the time of
/// its last update set to `last_updated_at`.
pub open spec fn with_cart(
    user: UserView,
    items: Seq<ShoppingCartItem>,
    last_updated_at: Timestamp,
) -> UserView {
    UserView { _id: user._id, shoppingcart: ShoppingCartView { last_updated_at, items } }
}

/// The change that appends an item to a cart, at `last_updated_at`.
pub open spec fn item_pushed(shoppingcart_item: ShoppingCartItem, last_updated_at: Timestamp)
    -> spec_fn(UserView) -> UserView {
    |user: UserView|
        with_cart(user, user.shoppingcart.items.push(shoppingcart_item), last_updated_at)
}

/// The change that sets the count of the first item `id` of a cart, at
/// `last_updated_at`.
pub open spec fn count_set(id: Uuid, count: u32, last_updated_at: Timestamp) -> spec_fn(
    UserView,
) -> UserView {
    |user: UserView|
        with_cart(
            user,
            user.shoppingcart.items.update(
                first_index(user.shoppingcart.items, item_has_id(id)),
                with_count(
                    user.shoppingcart.items[first_index(user.shoppingcart.items, item_has_id(id))],
                    count,
                ),
            ),
            last_updated_at,
        )
}

/// The change that removes every item `id` from a cart, at
/// `last_updated_at`.
pub open spec fn item_pulled(id: Uuid, last_updated_at: Timestamp) -> spec_fn(UserView) -> UserView {
    |user: UserView|
        with_cart(user, user.shoppingcart.items.filter(item_has_other_id(id)), last_updated_at)
}

/// The change that removes from a cart every item whose identity is among
/// `ids`, at `last_updated_at`.
pub open spec fn items_pulled(ids: Seq<Uuid>, last_updated_at: Timestamp) -> spec_fn(
    UserView,
) -> UserView {
    |user: UserView|
        with_cart(user, user.shoppingcart.items.filter(item_not_among(ids)), last_updated_at)
}

/// The users with the first one that satisfies `pred` replaced by what
/// `change` makes of it; unchanged if none satisfies it.
pub open spec fn update_first(
    users: Seq<UserView>,
    pred: spec_fn(UserView) -> bool,
    change: spec_fn(UserView) -> UserView,
) -> Seq<UserView> {
    if first_index(users, pred) < users.len() {
        users.update(first_index(users, pred), change(users[first_index(users, pred)]))
    } else {
        users
    }
}

/// The contents of the store: the user documents and the product variant
/// documents, each in the order in which they were inserted.
pub struct DatabaseView {
    pub users: Seq<UserView>,
    pub product_variants: Seq<ProductVariant>,
}

impl DatabaseView {
    /// The invariant of the store: identities are unique within each
    /// collection.
    pub open spec fn wf(self) -> bool {
        &&& forall|i: int, j: int|
            0 <= i < j < self.users.len() ==> (#[trigger] self.users[i])._id != (
            #[trigger] self.users[j])._id
        &&& forall|i: int, j: int|
            0 <= i < j < self.product_variants.len() ==> (#[trigger] self.product_variants[i])._id
                != (#[trigger] self.product_variants[j])._id
    }

    /// The store with other users.
    pub open spec fn with_users(self, users: Seq<UserView>) -> DatabaseView {
        DatabaseView { users, product_variants: self.product_variants }
    }

    /// The user `id`, if stored.
    pub open spec fn user(self, id: Uuid) -> Option<UserView> {
        find_first(self.users, user_has_id(id))
    }

    /// Whether the product variant `id` is stored.
    pub open spec fn knows_variant(self, id: Uuid) -> bool {
        find_first(self.product_variants, variant_has_id(id)) is Some
    }

    /// What the store is after `request`, and what it replies. The
    /// in-memory store never fails.
    pub open spec fn apply(self, request: StoreRequestView) -> (DatabaseView, StoreReplyView) {
        match request {
            StoreRequestView::FindUser { id } => (
                self,
                StoreReplyView::User(find_first(self.users, user_has_id(id))),
            ),
            StoreRequestView::FindShoppingCartItemUser { id } => (
                self,
                StoreReplyView::User(
                    match find_first(self.users, user_holds_item(id)) {
                        Some(user) => Some(projected_to(user, item_has_id(id))),
                        None => None,
                    },
                ),
            ),
            StoreRequestView::FindShoppingCartItemUserByProductVariant {
                product_variant_id,
                user_id,
            } => (
                self,
                StoreReplyView::User(
                    match find_first(self.users, user_holds_variant(product_variant_id, user_id)) {
                        Some(user) => Some(projected_to(user, item_of_variant(product_variant_id))),
                        None => None,
                    },
                ),
            ),
            StoreRequestView::FindProductVariant { id } => (
                self,
                StoreReplyView::ProductVariant(
                    find_first(self.product_variants, variant_has_id(id)),
                ),
            ),
            StoreRequestView::FindProductVariants { ids } => (
                self,
                StoreReplyView::ProductVariants(self.product_variants.filter(variant_among(ids))),
            ),
            StoreRequestView::InsertUser { user } => if find_first(
                self.users,
                user_has_id(user._id),
            ) is Some {
                (self, StoreReplyView::DuplicateKey)
            } else {
                (self.with_users(self.users.push(user)), StoreReplyView::Written)
            },
            StoreRequestView::InsertProductVariant { product_variant } => if find_first(
                self.product_variants,
                variant_has_id(product_variant._id),
            ) is Some {
                (self, StoreReplyView::DuplicateKey)
            } else {
                (
                    DatabaseView {
                        users: self.users,
                        product_variants: self.product_variants.push(product_variant),
                    },
                    StoreReplyView::Written,
                )
            },
            StoreRequestView::SetShoppingCartItems {
                user_id,
                shoppingcart_items,
                last_updated_at,
            } => (
                self.with_users(
                    update_first(
                        self.users,
                        user_has_id(user_id),
                        cart_replaced_by(shoppingcart_items, last_updated_at),
                    ),
                ),
                StoreReplyView::Written,
            ),
            StoreRequestView::PushShoppingCartItem { user_id, shoppingcart_item, last_updated_at } => (
                self.with_users(
                    update_first(
                        self.users,
                        user_has_id(user_id),
                        item_pushed(shoppingcart_item, last_updated_at),
                    ),
                ),
                StoreReplyView::Written,
            ),
            StoreRequestView::SetShoppingCartItemCount { id, count, last_updated_at } => (
                self.with_users(
                    update_first(
                        self.users,
                        user_holds_item(id),
                        count_set(id, count, last_updated_at),
                    ),
                ),
                StoreReplyView::Written,
            ),
            StoreRequestView::PullShoppingCartItem { id, last_updated_at } => (
                self.with_users(
                    update_first(self.users, user_holds_item(id), item_pulled(id, last_updated_at)),
                ),
                StoreReplyView::Written,
            ),
            StoreRequestView::PullShoppingCartItems { user_id, ids, last_updated_at } => (
                self.with_users(
                    update_first(
                        self.users,
                        user_holds_any(user_id, ids),
                        items_pulled(ids, last_updated_at),
                    ),
                ),
                StoreReplyView::Written,
            ),
        }
    }
}

impl DatabaseView {
    /// The shopping cart item `id` and the identity of the user whose cart
    /// holds it, if a cart holds it.
    pub open spec fn item(self, id: Uuid) -> Option<(Uuid, ShoppingCartItem)> {
        match find_first(self.users, user_holds_item(id)) {
            Some(user) => Some(
                (
                    user._id,
                    user.shoppingcart.items[first_index(user.shoppingcart.items, item_has_id(id))],
                ),
            ),
            None => None,
        }
    }
}

/// The values of the users.
pub open spec fn views(users: Seq<User>) -> Seq<UserView> {
    Seq::new(users.len(), |i: int| users[i]@)
}

/// The in-memory document store: the `users` collection and the
/// `product_variants` collection.
#[derive(Debug, PartialEq, Eq)]
pub struct Database {
    pub users: Vec<User>,
    pub product_variants: Vec<ProductVariant>,
}

impl View for Database {
    type V = DatabaseView;

    open spec fn view(&self) -> DatabaseView {
        DatabaseView { users: views(self.users@), product_variants: self.product_variants@ }
    }
}


/// The index of the first item with the identity `id`, or the length.
pub fn index_of_item(items: &Vec<ShoppingCartItem>, id: Uuid) -> (index: usize)
    ensures
        index == first_index(items@, item_has_id(id)),
{
    let mut i: usize = 0;
    while i < items.len() && items[i]._id != id
        invariant
            i <= items.len(),
            forall|k: int| 0 <= k < i ==> !item_has_id(id)(#[trigger] items@[k]),
        decreases items.len() - i,
    {
        i = i + 1;
    }
    proof {
        lemma_first_index_is(items@, item_has_id(id), i as int);
    }
    i
}

/// The index of the first item of the product variant, or the length.
pub fn index_of_item_of_variant(items: &Vec<ShoppingCartItem>, product_variant_id: Uuid) -> (index:
    usize)
    ensures
        index == first_index(items@, item_of_variant(product_variant_id)),
{
    let mut i: usize = 0;
    while i < items.len() && items[i].product_variant._id != product_variant_id
        invariant
            i <= items.len(),
            forall|k: int|
                0 <= k < i ==> !item_of_variant(product_variant_id)(#[trigger] items@[k]),
        decreases items.len() - i,
    {
        i = i + 1;
    }
    proof {
        lemma_first_index_is(items@, item_of_variant(product_variant_id), i as int);
    }
    i
}

/// The index of the first item whose identity is among `ids`, or the
/// length.
pub fn index_of_item_among(items: &Vec<ShoppingCartItem>, ids: &Vec<Uuid>) -> (index: usize)
    ensures
        index == first_index(items@, item_among(ids@)),
{
    let mut i: usize = 0;
    while i < items.len() && !contains_id(ids, items[i]._id)
        invariant
            i <= items.len(),
            forall|k: int| 0 <= k < i ==> !item_among(ids@)(#[trigger] items@[k]),
        decreases items.len() - i,
    {
        i = i + 1;
    }
    proof {
        lemma_first_index_is(items@, item_among(ids@), i as int);
    }
    i
}

/// The index of the first product variant with the identity `id`, or the
/// length.
pub fn index_of_variant(product_variants: &Vec<ProductVariant>, id: Uuid) -> (index: usize)
    ensures
        index == first_index(product_variants@, variant_has_id(id)),
{
    let mut i: usize = 0;
    while i < product_variants.len() && product_variants[i]._id != id
        invariant
            i <= product_variants.len(),
            forall|k: int| 0 <= k < i ==> !variant_has_id(id)(#[trigger] product_variants@[k]),
        decreases product_variants.len() - i,
    {
        i = i + 1;
    }
    proof {
        lemma_first_index_is(product_variants@, variant_has_id(id), i as int);
    }
    i
}

/// Whether `id` is among `ids`.
pub fn contains_id(ids: &Vec<Uuid>, id: Uuid) -> (found: bool)
    ensures
        found == ids@.contains(id),
{
    let mut i: usize = 0;
    while i < ids.len()
        invariant
            i <= ids.len(),
            forall|k: int| 0 <= k < i ==> ids@[k] != id,
        decreases ids.len() - i,
    {
        if ids[i] == id {
            return true;
        }
        i = i + 1;
    }
    false
}

impl Database {
    /// An empty store.
    pub fn new() -> (database: Database)
        ensures
            database@.users == Seq::<UserView>::empty(),
            database@.product_variants == Seq::<ProductVariant>::empty(),
            database@.wf(),
    {
        let database = Database { users: Vec::new(), product_variants: Vec::new() };
        assert(database@.users =~= Seq::<UserView>::empty());
        database
    }

    /// The index of the first user with the identity `id`, or the number of
    /// users.
    fn index_of_user(&self, id: Uuid) -> (index: usize)
        ensures
            index == first_index(self@.users, user_has_id(id)),
            index <= self.users.len(),
    {
        let mut i: usize = 0;
        while i < self.users.len() && self.users[i]._id != id
            invariant
                i <= self.users.len(),
                forall|k: int| 0 <= k < i ==> !user_has_id(id)(#[trigger] self@.users[k]),
            decreases self.users.len() - i,
        {
            i = i + 1;
        }
        proof {
            lemma_first_index_is(self@.users, user_has_id(id), i as int);
        }
        i
    }

    /// The index of the first user whose cart holds the item `id`, or the
    /// number of users.
    fn index_of_item_user(&self, id: Uuid) -> (index: usize)
        ensures
            index == first_index(self@.users, user_holds_item(id)),
            index <= self.users.len(),
    {
        let mut i: usize = 0;
        while i < self.users.len()
            invariant
                i <= self.users.len(),
                forall|k: int| 0 <= k < i ==> !user_holds_item(id)(#[trigger] self@.users[k]),
            decreases self.users.len() - i,
        {
            let items = &self.users[i].shoppingcart.internal_shoppingcart_items;
            if index_of_item(items, id) < items.len() {
                proof {
                    assert(user_holds_item(id)(self@.users[i as int]));
                    lemma_first_index_is(self@.users, user_holds_item(id), i as int);
                }
                return i;
            }
            assert(!user_holds_item(id)(self@.users[i as int]));
            i = i + 1;
        }
        proof {
            lemma_first_index_is(self@.users, user_holds_item(id), i as int);
        }
        i
    }

    /// The index of the user `user_id` if the cart holds an item of the
    /// product variant, or the number of users.
    fn index_of_variant_user(&self, product_variant_id: Uuid, user_id: Uuid) -> (index: usize)
        ensures
            index == first_index(self@.users, user_holds_variant(product_variant_id, user_id)),
            index <= self.users.len(),
    {
        let mut i: usize = 0;
        while i < self.users.len()
            invariant
                i <= self.users.len(),
                forall|k: int|
                    0 <= k < i ==> !user_holds_variant(product_variant_id, user_id)(
                        #[trigger] self@.users[k],
                    ),
            decreases self.users.len() - i,
        {
            let items = &self.users[i].shoppingcart.internal_shoppingcart_items;
            if self.users[i]._id == user_id && index_of_item_of_variant(items, product_variant_id)
                < items.len() {
                proof {
                    assert(user_holds_variant(product_variant_id, user_id)(self@.users[i as int]));
                    lemma_first_index_is(
                        self@.users,
                        user_holds_variant(product_variant_id, user_id),
                        i as int,
                    );
                }
                return i;
            }
            assert(!user_holds_variant(product_variant_id, user_id)(self@.users[i as int]));
            i = i + 1;
        }
        proof {
            lemma_first_index_is(
                self@.users,
                user_holds_variant(product_variant_id, user_id),
                i as int,
            );
        }
        i
    }

    /// The index of the user `user_id` if the cart holds an item whose
    /// identity is among `ids`, or the number of users.
    fn index_of_holder_of_any(&self, user_id: Uuid, ids: &Vec<Uuid>) -> (index: usize)
        ensures
            index == first_index(self@.users, user_holds_any(user_id, ids@)),
            index <= self.users.len(),
    {
        let mut i: usize = 0;
        while i < self.users.len()
            invariant
                i <= self.users.len(),
                forall|k: int|
                    0 <= k < i ==> !user_holds_any(user_id, ids@)(#[trigger] self@.users[k]),
            decreases self.users.len() - i,
        {
            let items = &self.users[i].shoppingcart.internal_shoppingcart_items;
            if self.users[i]._id == user_id && index_of_item_among(items, ids) < items.len() {
                proof {
                    assert(user_holds_any(user_id, ids@)(self@.users[i as int]));
                    lemma_first_index_is(self@.users, user_holds_any(user_id, ids@), i as int);
                }
                return i;
            }
            assert(!user_holds_any(user_id, ids@)(self@.users[i as int]));
            i = i + 1;
        }
        proof {
            lemma_first_index_is(self@.users, user_holds_any(user_id, ids@), i as int);
        }
        i
    }

    /// Puts a cart with the given items and time in the place of the cart
    /// of the user at `index`.
    fn put_cart(&mut self, index: usize, items: Vec<ShoppingCartItem>, last_updated_at: Timestamp)
        requires
            index < old(self).users.len(),
        ensures
            final(self)@.product_variants == old(self)@.product_variants,
            final(self)@.users == old(self)@.users.update(
                index as int,
                UserView {
                    _id: old(self)@.users[index as int]._id,
                    shoppingcart: ShoppingCartView { last_updated_at, items: items@ },
                },
            ),
    {
        let user = User {
            _id: self.users[index]._id,
            shoppingcart: ShoppingCart { last_updated_at, internal_shoppingcart_items: items },
        };
        self.users.set(index, user);
        assert(self@.users =~= old(self)@.users.update(
            index as int,
            UserView {
                _id: old(self)@.users[index as int]._id,
                shoppingcart: ShoppingCartView { last_updated_at, items: items@ },
            },
        ));
    }

    /// Answers a request that only reads. A request that writes is not
    /// performed: the reply is that it failed.
    pub fn read(&self, request: &StoreRequest) -> (reply: StoreReply)
        ensures
            request@.is_read() ==> reply@ == self@.apply(request@).1 && self@.apply(request@).0
                == self@,
            !request@.is_read() ==> reply@ is Failed,
    {
        match request {
            StoreRequest::FindUser { id } => {
                let index = self.index_of_user(*id);
                if index < self.users.len() {
                    StoreReply::User(Some(self.users[index].duplicate()))
                } else {
                    StoreReply::User(None)
                }
            },
            StoreRequest::FindShoppingCartItemUser { id } => {
                let index = self.index_of_item_user(*id);
                if index < self.users.len() {
                    let user = &self.users[index];
                    let items = &user.shoppingcart.internal_shoppingcart_items;
                    let position = index_of_item(items, *id);
                    assert(user_holds_item(*id)(self@.users[index as int])) by {
                        lemma_first_index(self@.users, user_holds_item(*id));
                    }
                    let mut matched: Vec<ShoppingCartItem> = Vec::new();
                    matched.push(items[position]);
                    assert(matched@ =~= seq![items@[position as int]]);
                    StoreReply::User(
                        Some(
                            User {
                                _id: user._id,
                                shoppingcart: ShoppingCart {
                                    last_updated_at: user.shoppingcart.last_updated_at,
                                    internal_shoppingcart_items: matched,
                                },
                            },
                        ),
                    )
                } else {
                    StoreReply::User(None)
                }
            },
            StoreRequest::FindShoppingCartItemUserByProductVariant {
                product_variant_id,
                user_id,
            } => {
                let index = self.index_of_variant_user(*product_variant_id, *user_id);
                if index < self.users.len() {
                    let user = &self.users[index];
                    let items = &user.shoppingcart.internal_shoppingcart_items;
                    let position = index_of_item_of_variant(items, *product_variant_id);
                    assert(user_holds_variant(*product_variant_id, *user_id)(
                        self@.users[index as int],
                    )) by {
                        lemma_first_index(
                            self@.users,
                            user_holds_variant(*product_variant_id, *user_id),
                        );
                    }
                    let mut matched: Vec<ShoppingCartItem> = Vec::new();
                    matched.push(items[position]);
                    assert(matched@ =~= seq![items@[position as int]]);
                    StoreReply::User(
                        Some(
                            User {
                                _id: user._id,
                                shoppingcart: ShoppingCart {
                                    last_updated_at: user.shoppingcart.last_updated_at,
                                    internal_shoppingcart_items: matched,
                                },
                            },
                        ),
                    )
                } else {
                    StoreReply::User(None)
                }
            },
            StoreRequest::FindProductVariant { id } => {
                let index = index_of_variant(&self.product_variants, *id);
                if index < self.product_variants.len() {
                    StoreReply::ProductVariant(Some(self.product_variants[index]))
                } else {
                    StoreReply::ProductVariant(None)
                }
            },
            StoreRequest::FindProductVariants { ids } => {
                let mut found: Vec<ProductVariant> = Vec::new();
                let mut i: usize = 0;
                proof {
                    lemma_filter_start(self.product_variants@, variant_among(ids@));
                }
                while i < self.product_variants.len()
                    invariant
                        i <= self.product_variants.len(),
                        found@ == self.product_variants@.take(i as int).filter(variant_among(ids@)),
                    decreases self.product_variants.len() - i,
                {
                    proof {
                        lemma_filter_step(self.product_variants@, variant_among(ids@), i as int);
                    }
                    if contains_id(ids, self.product_variants[i]._id) {
                        found.push(self.product_variants[i]);
                    }
                    i = i + 1;
                }
                assert(self.product_variants@.take(i as int) =~= self.product_variants@);
                StoreReply::ProductVariants(found)
            },
            _ => StoreReply::Failed,
        }
    }

    /// Answers a request as the document store does, and changes the
    /// contents as the request says.
    pub fn execute(&mut self, request: &StoreRequest) -> (reply: StoreReply)
        ensures
            (final(self)@, reply@) == old(self)@.apply(request@),
            old(self)@.wf() ==> final(self)@.wf(),
            !(reply@ is Failed),
    {
        proof {
            if self@.wf() {
                lemma_apply_keeps_wf(self@, request@);
            }
        }
        match request {
            StoreRequest::InsertUser { user } => {
                let index = self.index_of_user(user._id);
                if index < self.users.len() {
                    StoreReply::DuplicateKey
                } else {
                    self.users.push(user.duplicate());
                    assert(self@.users =~= old(self)@.users.push(user@));
                    StoreReply::Written
                }
            },
            StoreRequest::InsertProductVariant { product_variant } => {
                let index = index_of_variant(&self.product_variants, product_variant._id);
                if index < self.product_variants.len() {
                    StoreReply::DuplicateKey
                } else {
                    self.product_variants.push(*product_variant);
                    assert(self@.users =~= old(self)@.users);
                    StoreReply::Written
                }
            },
            StoreRequest::SetShoppingCartItems { user_id, shoppingcart_items, last_updated_at } => {
                let index = self.index_of_user(*user_id);
                if index < self.users.len() {
                    self.put_cart(index, copy_items(shoppingcart_items), *last_updated_at);
                }
                StoreReply::Written
            },
            StoreRequest::PushShoppingCartItem { user_id, shoppingcart_item, last_updated_at } => {
                let index = self.index_of_user(*user_id);
                if index < self.users.len() {
                    let mut items = copy_items(
                        &self.users[index].shoppingcart.internal_shoppingcart_items,
                    );
                    items.push(*shoppingcart_item);
                    self.put_cart(index, items, *last_updated_at);
                }
                StoreReply::Written
            },
            StoreRequest::SetShoppingCartItemCount { id, count, last_updated_at } => {
                let index = self.index_of_item_user(*id);
                if index < self.users.len() {
                    let mut items = copy_items(
                        &self.users[index].shoppingcart.internal_shoppingcart_items,
                    );
                    let position = index_of_item(&items, *id);
                    assert(user_holds_item(*id)(self@.users[index as int])) by {
                        lemma_first_index(self@.users, user_holds_item(*id));
                    }
                    let item = items[position];
                    items.set(
                        position,
                        ShoppingCartItem {
                            _id: item._id,
                            count: *count,
                            added_at: item.added_at,
                            product_variant: item.product_variant,
                        },
                    );
                    self.put_cart(index, items, *last_updated_at);
                }
                StoreReply::Written
            },
            StoreRequest::PullShoppingCartItem { id, last_updated_at } => {
                let index = self.index_of_item_user(*id);
                if index < self.users.len() {
                    let stored = &self.users[index].shoppingcart.internal_shoppingcart_items;
                    let mut items: Vec<ShoppingCartItem> = Vec::new();
                    let mut i: usize = 0;
                    proof {
                        lemma_filter_start(stored@, item_has_other_id(*id));
                    }
                    while i < stored.len()
                        invariant
                            i <= stored.len(),
                            items@ == stored@.take(i as int).filter(item_has_other_id(*id)),
                        decreases stored.len() - i,
                    {
                        proof {
                            lemma_filter_step(stored@, item_has_other_id(*id), i as int);
                        }
                        if stored[i]._id != *id {
                            items.push(stored[i]);
                        }
                        i = i + 1;
                    }
                    assert(stored@.take(i as int) =~= stored@);
                    self.put_cart(index, items, *last_updated_at);
                }
                StoreReply::Written
            },
            StoreRequest::PullShoppingCartItems { user_id, ids, last_updated_at } => {
                let index = self.index_of_holder_of_any(*user_id, ids);
                if index < self.users.len() {
                    let stored = &self.users[index].shoppingcart.internal_shoppingcart_items;
                    let mut items: Vec<ShoppingCartItem> = Vec::new();
                    let mut i: usize = 0;
                    proof {
                        lemma_filter_start(stored@, item_not_among(ids@));
                    }
                    while i < stored.len()
                        invariant
                            i <= stored.len(),
                            items@ == stored@.take(i as int).filter(item_not_among(ids@)),
                        decreases stored.len() - i,
                    {
                        proof {
                            lemma_filter_step(stored@, item_not_among(ids@), i as int);
                        }
                        if !contains_id(ids, stored[i]._id) {
                            items.push(stored[i]);
                        }
                        i = i + 1;
                    }
                    assert(stored@.take(i as int) =~= stored@);
                    self.put_cart(index, items, *last_updated_at);
                }
                StoreReply::Written
            },
            StoreRequest::FindUser { .. } => self.read(request),
            StoreRequest::FindShoppingCartItemUser { .. } => self.read(request),
            StoreRequest::FindShoppingCartItemUserByProductVariant { .. } => self.read(request),
            StoreRequest::FindProductVariant { .. } => self.read(request),
            StoreRequest::FindProductVariants { .. } => self.read(request),
        }
    }
}

/// After the first user with an identity has been changed into one with
/// the same identity, a lookup by that identity finds the changed user.
pub proof fn lemma_find_after_update(
    users: Seq<UserView>,
    id: Uuid,
    change: spec_fn(UserView) -> UserView,
)
    requires
        forall|user: UserView| (#[trigger] change(user))._id == user._id,
    ensures
        find_first(update_first(users, user_has_id(id), change), user_has_id(id)) == match find_first(
            users,
            user_has_id(id),
        ) {
            Some(user) => Some(change(user)),
            None => None,
        },
        first_index(update_first(users, user_has_id(id), change), user_has_id(id)) == first_index(
            users,
            user_has_id(id),
        ),
{
    let updated = update_first(users, user_has_id(id), change);
    lemma_first_index(users, user_has_id(id));
    let p = first_index(users, user_has_id(id));
    assert forall|k: int| 0 <= k < p implies !user_has_id(id)(#[trigger] updated[k]) by {
        assert(updated[k] == users[k]);
    }
    lemma_first_index_is(updated, user_has_id(id), p);
}

/// After the first user that satisfies a predicate has been changed into
/// one that still satisfies it, that user is still the first to do so.
pub proof fn lemma_first_index_after_update(
    users: Seq<UserView>,
    pred: spec_fn(UserView) -> bool,
    change: spec_fn(UserView) -> UserView,
)
    requires
        forall|user: UserView| pred(user) ==> pred(#[trigger] change(user)),
    ensures
        first_index(update_first(users, pred, change), pred) == first_index(users, pred),
{
    let updated = update_first(users, pred, change);
    lemma_first_index(users, pred);
    let p = first_index(users, pred);
    assert forall|k: int| 0 <= k < p implies !pred(#[trigger] updated[k]) by {
        assert(updated[k] == users[k]);
    }
    lemma_first_index_is(updated, pred, p);
}

/// Setting the count of the first item with an identity leaves that item
/// the first with the identity.
pub proof fn lemma_first_index_after_count(items: Seq<ShoppingCartItem>, id: Uuid, count: u32)
    requires
        first_index(items, item_has_id(id)) < items.len(),
    ensures
        first_index(
            items.update(
                first_index(items, item_has_id(id)),
                with_count(items[first_index(items, item_has_id(id))], count),
            ),
            item_has_id(id),
        ) == first_index(items, item_has_id(id)),
{
    lemma_first_index(items, item_has_id(id));
    let p = first_index(items, item_has_id(id));
    let updated = items.update(p, with_count(items[p], count));
    assert forall|k: int| 0 <= k < p implies !item_has_id(id)(#[trigger] updated[k]) by {
        assert(updated[k] == items[k]);
    }
    lemma_first_index_is(updated, item_has_id(id), p);
}

/// After the count of an item has been set, the item is found with the
/// new count in the cart of the same user.
pub proof fn lemma_item_after_count(
    database: DatabaseView,
    id: Uuid,
    count: u32,
    last_updated_at: Timestamp,
)
    ensures
        database.apply(
            StoreRequestView::SetShoppingCartItemCount { id, count, last_updated_at },
        ).0.item(id)
            == match database.item(id) {
            Some((owner, shoppingcart_item)) => Some((owner, with_count(shoppingcart_item, count))),
            None => None,
        },
{
    let users = database.users;
    let holds = user_holds_item(id);
    let change = count_set(id, count, last_updated_at);
    lemma_first_index(users, holds);
    assert forall|user: UserView| holds(user) implies holds(#[trigger] change(user)) by {
        lemma_first_index_after_count(user.shoppingcart.items, id, count);
    }
    lemma_first_index_after_update(users, holds, change);
    let p = first_index(users, holds);
    if p < users.len() {
        lemma_first_index(users[p].shoppingcart.items, item_has_id(id));
        lemma_first_index_after_count(users[p].shoppingcart.items, id, count);
    }
}

/// No request breaks the uniqueness of identities within a collection.
pub proof fn lemma_apply_keeps_wf(database: DatabaseView, request: StoreRequestView)
    requires
        database.wf(),
    ensures
        database.apply(request).0.wf(),
{
    let after = database.apply(request).0;
    match request {
        StoreRequestView::InsertUser { user } => {
            lemma_first_index(database.users, user_has_id(user._id));
            if !(find_first(database.users, user_has_id(user._id)) is Some) {
                assert forall|i: int, j: int| 0 <= i < j < after.users.len() implies (
                #[trigger] after.users[i])._id != (#[trigger] after.users[j])._id by {
                    if j == database.users.len() {
                        assert(!user_has_id(user._id)(database.users[i]));
                    }
                }
            }
        },
        StoreRequestView::InsertProductVariant { product_variant } => {
            lemma_first_index(database.product_variants, variant_has_id(product_variant._id));
            if !(find_first(database.product_variants, variant_has_id(product_variant._id))
                is Some) {
                assert forall|i: int, j: int|
                    0 <= i < j < after.product_variants.len() implies (
                #[trigger] after.product_variants[i])._id != (
                #[trigger] after.product_variants[j])._id by {
                    if j == database.product_variants.len() {
                        assert(!variant_has_id(product_variant._id)(database.product_variants[i]));
                    }
                }
            }
        },
        StoreRequestView::SetShoppingCartItems { user_id, shoppingcart_items, last_updated_at } => {
            lemma_first_index(database.users, user_has_id(user_id));
        },
        StoreRequestView::PushShoppingCartItem { user_id, .. } => {
            lemma_first_index(database.users, user_has_id(user_id));
        },
        StoreRequestView::SetShoppingCartItemCount { id, .. } => {
            lemma_first_index(database.users, user_holds_item(id));
        },
        StoreRequestView::PullShoppingCartItem { id, .. } => {
            lemma_first_index(database.users, user_holds_item(id));
        },
        StoreRequestView::PullShoppingCartItems { user_id, ids, .. } => {
            lemma_first_index(database.users, user_holds_any(user_id, ids));
        },
        _ => {},
    }
}


/// An operation of the service, between two steps: something that, given
/// the reply to what it asked, is done or asks the next thing.
pub trait Operation: Sized {
    /// What the operation returns when it is done.
    type Output: View;

    /// A bound on the number of requests that the operation will still
    /// make after the one it waits for.
    spec fn requests_left(self) -> nat;

    /// The step that follows `reply`.
    spec fn spec_resume(self, reply: StoreReplyView) -> StepView<
        Self,
        <Self::Output as View>::V,
    >;

    /// Resumes the operation with the reply to what it asked.
    fn resume(self, reply: StoreReply) -> (step: Step<Self, Self::Output>)
        ensures
            step@ == self.spec_resume(reply@),
            step@ matches StepView::Ask(_, following) ==> following.requests_left()
                < self.requests_left(),
    ;
}

/// The value of the result of an operation.
pub open spec fn outcome<T: View>(result: Result<T, CartError>) -> Result<T::V, CartError> {
    match result {
        Ok(value) => Ok(value@),
        Err(error) => Err(error),
    }
}

/// What is left to do at a step: nothing, or the requests that the
/// operation may still make and the one it has made.
pub open spec fn steps_left<M: Operation>(step: StepView<M, <M::Output as View>::V>) -> nat {
    match step {
        StepView::Ask(_, operation) => operation.requests_left() + 1,
        StepView::Done(_) => 0,
    }
}

/// What running an operation from `step` against the in-memory store gives:
/// the store after every request that the operation made was answered, and
/// the result of the operation.
pub open spec fn completed<M: Operation>(
    database: DatabaseView,
    step: StepView<M, <M::Output as View>::V>,
) -> (DatabaseView, Result<<M::Output as View>::V, CartError>)
    decreases steps_left(step),
{
    match step {
        StepView::Done(result) => (database, result),
        StepView::Ask(request, operation) => {
            let following = operation.spec_resume(database.apply(request).1);
            if steps_left(following) < steps_left(step) {
                completed(database.apply(request).0, following)
            } else {
                (database.apply(request).0, arbitrary())
            }
        },
    }
}

impl Database {
    /// Runs an operation from `step` to its end: answers what it asks and
    /// resumes it with the reply, until it is done.
    #[verifier::loop_isolation(false)]
    pub fn run<M: Operation>(&mut self, step: Step<M, M::Output>) -> (result: Result<
        M::Output,
        CartError,
    >)
        ensures
            (final(self)@, outcome(result)) == completed(old(self)@, step@),
            old(self)@.wf() ==> final(self)@.wf(),
    {
        let ghost started = step@;
        let mut current = step;
        loop
            invariant
                completed(self@, current@) == completed(old(self)@, started),
                old(self)@.wf() ==> self@.wf(),
            decreases steps_left(current@),
        {
            match current {
                Step::Ask(request, operation) => {
                    let reply = self.execute(&request);
                    current = operation.resume(reply);
                },
                Step::Done(result) => {
                    return result;
                },
            }
        }
    }
}

} // verus!
