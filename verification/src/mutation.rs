//! The write side. Every mutation is one logical operation over one cart:
//! it validates first and writes once, with a single filtered update.
//!
//! A mutation is a small state machine. Started, it either is done or asks
//! one thing of the document store; resumed with the reply, it again is
//! done or asks the next thing. `Mutation` runs the machines against the
//! in-memory store, with `Database::run`.

use vstd::prelude::*;
use crate::authorization::{authorize_user, is_authorized};
use crate::error::CartError;
use crate::ids::{Timestamp, Uuid};
use crate::mutation_input_structs::{
    CreateShoppingCartItemInput,
    ShoppingCartItemInput,
    UpdateShoppingCartInput,
    UpdateShoppingCartItemInput,
};
use crate::query::{
    cart_result,
    item_of,
    item_of_variant_of,
    item_user_of,
    query_shoppingcart,
    query_shoppingcart_item,
    query_shoppingcart_item_by_product_variant_id_and_user_id,
    query_shoppingcart_item_user,
    query_user,
    shoppingcart_of,
    user_in,
};
use crate::sequences::{
    find_first,
    first_index,
    lemma_first_index_agrees,
    lemma_first_index_is,
};
use crate::shoppingcart::{ShoppingCart, ShoppingCartView};
use crate::shoppingcart_item::{ProductVariant, ShoppingCartItem};
use crate::store::{
    completed,
    cart_replaced_by,
    item_of_variant,
    lemma_find_after_update,
    lemma_item_after_count,
    user_holds_variant,
    variant_among,
    with_count,
    Database,
    DatabaseView,
    Operation,
    Step,
    StepView,
    StoreReply,
    StoreReplyView,
    StoreRequest,
    StoreRequestView,
};
use crate::user::{User, UserView};

verus! {

/// The item that is made for `input`, with the identity `id`, added at
/// `added_at`. The product variant is copied by value.
pub open spec fn minted_item(input: ShoppingCartItemInput, id: Uuid, added_at: Timestamp)
    -> ShoppingCartItem {
    ShoppingCartItem {
        _id: id,
        count: input.count,
        added_at,
        product_variant: ProductVariant { _id: input.product_variant_id },
    }
}

/// Makes the item for `input`, with the identity `id`, added at
/// `added_at`.
pub fn mint_shoppingcart_item(input: &ShoppingCartItemInput, id: Uuid, added_at: Timestamp)
    -> (shoppingcart_item: ShoppingCartItem)
    ensures
        shoppingcart_item == minted_item(*input, id, added_at),
{
    ShoppingCartItem {
        _id: id,
        count: input.count,
        added_at,
        product_variant: ProductVariant { _id: input.product_variant_id },
    }
}

/// The items are those made for the inputs, one for one and in their
/// order, repeated inputs included, all added at `added_at`, whatever
/// their identities.
pub open spec fn minted_from(
    shoppingcart_items: Seq<ShoppingCartItem>,
    inputs: Seq<ShoppingCartItemInput>,
    added_at: Timestamp,
) -> bool {
    &&& shoppingcart_items.len() == inputs.len()
    &&& forall|i: int|
        0 <= i < inputs.len() ==> #[trigger] shoppingcart_items[i] == minted_item(
            inputs[i],
            shoppingcart_items[i]._id,
            added_at,
        )
}

/// Makes a freshly identified item for each input, all added at
/// `current_timestamp`. Inputs are not told apart by what they hold: an
/// input that occurs twice yields two items.
pub fn normalize_shopping_cart_items(
    inputs: &Vec<ShoppingCartItemInput>,
    current_timestamp: Timestamp,
) -> (shoppingcart_items: Vec<ShoppingCartItem>)
    ensures
        minted_from(shoppingcart_items@, inputs@, current_timestamp),
{
    let mut shoppingcart_items: Vec<ShoppingCartItem> = Vec::new();
    let mut i: usize = 0;
    while i < inputs.len()
        invariant
            i <= inputs.len(),
            minted_from(shoppingcart_items@, inputs@.take(i as int), current_timestamp),
        decreases inputs.len() - i,
    {
        let shoppingcart_item = mint_shoppingcart_item(&inputs[i], Uuid::new(), current_timestamp);
        shoppingcart_items.push(shoppingcart_item);
        i = i + 1;
    }
    assert(inputs@.take(i as int) =~= inputs@);
    shoppingcart_items
}

/// What the lookup of the user `id` means for a mutation that needs the
/// user to exist: a user that was not found fails the validation.
pub open spec fn user_validated(reply: StoreReplyView, id: Uuid) -> Result<(), CartError> {
    match user_in(reply) {
        Some(_) => Ok(()),
        None => Err(CartError::UserNotPresent { id }),
    }
}

/// Reads the reply to the lookup of the user `id` as a validation: the
/// lookup must have found the user.
pub fn validate_user(reply: StoreReply, id: Uuid) -> (result: Result<(), CartError>)
    ensures
        result == user_validated(reply@, id),
{
    match query_user(reply, id) {
        Ok(_) => Ok(()),
        Err(_) => Err(CartError::UserNotPresent { id }),
    }
}

/// What the lookup of one product variant means for a mutation that needs
/// it to exist.
pub open spec fn variant_validated(reply: StoreReplyView, product_variant_id: Uuid) -> Result<
    (),
    CartError,
> {
    match reply {
        StoreReplyView::ProductVariant(Some(_)) => Ok(()),
        _ => Err(CartError::ProductVariantNotPresent { id: product_variant_id }),
    }
}

/// Reads the reply to the lookup of the product variant of the item input
/// as a validation: the lookup must have found the variant. A lookup that
/// failed counts as one that found nothing.
pub fn validate_shopping_cart_item(
    reply: &StoreReply,
    shoppingcart_item_input: &ShoppingCartItemInput,
) -> (result: Result<(), CartError>)
    ensures
        result == variant_validated(reply@, shoppingcart_item_input.product_variant_id),
{
    match reply {
        StoreReply::ProductVariant(Some(_)) => Ok(()),
        _ => Err(
            CartError::ProductVariantNotPresent { id: shoppingcart_item_input.product_variant_id },
        ),
    }
}

/// The product variant that the item refers to is not among `found`.
pub open spec fn refers_to_none_of(found: Seq<ProductVariant>) -> spec_fn(
    ShoppingCartItem,
) -> bool {
    |shoppingcart_item: ShoppingCartItem| !found.contains(shoppingcart_item.product_variant)
}

/// What the batch lookup of the product variants of `shoppingcart_items`
/// means: all are there, or the first that is missing is named; a lookup
/// that failed names none.
pub open spec fn variants_validated(
    reply: StoreReplyView,
    shoppingcart_items: Seq<ShoppingCartItem>,
) -> Result<(), CartError> {
    match reply {
        StoreReplyView::ProductVariants(found) => if first_index(
            shoppingcart_items,
            refers_to_none_of(found),
        ) < shoppingcart_items.len() {
            Err(
                CartError::ProductVariantNotPresent {
                    id: shoppingcart_items[first_index(
                        shoppingcart_items,
                        refers_to_none_of(found),
                    )].product_variant._id,
                },
            )
        } else {
            Ok(())
        },
        _ => Err(CartError::ProductVariantsNotPresent),
    }
}

/// Whether `product_variant` is among `found`.
fn contains_variant(found: &Vec<ProductVariant>, product_variant: ProductVariant) -> (yes: bool)
    ensures
        yes == found@.contains(product_variant),
{
    let mut i: usize = 0;
    while i < found.len()
        invariant
            i <= found.len(),
            forall|k: int| 0 <= k < i ==> found@[k] != product_variant,
        decreases found.len() - i,
    {
        if found[i] == product_variant {
            return true;
        }
        i = i + 1;
    }
    false
}

/// Reads the reply to the one lookup that asked for the product variants
/// of all items as a validation: every item must refer to a variant that
/// was found. The first missing one fails the whole batch.
pub fn validate_shopping_cart_items(
    reply: &StoreReply,
    shoppingcart_items: &Vec<ShoppingCartItem>,
) -> (result: Result<(), CartError>)
    ensures
        result == variants_validated(reply@, shoppingcart_items@),
{
    match reply {
        StoreReply::ProductVariants(product_variants) => {
            assert(reply@ == StoreReplyView::ProductVariants(product_variants@));
            let mut i: usize = 0;
            while i < shoppingcart_items.len()
                invariant
                    i <= shoppingcart_items.len(),
                    reply@ == StoreReplyView::ProductVariants(product_variants@),
                    forall|k: int|
                        0 <= k < i ==> !refers_to_none_of(product_variants@)(
                            #[trigger] shoppingcart_items@[k],
                        ),
                decreases shoppingcart_items.len() - i,
            {
                if !contains_variant(product_variants, shoppingcart_items[i].product_variant) {
                    proof {
                        lemma_first_index_is(
                            shoppingcart_items@,
                            refers_to_none_of(product_variants@),
                            i as int,
                        );
                    }
                    return Err(
                        CartError::ProductVariantNotPresent {
                            id: shoppingcart_items[i].product_variant._id,
                        },
                    );
                }
                i = i + 1;
            }
            proof {
                lemma_first_index_is(
                    shoppingcart_items@,
                    refers_to_none_of(product_variants@),
                    i as int,
                );
            }
            Ok(())
        },
        _ => Err(CartError::ProductVariantsNotPresent),
    }
}

/// The identities of the product variants that the items refer to, in the
/// order of the items.
pub open spec fn variant_ids_of(shoppingcart_items: Seq<ShoppingCartItem>) -> Seq<Uuid> {
    Seq::new(shoppingcart_items.len(), |i: int| shoppingcart_items[i].product_variant._id)
}

/// Collects the identities of the product variants that the items refer
/// to.
pub fn product_variant_ids(shoppingcart_items: &Vec<ShoppingCartItem>) -> (ids: Vec<Uuid>)
    ensures
        ids@ == variant_ids_of(shoppingcart_items@),
{
    let mut ids: Vec<Uuid> = Vec::new();
    let mut i: usize = 0;
    while i < shoppingcart_items.len()
        invariant
            i <= shoppingcart_items.len(),
            ids@ == variant_ids_of(shoppingcart_items@.take(i as int)),
        decreases shoppingcart_items.len() - i,
    {
        ids.push(shoppingcart_items[i].product_variant._id);
        assert(ids@ =~= variant_ids_of(shoppingcart_items@.take(i + 1)));
        i = i + 1;
    }
    assert(shoppingcart_items@.take(i as int) =~= shoppingcart_items@);
    ids
}

/// What the reply to the append of `shoppingcart_item` means.
pub open spec fn item_added(reply: StoreReplyView, shoppingcart_item: ShoppingCartItem) -> Result<
    ShoppingCartItem,
    CartError,
> {
    match reply {
        StoreReplyView::Written => Ok(shoppingcart_item),
        _ => Err(CartError::AddShoppingCartItemFailed { id: shoppingcart_item._id }),
    }
}

/// Reads the reply to the append of `shoppingcart_item`: the item, if the
/// store has acknowledged the append, or a failure naming the item.
pub fn add_shoppingcart_item_to_monogdb(reply: &StoreReply, shoppingcart_item: ShoppingCartItem)
    -> (result: Result<ShoppingCartItem, CartError>)
    ensures
        result == item_added(reply@, shoppingcart_item),
{
    match reply {
        StoreReply::Written => Ok(shoppingcart_item),
        _ => Err(CartError::AddShoppingCartItemFailed { id: shoppingcart_item._id }),
    }
}

/// What the reply to the replacement of the items of the cart of user
/// `id` means.
pub open spec fn items_updated(reply: StoreReplyView, id: Uuid) -> Result<(), CartError> {
    match reply {
        StoreReplyView::Written => Ok(()),
        _ => Err(CartError::UpdateShoppingCartFailed { id }),
    }
}

/// Reads the reply to the replacement of the items of the cart of user
/// `id`: done, if the store has acknowledged the replacement, or a failure
/// naming the user.
pub fn update_shopping_cart_items(reply: &StoreReply, id: Uuid) -> (result: Result<(), CartError>)
    ensures
        result == items_updated(reply@, id),
{
    match reply {
        StoreReply::Written => Ok(()),
        _ => Err(CartError::UpdateShoppingCartFailed { id }),
    }
}


/// The mutation that adds a shopping cart item, between two steps.
///
/// It is idempotent by product variant: if the cart of the owner holds an
/// item of the variant, that item is the result and nothing is written.
/// Otherwise the owner and the variant must exist, and the new item is
/// appended with one update, which also sets the time of the last update
/// of the cart to the time at which the item was added.
#[derive(Clone, Copy, Debug, PartialEq, Eq, Structural)]
pub enum CreateShoppingCartItem {
    /// Asked for an item of the variant in the cart of the owner.
    FindExisting { user_id: Uuid, shoppingcart_item: ShoppingCartItem },
    /// Asked for the owner.
    ValidateUser { user_id: Uuid, shoppingcart_item: ShoppingCartItem },
    /// Asked for the product variant.
    ValidateProductVariant { user_id: Uuid, shoppingcart_item: ShoppingCartItem },
    /// Asked to append the item.
    Add { shoppingcart_item: ShoppingCartItem },
}

impl CreateShoppingCartItem {
    /// The first step: refuse a caller that is not the owner, else ask for
    /// an item of the variant in the cart of the owner.
    pub open spec fn spec_start(
        caller: Option<Uuid>,
        user_id: Uuid,
        shoppingcart_item: ShoppingCartItem,
    ) -> StepView<CreateShoppingCartItem, ShoppingCartItem> {
        if is_authorized(caller, user_id) {
            StepView::Ask(
                StoreRequestView::FindShoppingCartItemUserByProductVariant {
                    product_variant_id: shoppingcart_item.product_variant._id,
                    user_id,
                },
                CreateShoppingCartItem::FindExisting { user_id, shoppingcart_item },
            )
        } else {
            StepView::Done(Err(CartError::Unauthorized { owner: user_id }))
        }
    }

    /// Starts the mutation for `caller`, with the identity and the time
    /// that the new item gets if one is added.
    pub fn start_with(
        caller: Option<Uuid>,
        input: CreateShoppingCartItemInput,
        id: Uuid,
        current_timestamp: Timestamp,
    ) -> (step: Step<CreateShoppingCartItem, ShoppingCartItem>)
        ensures
            step@ == Self::spec_start(
                caller,
                input.id,
                minted_item(input.shopping_cart_item, id, current_timestamp),
            ),
    {
        let shoppingcart_item = mint_shoppingcart_item(
            &input.shopping_cart_item,
            id,
            current_timestamp,
        );
        match authorize_user(caller, input.id) {
            Ok(_) => Step::Ask(
                StoreRequest::FindShoppingCartItemUserByProductVariant {
                    product_variant_id: input.shopping_cart_item.product_variant_id,
                    user_id: input.id,
                },
                CreateShoppingCartItem::FindExisting { user_id: input.id, shoppingcart_item },
            ),
            Err(error) => Step::Done(Err(error)),
        }
    }

    /// Starts the mutation for `caller`. The identity of the new item is
    /// drawn at random and its time is read from the clock.
    pub fn start(caller: Option<Uuid>, input: CreateShoppingCartItemInput) -> (step: Step<
        CreateShoppingCartItem,
        ShoppingCartItem,
    >)
        ensures
            exists|id: Uuid, current_timestamp: Timestamp|
                step@ == Self::spec_start(
                    caller,
                    input.id,
                    #[trigger] minted_item(input.shopping_cart_item, id, current_timestamp),
                ),
    {
        let id = Uuid::new();
        let current_timestamp = Timestamp::now();
        let step = Self::start_with(caller, input, id, current_timestamp);
        assert(step@ == Self::spec_start(
            caller,
            input.id,
            minted_item(input.shopping_cart_item, id, current_timestamp),
        ));
        step
    }
}

impl Operation for CreateShoppingCartItem {
    type Output = ShoppingCartItem;

    /// The requests that may still follow the one that is awaited.
    open spec fn requests_left(self) -> nat {
        match self {
            CreateShoppingCartItem::FindExisting { .. } => 3,
            CreateShoppingCartItem::ValidateUser { .. } => 2,
            CreateShoppingCartItem::ValidateProductVariant { .. } => 1,
            CreateShoppingCartItem::Add { .. } => 0,
        }
    }

    /// The step that follows `reply`.
    open spec fn spec_resume(self, reply: StoreReplyView) -> StepView<
        CreateShoppingCartItem,
        ShoppingCartItem,
    > {
        match self {
            CreateShoppingCartItem::FindExisting { user_id, shoppingcart_item } =>
                match item_of_variant_of(reply, shoppingcart_item.product_variant._id, user_id) {
                    Ok(existing) => StepView::Done(Ok(existing)),
                    Err(_) => StepView::Ask(
                        StoreRequestView::FindUser { id: user_id },
                        CreateShoppingCartItem::ValidateUser { user_id, shoppingcart_item },
                    ),
                },
            CreateShoppingCartItem::ValidateUser { user_id, shoppingcart_item } =>
                match user_validated(reply, user_id) {
                    Ok(_) => StepView::Ask(
                        StoreRequestView::FindProductVariant {
                            id: shoppingcart_item.product_variant._id,
                        },
                        CreateShoppingCartItem::ValidateProductVariant {
                            user_id,
                            shoppingcart_item,
                        },
                    ),
                    Err(error) => StepView::Done(Err(error)),
                },
            CreateShoppingCartItem::ValidateProductVariant { user_id, shoppingcart_item } =>
                match variant_validated(reply, shoppingcart_item.product_variant._id) {
                    Ok(_) => StepView::Ask(
                        StoreRequestView::PushShoppingCartItem {
                            user_id,
                            shoppingcart_item,
                            last_updated_at: shoppingcart_item.added_at,
                        },
                        CreateShoppingCartItem::Add { shoppingcart_item },
                    ),
                    Err(error) => StepView::Done(Err(error)),
                },
            CreateShoppingCartItem::Add { shoppingcart_item } => StepView::Done(
                item_added(reply, shoppingcart_item),
            ),
        }
    }

    /// Resumes the mutation with the reply to what it asked.
    fn resume(self, reply: StoreReply) -> (step: Step<CreateShoppingCartItem, ShoppingCartItem>)
    {
        match self {
            CreateShoppingCartItem::FindExisting { user_id, shoppingcart_item } =>
                match query_shoppingcart_item_by_product_variant_id_and_user_id(
                    reply,
                    shoppingcart_item.product_variant._id,
                    user_id,
                ) {
                    Ok(existing) => Step::Done(Ok(existing)),
                    Err(_) => Step::Ask(
                        StoreRequest::FindUser { id: user_id },
                        CreateShoppingCartItem::ValidateUser { user_id, shoppingcart_item },
                    ),
                },
            CreateShoppingCartItem::ValidateUser { user_id, shoppingcart_item } =>
                match validate_user(reply, user_id) {
                    Ok(_) => Step::Ask(
                        StoreRequest::FindProductVariant {
                            id: shoppingcart_item.product_variant._id,
                        },
                        CreateShoppingCartItem::ValidateProductVariant {
                            user_id,
                            shoppingcart_item,
                        },
                    ),
                    Err(error) => Step::Done(Err(error)),
                },
            CreateShoppingCartItem::ValidateProductVariant { user_id, shoppingcart_item } => {
                let input = ShoppingCartItemInput {
                    count: shoppingcart_item.count,
                    product_variant_id: shoppingcart_item.product_variant._id,
                };
                match validate_shopping_cart_item(&reply, &input) {
                    Ok(_) => Step::Ask(
                        StoreRequest::PushShoppingCartItem {
                            user_id,
                            shoppingcart_item,
                            last_updated_at: shoppingcart_item.added_at,
                        },
                        CreateShoppingCartItem::Add { shoppingcart_item },
                    ),
                    Err(error) => Step::Done(Err(error)),
                }
            },
            CreateShoppingCartItem::Add { shoppingcart_item } => Step::Done(
                add_shoppingcart_item_to_monogdb(&reply, shoppingcart_item),
            ),
        }
    }
}


/// The mutation that replaces the items of a cart, between two steps.
///
/// The product variants of all new items are looked up with one request,
/// and one that is missing fails the whole mutation before anything is
/// written. Then the owner must exist. Then the items are replaced with
/// one update, and the cart is read back.
#[derive(Debug, PartialEq, Eq)]
pub enum UpdateShoppingCart {
    /// Asked for the product variants of the new items.
    ValidateItems {
        id: Uuid,
        shoppingcart_items: Vec<ShoppingCartItem>,
        last_updated_at: Timestamp,
    },
    /// Asked for the owner.
    ValidateUser {
        id: Uuid,
        shoppingcart_items: Vec<ShoppingCartItem>,
        last_updated_at: Timestamp,
    },
    /// Asked to replace the items.
    Write { id: Uuid },
    /// Asked for the cart as it now is.
    Read { id: Uuid },
}

impl UpdateShoppingCart {
    /// The first step: refuse a caller that is not the owner; with no new
    /// items, only read the cart; else ask for the product variants of the
    /// new items.
    pub open spec fn spec_start(
        caller: Option<Uuid>,
        id: Uuid,
        shoppingcart_items: Option<Vec<ShoppingCartItem>>,
        last_updated_at: Timestamp,
    ) -> StepView<UpdateShoppingCart, ShoppingCartView> {
        if !is_authorized(caller, id) {
            StepView::Done(Err(CartError::Unauthorized { owner: id }))
        } else {
            match shoppingcart_items {
                Some(shoppingcart_items) => StepView::Ask(
                    StoreRequestView::FindProductVariants {
                        ids: variant_ids_of(shoppingcart_items@),
                    },
                    UpdateShoppingCart::ValidateItems { id, shoppingcart_items, last_updated_at },
                ),
                None => StepView::Ask(
                    StoreRequestView::FindUser { id },
                    UpdateShoppingCart::Read { id },
                ),
            }
        }
    }

    /// Starts the mutation for `caller`, with the items to put into the
    /// cart of user `id`, if any, and the time of the update.
    pub fn start_with(
        caller: Option<Uuid>,
        id: Uuid,
        shoppingcart_items: Option<Vec<ShoppingCartItem>>,
        last_updated_at: Timestamp,
    ) -> (step: Step<UpdateShoppingCart, ShoppingCart>)
        ensures
            step@ == Self::spec_start(caller, id, shoppingcart_items, last_updated_at),
    {
        match authorize_user(caller, id) {
            Ok(_) => match shoppingcart_items {
                Some(shoppingcart_items) => Step::Ask(
                    StoreRequest::FindProductVariants {
                        ids: product_variant_ids(&shoppingcart_items),
                    },
                    UpdateShoppingCart::ValidateItems { id, shoppingcart_items, last_updated_at },
                ),
                None => Step::Ask(StoreRequest::FindUser { id }, UpdateShoppingCart::Read { id }),
            },
            Err(error) => Step::Done(Err(error)),
        }
    }

    /// Starts the mutation for `caller`. The time of the update is read
    /// from the clock, and a freshly identified item is made for each item
    /// input.
    pub fn start(caller: Option<Uuid>, input: &UpdateShoppingCartInput) -> (step: Step<
        UpdateShoppingCart,
        ShoppingCart,
    >)
        ensures
            exists|shoppingcart_items: Option<Vec<ShoppingCartItem>>, current_timestamp: Timestamp|
                #![trigger Self::spec_start(
                    caller,
                    input.id,
                    shoppingcart_items,
                    current_timestamp,
                )]
                {
                    &&& step@ == Self::spec_start(
                        caller,
                        input.id,
                        shoppingcart_items,
                        current_timestamp,
                    )
                    &&& minted_for(shoppingcart_items, input.items(), current_timestamp)
                },
    {
        let current_timestamp = Timestamp::now();
        let shoppingcart_items = match &input.shopping_cart_items {
            Some(inputs) => Some(normalize_shopping_cart_items(inputs, current_timestamp)),
            None => None,
        };
        let ghost minted = shoppingcart_items;
        let step = Self::start_with(caller, input.id, shoppingcart_items, current_timestamp);
        assert(step@ == Self::spec_start(caller, input.id, minted, current_timestamp));
        assert(minted_for(minted, input.items(), current_timestamp));
        step
    }
}

impl Operation for UpdateShoppingCart {
    type Output = ShoppingCart;

    /// The requests that may still follow the one that is awaited.
    open spec fn requests_left(self) -> nat {
        match self {
            UpdateShoppingCart::ValidateItems { .. } => 3,
            UpdateShoppingCart::ValidateUser { .. } => 2,
            UpdateShoppingCart::Write { .. } => 1,
            UpdateShoppingCart::Read { .. } => 0,
        }
    }

    /// The step that follows `reply`.
    open spec fn spec_resume(self, reply: StoreReplyView) -> StepView<
        UpdateShoppingCart,
        ShoppingCartView,
    > {
        match self {
            UpdateShoppingCart::ValidateItems { id, shoppingcart_items, last_updated_at } =>
                match variants_validated(reply, shoppingcart_items@) {
                    Ok(_) => StepView::Ask(
                        StoreRequestView::FindUser { id },
                        UpdateShoppingCart::ValidateUser {
                            id,
                            shoppingcart_items,
                            last_updated_at,
                        },
                    ),
                    Err(error) => StepView::Done(Err(error)),
                },
            UpdateShoppingCart::ValidateUser { id, shoppingcart_items, last_updated_at } =>
                match user_validated(reply, id) {
                    Ok(_) => StepView::Ask(
                        StoreRequestView::SetShoppingCartItems {
                            user_id: id,
                            shoppingcart_items: shoppingcart_items@,
                            last_updated_at,
                        },
                        UpdateShoppingCart::Write { id },
                    ),
                    Err(error) => StepView::Done(Err(error)),
                },
            UpdateShoppingCart::Write { id } => match items_updated(reply, id) {
                Ok(_) => StepView::Ask(
                    StoreRequestView::FindUser { id },
                    UpdateShoppingCart::Read { id },
                ),
                Err(error) => StepView::Done(Err(error)),
            },
            UpdateShoppingCart::Read { id } => StepView::Done(shoppingcart_of(reply, id)),
        }
    }

    /// Resumes the mutation with the reply to what it asked.
    fn resume(self, reply: StoreReply) -> (step: Step<UpdateShoppingCart, ShoppingCart>)
    {
        match self {
            UpdateShoppingCart::ValidateItems { id, shoppingcart_items, last_updated_at } =>
                match validate_shopping_cart_items(&reply, &shoppingcart_items) {
                    Ok(_) => Step::Ask(
                        StoreRequest::FindUser { id },
                        UpdateShoppingCart::ValidateUser {
                            id,
                            shoppingcart_items,
                            last_updated_at,
                        },
                    ),
                    Err(error) => Step::Done(Err(error)),
                },
            UpdateShoppingCart::ValidateUser { id, shoppingcart_items, last_updated_at } =>
                match validate_user(reply, id) {
                    Ok(_) => Step::Ask(
                        StoreRequest::SetShoppingCartItems {
                            user_id: id,
                            shoppingcart_items,
                            last_updated_at,
                        },
                        UpdateShoppingCart::Write { id },
                    ),
                    Err(error) => Step::Done(Err(error)),
                },
            UpdateShoppingCart::Write { id } => match update_shopping_cart_items(&reply, id) {
                Ok(_) => Step::Ask(StoreRequest::FindUser { id }, UpdateShoppingCart::Read { id }),
                Err(error) => Step::Done(Err(error)),
            },
            UpdateShoppingCart::Read { id } => Step::Done(query_shoppingcart(reply, id)),
        }
    }
}

/// The items, if any, are those made for the inputs, if any.
pub open spec fn minted_for(
    shoppingcart_items: Option<Vec<ShoppingCartItem>>,
    inputs: Option<Seq<ShoppingCartItemInput>>,
    added_at: Timestamp,
) -> bool {
    match (shoppingcart_items, inputs) {
        (Some(shoppingcart_items), Some(inputs)) => minted_from(
            shoppingcart_items@,
            inputs,
            added_at,
        ),
        (None, None) => true,
        _ => false,
    }
}

/// What the reply to a write to the item `id` means: done, once the store
/// has acknowledged it, or the given failure.
pub open spec fn written_or(reply: StoreReplyView, error: CartError) -> Result<(), CartError> {
    match reply {
        StoreReplyView::Written => Ok(()),
        _ => Err(error),
    }
}

/// Whether the store acknowledged a write.
fn acknowledged(reply: &StoreReply, error: CartError) -> (result: Result<(), CartError>)
    ensures
        result == written_or(reply@, error),
{
    match reply {
        StoreReply::Written => Ok(()),
        _ => Err(error),
    }
}

/// The mutation that changes the count of one shopping cart item, between
/// two steps.
///
/// The owning user is located through the item, the caller must be that
/// user, the count of just that item and the time of the last update of
/// the cart are set with one update, and the item is read back.
#[derive(Clone, Copy, Debug, PartialEq, Eq, Structural)]
pub enum UpdateShoppingCartItem {
    /// Asked for the user that holds the item.
    Locate { caller: Option<Uuid>, input: UpdateShoppingCartItemInput, last_updated_at: Timestamp },
    /// Asked to set the count.
    Write { id: Uuid },
    /// Asked for the item as it now is.
    Read { id: Uuid },
}

impl UpdateShoppingCartItem {
    /// The first step: ask for the user that holds the item.
    pub open spec fn spec_start(
        caller: Option<Uuid>,
        input: UpdateShoppingCartItemInput,
        last_updated_at: Timestamp,
    ) -> StepView<UpdateShoppingCartItem, ShoppingCartItem> {
        StepView::Ask(
            StoreRequestView::FindShoppingCartItemUser { id: input.id },
            UpdateShoppingCartItem::Locate { caller, input, last_updated_at },
        )
    }

    /// Starts the mutation for `caller`, with the time that the cart gets
    /// as the time of its last update.
    pub fn start_with(
        caller: Option<Uuid>,
        input: UpdateShoppingCartItemInput,
        current_timestamp: Timestamp,
    ) -> (step: Step<UpdateShoppingCartItem, ShoppingCartItem>)
        ensures
            step@ == Self::spec_start(caller, input, current_timestamp),
    {
        Step::Ask(
            StoreRequest::FindShoppingCartItemUser { id: input.id },
            UpdateShoppingCartItem::Locate { caller, input, last_updated_at: current_timestamp },
        )
    }

    /// Starts the mutation for `caller`. The time of the update is read
    /// from the clock.
    pub fn start(caller: Option<Uuid>, input: UpdateShoppingCartItemInput) -> (step: Step<
        UpdateShoppingCartItem,
        ShoppingCartItem,
    >)
        ensures
            exists|current_timestamp: Timestamp|
                step@ == #[trigger] Self::spec_start(caller, input, current_timestamp),
    {
        let current_timestamp = Timestamp::now();
        let step = Self::start_with(caller, input, current_timestamp);
        assert(step@ == Self::spec_start(caller, input, current_timestamp));
        step
    }
}

impl Operation for UpdateShoppingCartItem {
    type Output = ShoppingCartItem;

    /// The requests that may still follow the one that is awaited.
    open spec fn requests_left(self) -> nat {
        match self {
            UpdateShoppingCartItem::Locate { .. } => 2,
            UpdateShoppingCartItem::Write { .. } => 1,
            UpdateShoppingCartItem::Read { .. } => 0,
        }
    }

    /// The step that follows `reply`.
    open spec fn spec_resume(self, reply: StoreReplyView) -> StepView<
        UpdateShoppingCartItem,
        ShoppingCartItem,
    > {
        match self {
            UpdateShoppingCartItem::Locate { caller, input, last_updated_at } => match item_user_of(
                reply,
                input.id,
            ) {
                Ok(user) => if is_authorized(caller, user._id) {
                    StepView::Ask(
                        StoreRequestView::SetShoppingCartItemCount {
                            id: input.id,
                            count: input.count,
                            last_updated_at,
                        },
                        UpdateShoppingCartItem::Write { id: input.id },
                    )
                } else {
                    StepView::Done(Err(CartError::Unauthorized { owner: user._id }))
                },
                Err(error) => StepView::Done(Err(error)),
            },
            UpdateShoppingCartItem::Write { id } => match written_or(
                reply,
                CartError::UpdateShoppingCartItemFailed { id },
            ) {
                Ok(_) => StepView::Ask(
                    StoreRequestView::FindShoppingCartItemUser { id },
                    UpdateShoppingCartItem::Read { id },
                ),
                Err(error) => StepView::Done(Err(error)),
            },
            UpdateShoppingCartItem::Read { id } => StepView::Done(item_of(reply, id)),
        }
    }

    /// Resumes the mutation with the reply to what it asked.
    fn resume(self, reply: StoreReply) -> (step: Step<UpdateShoppingCartItem, ShoppingCartItem>)
    {
        match self {
            UpdateShoppingCartItem::Locate { caller, input, last_updated_at } =>
                match query_shoppingcart_item_user(reply, input.id) {
                    Ok(user) => match authorize_user(caller, user._id) {
                        Ok(_) => Step::Ask(
                            StoreRequest::SetShoppingCartItemCount {
                                id: input.id,
                                count: input.count,
                                last_updated_at,
                            },
                            UpdateShoppingCartItem::Write { id: input.id },
                        ),
                        Err(error) => Step::Done(Err(error)),
                    },
                    Err(error) => Step::Done(Err(error)),
                },
            UpdateShoppingCartItem::Write { id } => match acknowledged(
                &reply,
                CartError::UpdateShoppingCartItemFailed { id },
            ) {
                Ok(_) => Step::Ask(
                    StoreRequest::FindShoppingCartItemUser { id },
                    UpdateShoppingCartItem::Read { id },
                ),
                Err(error) => Step::Done(Err(error)),
            },
            UpdateShoppingCartItem::Read { id } => Step::Done(query_shoppingcart_item(reply, id)),
        }
    }
}

/// What the lookup of the user that holds the item `id` means to the
/// deletion of the item: the user to remove it from; none, if no cart holds
/// the item, so that nothing is left to delete; or a failure, if the
/// lookup itself failed.
pub open spec fn holder_of(reply: StoreReplyView, id: Uuid) -> Result<Option<UserView>, CartError> {
    match reply {
        StoreReplyView::User(found) => Ok(found),
        _ => Err(CartError::ShoppingCartItemNotFound { id }),
    }
}

/// Reads from the reply to the lookup of the user that holds the item `id`
/// whether a cart holds the item, and whose.
fn holder(reply: StoreReply, id: Uuid) -> (result: Result<Option<User>, CartError>)
    ensures
        match result {
            Ok(Some(user)) => holder_of(reply@, id) == Ok::<Option<UserView>, CartError>(
                Some(user@),
            ),
            Ok(None) => holder_of(reply@, id) == Ok::<Option<UserView>, CartError>(None),
            Err(error) => holder_of(reply@, id) == Err::<Option<UserView>, CartError>(error),
        },
{
    match reply {
        StoreReply::User(found) => Ok(found),
        _ => Err(CartError::ShoppingCartItemNotFound { id }),
    }
}

/// The mutation that deletes one shopping cart item, between two steps.
///
/// The owning user is located through the item. If no cart holds the item
/// the deletion is done: deleting is idempotent. Else the caller must be
/// the user whose cart holds it, and the item is removed and the time of
/// the last update of the cart set with one update.
#[derive(Clone, Copy, Debug, PartialEq, Eq, Structural)]
pub enum DeleteShoppingCartItem {
    /// Asked for the user that holds the item.
    Locate { caller: Option<Uuid>, id: Uuid, last_updated_at: Timestamp },
    /// Asked to remove the item.
    Write { id: Uuid },
}

impl DeleteShoppingCartItem {
    /// The first step: ask for the user that holds the item.
    pub open spec fn spec_start(caller: Option<Uuid>, id: Uuid, last_updated_at: Timestamp)
        -> StepView<DeleteShoppingCartItem, bool> {
        StepView::Ask(
            StoreRequestView::FindShoppingCartItemUser { id },
            DeleteShoppingCartItem::Locate { caller, id, last_updated_at },
        )
    }

    /// Starts the mutation for `caller`, with the time that the cart gets
    /// as the time of its last update.
    pub fn start_with(caller: Option<Uuid>, id: Uuid, current_timestamp: Timestamp) -> (step: Step<
        DeleteShoppingCartItem,
        bool,
    >)
        ensures
            step@ == Self::spec_start(caller, id, current_timestamp),
    {
        Step::Ask(
            StoreRequest::FindShoppingCartItemUser { id },
            DeleteShoppingCartItem::Locate { caller, id, last_updated_at: current_timestamp },
        )
    }

    /// Starts the mutation for `caller`. The time of the update is read
    /// from the clock.
    pub fn start(caller: Option<Uuid>, id: Uuid) -> (step: Step<DeleteShoppingCartItem, bool>)
        ensures
            exists|current_timestamp: Timestamp|
                step@ == #[trigger] Self::spec_start(caller, id, current_timestamp),
    {
        let current_timestamp = Timestamp::now();
        let step = Self::start_with(caller, id, current_timestamp);
        assert(step@ == Self::spec_start(caller, id, current_timestamp));
        step
    }
}

impl Operation for DeleteShoppingCartItem {
    type Output = bool;

    /// The requests that may still follow the one that is awaited.
    open spec fn requests_left(self) -> nat {
        match self {
            DeleteShoppingCartItem::Locate { .. } => 1,
            DeleteShoppingCartItem::Write { .. } => 0,
        }
    }

    /// The step that follows `reply`.
    open spec fn spec_resume(self, reply: StoreReplyView) -> StepView<
        DeleteShoppingCartItem,
        bool,
    > {
        match self {
            DeleteShoppingCartItem::Locate { caller, id, last_updated_at } => match holder_of(
                reply,
                id,
            ) {
                Ok(Some(user)) => if is_authorized(caller, user._id) {
                    StepView::Ask(
                        StoreRequestView::PullShoppingCartItem { id, last_updated_at },
                        DeleteShoppingCartItem::Write { id },
                    )
                } else {
                    StepView::Done(Err(CartError::Unauthorized { owner: user._id }))
                },
                Ok(None) => StepView::Done(Ok(true)),
                Err(error) => StepView::Done(Err(error)),
            },
            DeleteShoppingCartItem::Write { id } => match written_or(
                reply,
                CartError::DeleteShoppingCartItemFailed { id },
            ) {
                Ok(_) => StepView::Done(Ok(true)),
                Err(error) => StepView::Done(Err(error)),
            },
        }
    }

    /// Resumes the mutation with the reply to what it asked.
    fn resume(self, reply: StoreReply) -> (step: Step<DeleteShoppingCartItem, bool>)
    {
        match self {
            DeleteShoppingCartItem::Locate { caller, id, last_updated_at } => match holder(
                reply,
                id,
            ) {
                Ok(Some(user)) => match authorize_user(caller, user._id) {
                    Ok(_) => Step::Ask(
                        StoreRequest::PullShoppingCartItem { id, last_updated_at },
                        DeleteShoppingCartItem::Write { id },
                    ),
                    Err(error) => Step::Done(Err(error)),
                },
                Ok(None) => Step::Done(Ok(true)),
                Err(error) => Step::Done(Err(error)),
            },
            DeleteShoppingCartItem::Write { id } => match acknowledged(
                &reply,
                CartError::DeleteShoppingCartItemFailed { id },
            ) {
                Ok(_) => Step::Done(Ok(true)),
                Err(error) => Step::Done(Err(error)),
            },
        }
    }
}

/// What changing the count of the item `id` does to the store and what it
/// returns.
///
/// The item must be held by a cart, and the caller must be the user whose
/// cart it is. Then the count of that item is set and the time of the last
/// update of the cart is set to `last_updated_at`, nothing else changes,
/// and the item with its new count is returned.
pub open spec fn item_count_updated(
    database: DatabaseView,
    caller: Option<Uuid>,
    id: Uuid,
    count: u32,
    last_updated_at: Timestamp,
) -> (DatabaseView, Result<ShoppingCartItem, CartError>) {
    match database.item(id) {
        None => (database, Err(CartError::ShoppingCartItemNotFound { id })),
        Some((owner, shoppingcart_item)) => if !is_authorized(caller, owner) {
            (database, Err(CartError::Unauthorized { owner }))
        } else {
            (
                database.apply(
                    StoreRequestView::SetShoppingCartItemCount { id, count, last_updated_at },
                ).0,
                Ok(with_count(shoppingcart_item, count)),
            )
        },
    }
}

/// What deleting the item `id` does to the store and what it returns.
///
/// If no cart holds the item, nothing changes and `true` is returned,
/// whoever calls. Else the caller must be the user whose cart holds it;
/// then the item is removed from that cart and the time of the last update
/// of the cart is set to `last_updated_at`, nothing else changes, and
/// `true` is returned.
pub open spec fn item_deleted(
    database: DatabaseView,
    caller: Option<Uuid>,
    id: Uuid,
    last_updated_at: Timestamp,
) -> (DatabaseView, Result<bool, CartError>) {
    match database.item(id) {
        None => (database, Ok(true)),
        Some((owner, _)) => if !is_authorized(caller, owner) {
            (database, Err(CartError::Unauthorized { owner }))
        } else {
            (
                database.apply(StoreRequestView::PullShoppingCartItem { id, last_updated_at }).0,
                Ok(true),
            )
        },
    }
}

/// What adding an item does to the store and what it returns.
///
/// A caller that is not the owner is refused. Else, if the cart of the
/// owner holds an item of the product variant, the first such item is
/// returned and the store is left as it is. Else the owner and the variant
/// must be stored, and `shoppingcart_item` is appended to the cart, the
/// time of the last update of the cart is set to the time at which the
/// item was added, and the item is returned.
pub open spec fn item_created(
    database: DatabaseView,
    caller: Option<Uuid>,
    user_id: Uuid,
    shoppingcart_item: ShoppingCartItem,
) -> (DatabaseView, Result<ShoppingCartItem, CartError>) {
    let product_variant_id = shoppingcart_item.product_variant._id;
    if !is_authorized(caller, user_id) {
        (database, Err(CartError::Unauthorized { owner: user_id }))
    } else {
        match find_first(database.users, user_holds_variant(product_variant_id, user_id)) {
            Some(user) => (
                database,
                Ok(
                    user.shoppingcart.items[first_index(
                        user.shoppingcart.items,
                        item_of_variant(product_variant_id),
                    )],
                ),
            ),
            None => if database.user(user_id) is None {
                (database, Err(CartError::UserNotPresent { id: user_id }))
            } else if !database.knows_variant(product_variant_id) {
                (database, Err(CartError::ProductVariantNotPresent { id: product_variant_id }))
            } else {
                (
                    database.apply(
                        StoreRequestView::PushShoppingCartItem {
                            user_id,
                            shoppingcart_item,
                            last_updated_at: shoppingcart_item.added_at,
                        },
                    ).0,
                    Ok(shoppingcart_item),
                )
            },
        }
    }
}

/// What replacing the items of a cart does to the store and what it
/// returns.
///
/// A caller that is not the owner is refused. With no new items the cart
/// is returned as it is. Else every new item must refer to a stored
/// product variant, the first that does not being named, and the owner
/// must be stored; only then the items of the cart are replaced and the
/// time of its last update is set, and the new cart is returned.
pub open spec fn cart_replaced(
    database: DatabaseView,
    caller: Option<Uuid>,
    id: Uuid,
    shoppingcart_items: Option<Seq<ShoppingCartItem>>,
    last_updated_at: Timestamp,
) -> (DatabaseView, Result<ShoppingCartView, CartError>) {
    if !is_authorized(caller, id) {
        (database, Err(CartError::Unauthorized { owner: id }))
    } else {
        match shoppingcart_items {
            None => (
                database,
                match database.user(id) {
                    Some(user) => Ok(user.shoppingcart),
                    None => Err(CartError::ShoppingCartNotFound { id }),
                },
            ),
            Some(shoppingcart_items) => {
                let missing = first_index(
                    shoppingcart_items,
                    refers_to_none_of(database.product_variants),
                );
                if missing < shoppingcart_items.len() {
                    (
                        database,
                        Err(
                            CartError::ProductVariantNotPresent {
                                id: shoppingcart_items[missing].product_variant._id,
                            },
                        ),
                    )
                } else if database.user(id) is None {
                    (database, Err(CartError::UserNotPresent { id }))
                } else {
                    (
                        database.apply(
                            StoreRequestView::SetShoppingCartItems {
                                user_id: id,
                                shoppingcart_items,
                                last_updated_at,
                            },
                        ).0,
                        Ok(ShoppingCartView { last_updated_at, items: shoppingcart_items }),
                    )
                }
            },
        }
    }
}

/// An item refers to one of the product variants that the batch lookup
/// for the items returns exactly when it refers to a stored one.
pub proof fn lemma_batch_lookup_finds_stored(
    product_variants: Seq<ProductVariant>,
    shoppingcart_items: Seq<ShoppingCartItem>,
)
    ensures
        first_index(
            shoppingcart_items,
            refers_to_none_of(
                product_variants.filter(variant_among(variant_ids_of(shoppingcart_items))),
            ),
        ) == first_index(shoppingcart_items, refers_to_none_of(product_variants)),
{
    let ids = variant_ids_of(shoppingcart_items);
    let found = product_variants.filter(variant_among(ids));
    assert forall|k: int| 0 <= k < shoppingcart_items.len() implies refers_to_none_of(found)(
        #[trigger] shoppingcart_items[k],
    ) == refers_to_none_of(product_variants)(shoppingcart_items[k]) by {
        let product_variant = shoppingcart_items[k].product_variant;
        assert(ids[k] == product_variant._id);
        if found.contains(product_variant) {
            product_variants.lemma_filter_contains_rev(variant_among(ids), product_variant);
        }
        if product_variants.contains(product_variant) {
            let i = choose|i: int|
                0 <= i < product_variants.len() && product_variants[i] == product_variant;
            assert(variant_among(ids)(product_variants[i]));
            product_variants.lemma_filter_contains(variant_among(ids), i);
        }
    }
    lemma_first_index_agrees(
        shoppingcart_items,
        refers_to_none_of(found),
        refers_to_none_of(product_variants),
    );
}

/// Run against the in-memory store, the addition of an item does what
/// `item_created` says.
pub proof fn lemma_item_created(
    database: DatabaseView,
    caller: Option<Uuid>,
    user_id: Uuid,
    shoppingcart_item: ShoppingCartItem,
)
    ensures
        completed(database, CreateShoppingCartItem::spec_start(caller, user_id, shoppingcart_item))
            == item_created(database, caller, user_id, shoppingcart_item),
{
    reveal_with_fuel(completed, 5);
}

/// Run against the in-memory store, the replacement of the items of a cart
/// does what `cart_replaced` says.
pub proof fn lemma_cart_replaced(
    database: DatabaseView,
    caller: Option<Uuid>,
    id: Uuid,
    shoppingcart_items: Option<Vec<ShoppingCartItem>>,
    last_updated_at: Timestamp,
)
    ensures
        completed(
            database,
            UpdateShoppingCart::spec_start(caller, id, shoppingcart_items, last_updated_at),
        ) == cart_replaced(database, caller, id, items_view(shoppingcart_items), last_updated_at),
{
    reveal_with_fuel(completed, 5);
    if let Some(items) = items_view(shoppingcart_items) {
        lemma_batch_lookup_finds_stored(database.product_variants, items);
        lemma_find_after_update(database.users, id, cart_replaced_by(items, last_updated_at));
    }
}

/// Run against the in-memory store, the change of a count does what
/// `item_count_updated` says.
pub proof fn lemma_item_count_updated(
    database: DatabaseView,
    caller: Option<Uuid>,
    input: UpdateShoppingCartItemInput,
    last_updated_at: Timestamp,
)
    ensures
        completed(database, UpdateShoppingCartItem::spec_start(caller, input, last_updated_at))
            == item_count_updated(database, caller, input.id, input.count, last_updated_at),
{
    reveal_with_fuel(completed, 4);
    lemma_item_after_count(database, input.id, input.count, last_updated_at);
}

/// Run against the in-memory store, the deletion of an item does what
/// `item_deleted` says.
pub proof fn lemma_item_deleted(
    database: DatabaseView,
    caller: Option<Uuid>,
    id: Uuid,
    last_updated_at: Timestamp,
)
    ensures
        completed(database, DeleteShoppingCartItem::spec_start(caller, id, last_updated_at))
            == item_deleted(database, caller, id, last_updated_at),
{
    reveal_with_fuel(completed, 3);
}

/// Describes the shopping cart mutations, run against the in-memory store.
#[derive(Clone, Copy, Debug, Default, PartialEq, Eq)]
pub struct Mutation;

impl Mutation {
    /// Adds a shopping cart item to the cart of `input.id` for `caller`,
    /// with the identity and the time that the new item gets if one is
    /// added.
    pub fn create_shoppingcart_item_with(
        &self,
        database: &mut Database,
        caller: Option<Uuid>,
        input: CreateShoppingCartItemInput,
        id: Uuid,
        current_timestamp: Timestamp,
    ) -> (result: Result<ShoppingCartItem, CartError>)
        ensures
            (final(database)@, result) == item_created(
                old(database)@,
                caller,
                input.id,
                minted_item(input.shopping_cart_item, id, current_timestamp),
            ),
            old(database)@.wf() ==> final(database)@.wf(),
    {
        proof {
            lemma_item_created(
                database@,
                caller,
                input.id,
                minted_item(input.shopping_cart_item, id, current_timestamp),
            );
        }
        let step = CreateShoppingCartItem::start_with(caller, input, id, current_timestamp);
        database.run(step)
    }

    /// Adds a shopping cart item to the cart of `input.id` for `caller`.
    /// Queries for an existing item of the product variant, otherwise adds
    /// a new one, whose identity is drawn at random and whose time is read
    /// from the clock.
    pub fn create_shoppingcart_item(
        &self,
        database: &mut Database,
        caller: Option<Uuid>,
        input: CreateShoppingCartItemInput,
    ) -> (result: Result<ShoppingCartItem, CartError>)
        ensures
            exists|id: Uuid, current_timestamp: Timestamp|
                (final(database)@, result) == item_created(
                    old(database)@,
                    caller,
                    input.id,
                    #[trigger] minted_item(input.shopping_cart_item, id, current_timestamp),
                ),
            old(database)@.wf() ==> final(database)@.wf(),
    {
        let id = Uuid::new();
        let current_timestamp = Timestamp::now();
        let result = self.create_shoppingcart_item_with(
            database,
            caller,
            input,
            id,
            current_timestamp,
        );
        assert((database@, result) == item_created(
            old(database)@,
            caller,
            input.id,
            minted_item(input.shopping_cart_item, id, current_timestamp),
        ));
        result
    }

    /// Replaces the shopping cart items of the cart of user `id` for
    /// `caller` with the given items, if any, and sets the time of the
    /// update.
    pub fn update_shoppingcart_with(
        &self,
        database: &mut Database,
        caller: Option<Uuid>,
        id: Uuid,
        shoppingcart_items: Option<Vec<ShoppingCartItem>>,
        last_updated_at: Timestamp,
    ) -> (result: Result<ShoppingCart, CartError>)
        ensures
            (final(database)@, cart_result(result)) == cart_replaced(
                old(database)@,
                caller,
                id,
                items_view(shoppingcart_items),
                last_updated_at,
            ),
            old(database)@.wf() ==> final(database)@.wf(),
    {
        proof {
            lemma_cart_replaced(database@, caller, id, shoppingcart_items, last_updated_at);
        }
        let step = UpdateShoppingCart::start_with(caller, id, shoppingcart_items, last_updated_at);
        database.run(step)
    }

    /// Updates the shopping cart items of the cart of user `input.id` for
    /// `caller`. A freshly identified item is made for each item input,
    /// all added at the time read from the clock.
    pub fn update_shoppingcart(
        &self,
        database: &mut Database,
        caller: Option<Uuid>,
        input: &UpdateShoppingCartInput,
    ) -> (result: Result<ShoppingCart, CartError>)
        ensures
            exists|shoppingcart_items: Option<Vec<ShoppingCartItem>>, current_timestamp: Timestamp|
                #![trigger cart_replaced(
                    old(database)@,
                    caller,
                    input.id,
                    items_view(shoppingcart_items),
                    current_timestamp,
                )]
                {
                    &&& (final(database)@, cart_result(result)) == cart_replaced(
                        old(database)@,
                        caller,
                        input.id,
                        items_view(shoppingcart_items),
                        current_timestamp,
                    )
                    &&& minted_for(shoppingcart_items, input.items(), current_timestamp)
                },
            old(database)@.wf() ==> final(database)@.wf(),
    {
        let current_timestamp = Timestamp::now();
        let shoppingcart_items = match &input.shopping_cart_items {
            Some(inputs) => Some(normalize_shopping_cart_items(inputs, current_timestamp)),
            None => None,
        };
        let ghost minted = shoppingcart_items;
        let result = self.update_shoppingcart_with(
            database,
            caller,
            input.id,
            shoppingcart_items,
            current_timestamp,
        );
        assert((database@, cart_result(result)) == cart_replaced(
            old(database)@,
            caller,
            input.id,
            items_view(minted),
            current_timestamp,
        ));
        assert(minted_for(minted, input.items(), current_timestamp));
        result
    }

    /// Updates the count of a single shopping cart item for `caller`, with
    /// the time that the cart gets as the time of its last update.
    pub fn update_shoppingcart_item_with(
        &self,
        database: &mut Database,
        caller: Option<Uuid>,
        input: UpdateShoppingCartItemInput,
        current_timestamp: Timestamp,
    ) -> (result: Result<ShoppingCartItem, CartError>)
        ensures
            (final(database)@, result) == item_count_updated(
                old(database)@,
                caller,
                input.id,
                input.count,
                current_timestamp,
            ),
            old(database)@.wf() ==> final(database)@.wf(),
    {
        proof {
            lemma_item_count_updated(database@, caller, input, current_timestamp);
        }
        let step = UpdateShoppingCartItem::start_with(caller, input, current_timestamp);
        database.run(step)
    }

    /// Updates the count of a single shopping cart item for `caller`. The
    /// time of the update is read from the clock.
    pub fn update_shoppingcart_item(
        &self,
        database: &mut Database,
        caller: Option<Uuid>,
        input: UpdateShoppingCartItemInput,
    ) -> (result: Result<ShoppingCartItem, CartError>)
        ensures
            exists|current_timestamp: Timestamp|
                (final(database)@, result) == #[trigger] item_count_updated(
                    old(database)@,
                    caller,
                    input.id,
                    input.count,
                    current_timestamp,
                ),
            old(database)@.wf() ==> final(database)@.wf(),
    {
        let current_timestamp = Timestamp::now();
        let result = self.update_shoppingcart_item_with(database, caller, input, current_timestamp);
        assert((database@, result) == item_count_updated(
            old(database)@,
            caller,
            input.id,
            input.count,
            current_timestamp,
        ));
        result
    }

    /// Deletes the shopping cart item `id` for `caller`, with the time that
    /// the cart gets as the time of its last update.
    pub fn delete_shoppingcart_item_with(
        &self,
        database: &mut Database,
        caller: Option<Uuid>,
        id: Uuid,
        current_timestamp: Timestamp,
    ) -> (result: Result<bool, CartError>)
        ensures
            (final(database)@, result) == item_deleted(
                old(database)@,
                caller,
                id,
                current_timestamp,
            ),
            old(database)@.wf() ==> final(database)@.wf(),
    {
        proof {
            lemma_item_deleted(database@, caller, id, current_timestamp);
        }
        let step = DeleteShoppingCartItem::start_with(caller, id, current_timestamp);
        database.run(step)
    }

    /// Deletes the shopping cart item `id` for `caller`. The time of the
    /// update is read from the clock.
    pub fn delete_shoppingcart_item(
        &self,
        database: &mut Database,
        caller: Option<Uuid>,
        id: Uuid,
    ) -> (result: Result<bool, CartError>)
        ensures
            exists|current_timestamp: Timestamp|
                (final(database)@, result) == #[trigger] item_deleted(
                    old(database)@,
                    caller,
                    id,
                    current_timestamp,
                ),
            old(database)@.wf() ==> final(database)@.wf(),
    {
        let current_timestamp = Timestamp::now();
        let result = self.delete_shoppingcart_item_with(database, caller, id, current_timestamp);
        assert((database@, result) == item_deleted(old(database)@, caller, id, current_timestamp));
        result
    }
}

/// The value of optional items.
pub open spec fn items_view(shoppingcart_items: Option<Vec<ShoppingCartItem>>) -> Option<
    Seq<ShoppingCartItem>,
> {
    match shoppingcart_items {
        Some(shoppingcart_items) => Some(shoppingcart_items@),
        None => None,
    }
}

} // verus!
