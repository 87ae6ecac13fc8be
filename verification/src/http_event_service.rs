//! Event ingestion: the topics this service subscribes to, and what an
//! inbound event does to the projection.
//!
//! The bus delivers at least once and in no particular order, so every
//! handler tolerates a second delivery of the same event.

use vstd::prelude::*;
use vstd::string::*;
use crate::error::CartError;
use crate::ids::{Timestamp, Uuid};
use crate::shoppingcart::{ShoppingCart, ShoppingCartView};
use crate::shoppingcart_item::ProductVariant;
use crate::store::{
    completed,
    Database,
    DatabaseView,
    Operation,
    Step,
    StepView,
    StoreReply,
    StoreReplyView,
    StoreRequest,
    StoreRequestView,
};
use crate::user::{User, UserView};

verus! {

/// Describes a subscription to the event bus.
#[derive(Debug, PartialEq, Eq)]
pub struct Pubsub {
    pub pubsubname: String,
    pub topic: String,
    pub route: String,
}

/// The mathematical value of a subscription.
pub struct PubsubView {
    pub pubsubname: Seq<char>,
    pub topic: Seq<char>,
    pub route: Seq<char>,
}

impl View for Pubsub {
    type V = PubsubView;

    open spec fn view(&self) -> PubsubView {
        PubsubView { pubsubname: self.pubsubname@, topic: self.topic@, route: self.route@ }
    }
}

/// Response to the event bus when an event was handled.
#[derive(Clone, Copy, Debug, PartialEq, Eq, Structural)]
pub struct TopicEventResponse {
    pub status: u8,
}

impl View for TopicEventResponse {
    type V = TopicEventResponse;

    open spec fn view(&self) -> TopicEventResponse {
        *self
    }
}

/// Default status is `0`: the event was handled.
impl Default for TopicEventResponse {
    fn default() -> (response: Self)
        ensures
            response.status == 0,
    {
        TopicEventResponse { status: 0 }
    }
}

/// Relevant part of an event wrapped in its envelope.
#[derive(Debug, PartialEq, Eq)]
pub struct Event<T> {
    pub topic: String,
    pub data: T,
}

/// Relevant part of the data of an event that announces a new entity.
#[derive(Clone, Copy, Debug, PartialEq, Eq, Structural)]
pub struct EventData {
    pub id: Uuid,
}

/// Relevant part of the data of an order creation event.
#[derive(Debug, PartialEq, Eq)]
pub struct OrderEventData {
    /// Order UUID.
    pub id: Uuid,
    /// UUID of user connected with order.
    pub user_id: Uuid,
    /// Order items associated with the order.
    pub order_items: Vec<OrderItemEventData>,
}

/// Relevant part of an order item in order creation event data.
#[derive(Clone, Copy, Debug, PartialEq, Eq, Structural)]
pub struct OrderItemEventData {
    /// UUID of shopping cart item associated with order item.
    pub shopping_cart_item_id: Uuid,
    /// Specifies the quantity of the order item.
    pub count: u64,
}

/// The state of the event service: the store it projects into.
#[derive(Debug, PartialEq, Eq)]
pub struct HttpEventServiceState {
    pub database: Database,
}

/// The name of the bus.
pub open spec fn pubsub_name() -> Seq<char> {
    "pubsub"@
}

/// The topic on which new product variants are announced.
pub open spec fn product_variant_created_topic() -> Seq<char> {
    "catalog/product-variant/created"@
}

/// The topic on which new users are announced.
pub open spec fn user_created_topic() -> Seq<char> {
    "user/user/created"@
}

/// The topic on which new orders are announced.
pub open spec fn order_created_topic() -> Seq<char> {
    "order/order/created"@
}

/// The route to which entity creation events are delivered.
pub open spec fn topic_event_route() -> Seq<char> {
    "/on-topic-event"@
}

/// The route to which order creation events are delivered.
pub open spec fn order_creation_event_route() -> Seq<char> {
    "/on-order-creation-event"@
}

/// The subscriptions of this service, in the order in which it lists them.
pub open spec fn subscriptions() -> Seq<PubsubView> {
    seq![
        PubsubView {
            pubsubname: pubsub_name(),
            topic: user_created_topic(),
            route: topic_event_route(),
        },
        PubsubView {
            pubsubname: pubsub_name(),
            topic: product_variant_created_topic(),
            route: topic_event_route(),
        },
        PubsubView {
            pubsubname: pubsub_name(),
            topic: order_created_topic(),
            route: order_creation_event_route(),
        },
    ]
}

/// The values of the subscriptions.
pub open spec fn pubsub_views(subscriptions: Seq<Pubsub>) -> Seq<PubsubView> {
    Seq::new(subscriptions.len(), |i: int| subscriptions[i]@)
}

/// Lists the topic subscriptions: user creation and product variant
/// creation on the topic event route, order creation on its own route.
pub fn list_topic_subscriptions() -> (list: Vec<Pubsub>)
    ensures
        pubsub_views(list@) == subscriptions(),
{
    let pubsub_user = Pubsub {
        pubsubname: String::from_str("pubsub"),
        topic: String::from_str("user/user/created"),
        route: String::from_str("/on-topic-event"),
    };
    let pubsub_product_variant = Pubsub {
        pubsubname: String::from_str("pubsub"),
        topic: String::from_str("catalog/product-variant/created"),
        route: String::from_str("/on-topic-event"),
    };
    let pubsub_order = Pubsub {
        pubsubname: String::from_str("pubsub"),
        topic: String::from_str("order/order/created"),
        route: String::from_str("/on-order-creation-event"),
    };
    let mut list: Vec<Pubsub> = Vec::new();
    list.push(pubsub_user);
    list.push(pubsub_product_variant);
    list.push(pubsub_order);
    assert(pubsub_views(list@) =~= subscriptions());
    list
}

/// Whether two pieces of text are the same.
fn same_text(a: &str, b: &str) -> (same: bool)
    ensures
        same == (a@ == b@),
{
    let left = String::from_str(a);
    let right = String::from_str(b);
    left == right
}


/// The identities of the shopping cart items that an order took, in the
/// order of its items.
pub open spec fn ordered_item_ids(order_items: Seq<OrderItemEventData>) -> Seq<Uuid> {
    Seq::new(order_items.len(), |i: int| order_items[i].shopping_cart_item_id)
}

/// The user that is stored for a new user `id`: its cart is empty and was
/// last updated at `created_at`.
pub open spec fn new_user(id: Uuid, created_at: Timestamp) -> UserView {
    UserView {
        _id: id,
        shoppingcart: ShoppingCartView { last_updated_at: created_at, items: Seq::empty() },
    }
}

/// What the reply to the insert of a projection means. A second delivery
/// of the same event finds the document stored; that counts as success.
pub open spec fn projection_added(reply: StoreReplyView) -> Result<(), CartError> {
    match reply {
        StoreReplyView::Written => Ok(()),
        StoreReplyView::DuplicateKey => Ok(()),
        _ => Err(CartError::EventNotApplied),
    }
}

/// What the reply to the removal of ordered items means.
pub open spec fn ordered_items_deleted(reply: StoreReplyView) -> Result<(), CartError> {
    match reply {
        StoreReplyView::Written => Ok(()),
        _ => Err(CartError::EventNotApplied),
    }
}

/// The insert that adds the stub of the newly created product variant
/// `id`.
pub fn product_variant_insert(id: Uuid) -> (request: StoreRequest)
    ensures
        request@ == (StoreRequestView::InsertProductVariant {
            product_variant: ProductVariant { _id: id },
        }),
{
    StoreRequest::InsertProductVariant { product_variant: ProductVariant { _id: id } }
}

/// Reads the reply to the insert of a newly created product variant: done,
/// if the store has acknowledged the insert or has the variant already.
pub fn add_product_variant_to_mongodb(reply: &StoreReply) -> (result: Result<(), CartError>)
    ensures
        result == projection_added(reply@),
{
    match reply {
        StoreReply::Written => Ok(()),
        StoreReply::DuplicateKey => Ok(()),
        _ => Err(CartError::EventNotApplied),
    }
}

/// The insert that adds the newly created user `id`, with an empty cart
/// last updated at `created_at`.
pub fn user_insert(id: Uuid, created_at: Timestamp) -> (request: StoreRequest)
    ensures
        request@ == (StoreRequestView::InsertUser { user: new_user(id, created_at) }),
{
    StoreRequest::InsertUser {
        user: User { _id: id, shoppingcart: ShoppingCart::new_at(created_at) },
    }
}

/// Reads the reply to the insert of a newly created user: done, if the
/// store has acknowledged the insert or has the user already.
pub fn add_user_to_mongodb(reply: &StoreReply) -> (result: Result<(), CartError>)
    ensures
        result == projection_added(reply@),
{
    match reply {
        StoreReply::Written => Ok(()),
        StoreReply::DuplicateKey => Ok(()),
        _ => Err(CartError::EventNotApplied),
    }
}

/// The update that removes the ordered shopping cart items from the cart
/// of the user who ordered and sets the time of the last update of that
/// cart.
pub fn ordered_shoppingcart_items_pull(
    order_event_data: &OrderEventData,
    last_updated_at: Timestamp,
) -> (request: StoreRequest)
    ensures
        request@ == (StoreRequestView::PullShoppingCartItems {
            user_id: order_event_data.user_id,
            ids: ordered_item_ids(order_event_data.order_items@),
            last_updated_at,
        }),
{
    let mut shoppingcart_item_ids: Vec<Uuid> = Vec::new();
    let mut i: usize = 0;
    while i < order_event_data.order_items.len()
        invariant
            i <= order_event_data.order_items.len(),
            shoppingcart_item_ids@ == ordered_item_ids(
                order_event_data.order_items@.take(i as int),
            ),
        decreases order_event_data.order_items.len() - i,
    {
        shoppingcart_item_ids.push(order_event_data.order_items[i].shopping_cart_item_id);
        assert(shoppingcart_item_ids@ =~= ordered_item_ids(
            order_event_data.order_items@.take(i + 1),
        ));
        i = i + 1;
    }
    assert(order_event_data.order_items@.take(i as int) =~= order_event_data.order_items@);
    StoreRequest::PullShoppingCartItems {
        user_id: order_event_data.user_id,
        ids: shoppingcart_item_ids,
        last_updated_at,
    }
}

/// Reads the reply to the removal of ordered shopping cart items from the
/// cart of the user: done, if the store has acknowledged the update. Items
/// that are no longer there are no failure.
pub fn delete_ordered_shoppingcart_items_in_mongodb(reply: &StoreReply) -> (result: Result<
    (),
    CartError,
>)
    ensures
        result == ordered_items_deleted(reply@),
{
    match reply {
        StoreReply::Written => Ok(()),
        _ => Err(CartError::EventNotApplied),
    }
}

/// The handling of an entity creation event, after it has asked the store.
#[derive(Clone, Copy, Debug, PartialEq, Eq, Structural)]
pub enum TopicEvent {
    /// Asked to insert a product variant.
    AddProductVariant,
    /// Asked to insert a user.
    AddUser,
}

impl TopicEvent {
    /// The first step: by topic, ask to insert the product variant or the
    /// user that the event announces; reject any other topic.
    pub open spec fn spec_start(topic: Seq<char>, id: Uuid, received_at: Timestamp) -> StepView<
        TopicEvent,
        TopicEventResponse,
    > {
        if topic == product_variant_created_topic() {
            StepView::Ask(
                StoreRequestView::InsertProductVariant {
                    product_variant: ProductVariant { _id: id },
                },
                TopicEvent::AddProductVariant,
            )
        } else if topic == user_created_topic() {
            StepView::Ask(
                StoreRequestView::InsertUser { user: new_user(id, received_at) },
                TopicEvent::AddUser,
            )
        } else {
            StepView::Done(Err(CartError::UnroutableEvent))
        }
    }

    /// Starts the handling of `event`, received at `received_at`.
    pub fn start_at(event: &Event<EventData>, received_at: Timestamp) -> (step: Step<
        TopicEvent,
        TopicEventResponse,
    >)
        ensures
            step@ == Self::spec_start(event.topic@, event.data.id, received_at),
    {
        if same_text(event.topic.as_str(), "catalog/product-variant/created") {
            Step::Ask(product_variant_insert(event.data.id), TopicEvent::AddProductVariant)
        } else if same_text(event.topic.as_str(), "user/user/created") {
            Step::Ask(user_insert(event.data.id, received_at), TopicEvent::AddUser)
        } else {
            Step::Done(Err(CartError::UnroutableEvent))
        }
    }

    /// Starts the handling of `event`, received now.
    pub fn start(event: &Event<EventData>) -> (step: Step<TopicEvent, TopicEventResponse>)
        ensures
            exists|received_at: Timestamp|
                step@ == #[trigger] Self::spec_start(event.topic@, event.data.id, received_at),
    {
        let received_at = Timestamp::now();
        let step = Self::start_at(event, received_at);
        assert(step@ == Self::spec_start(event.topic@, event.data.id, received_at));
        step
    }
}

impl Operation for TopicEvent {
    type Output = TopicEventResponse;

    /// The requests that may still follow the one that is awaited.
    open spec fn requests_left(self) -> nat {
        match self {
            TopicEvent::AddProductVariant => 0,
            TopicEvent::AddUser => 0,
        }
    }

    /// The step that follows `reply`: the fixed acknowledgement, or a
    /// failure.
    open spec fn spec_resume(self, reply: StoreReplyView) -> StepView<
        TopicEvent,
        TopicEventResponse,
    > {
        match projection_added(reply) {
            Ok(_) => StepView::Done(Ok(TopicEventResponse { status: 0 })),
            Err(error) => StepView::Done(Err(error)),
        }
    }

    /// Resumes the handling with the reply to what it asked.
    fn resume(self, reply: StoreReply) -> (step: Step<TopicEvent, TopicEventResponse>)
    {
        let added = match self {
            TopicEvent::AddProductVariant => add_product_variant_to_mongodb(&reply),
            TopicEvent::AddUser => add_user_to_mongodb(&reply),
        };
        match added {
            Ok(_) => Step::Done(Ok(TopicEventResponse::default())),
            Err(error) => Step::Done(Err(error)),
        }
    }
}

/// The handling of an order creation event, after it has asked the store.
#[derive(Clone, Copy, Debug, PartialEq, Eq, Structural)]
pub enum OrderCreationEvent {
    /// Asked to remove the ordered items.
    DeleteOrderedItems,
}

impl OrderCreationEvent {
    /// The first step: ask to remove from the cart of the user who ordered
    /// every item that the order took; reject any other topic.
    pub open spec fn spec_start(
        topic: Seq<char>,
        user_id: Uuid,
        ids: Seq<Uuid>,
        received_at: Timestamp,
    ) -> StepView<OrderCreationEvent, TopicEventResponse> {
        if topic == order_created_topic() {
            StepView::Ask(
                StoreRequestView::PullShoppingCartItems {
                    user_id,
                    ids,
                    last_updated_at: received_at,
                },
                OrderCreationEvent::DeleteOrderedItems,
            )
        } else {
            StepView::Done(Err(CartError::UnroutableEvent))
        }
    }

    /// Starts the handling of `event`, received at `received_at`.
    pub fn start_at(event: &Event<OrderEventData>, received_at: Timestamp) -> (step: Step<
        OrderCreationEvent,
        TopicEventResponse,
    >)
        ensures
            step@ == Self::spec_start(
                event.topic@,
                event.data.user_id,
                ordered_item_ids(event.data.order_items@),
                received_at,
            ),
    {
        if same_text(event.topic.as_str(), "order/order/created") {
            Step::Ask(
                ordered_shoppingcart_items_pull(&event.data, received_at),
                OrderCreationEvent::DeleteOrderedItems,
            )
        } else {
            Step::Done(Err(CartError::UnroutableEvent))
        }
    }

    /// Starts the handling of `event`, received now.
    pub fn start(event: &Event<OrderEventData>) -> (step: Step<
        OrderCreationEvent,
        TopicEventResponse,
    >)
        ensures
            exists|received_at: Timestamp|
                step@ == #[trigger] Self::spec_start(
                    event.topic@,
                    event.data.user_id,
                    ordered_item_ids(event.data.order_items@),
                    received_at,
                ),
    {
        let received_at = Timestamp::now();
        let step = Self::start_at(event, received_at);
        assert(step@ == Self::spec_start(
            event.topic@,
            event.data.user_id,
            ordered_item_ids(event.data.order_items@),
            received_at,
        ));
        step
    }
}

impl Operation for OrderCreationEvent {
    type Output = TopicEventResponse;

    /// The requests that may still follow the one that is awaited.
    open spec fn requests_left(self) -> nat {
        match self {
            OrderCreationEvent::DeleteOrderedItems => 0,
        }
    }

    /// The step that follows `reply`: the fixed acknowledgement, or a
    /// failure.
    open spec fn spec_resume(self, reply: StoreReplyView) -> StepView<
        OrderCreationEvent,
        TopicEventResponse,
    > {
        match ordered_items_deleted(reply) {
            Ok(_) => StepView::Done(Ok(TopicEventResponse { status: 0 })),
            Err(error) => StepView::Done(Err(error)),
        }
    }

    /// Resumes the handling with the reply to what it asked.
    fn resume(self, reply: StoreReply) -> (step: Step<OrderCreationEvent, TopicEventResponse>)
    {
        match delete_ordered_shoppingcart_items_in_mongodb(&reply) {
            Ok(_) => Step::Done(Ok(TopicEventResponse::default())),
            Err(error) => Step::Done(Err(error)),
        }
    }
}

/// What an entity creation event does to the store and how it is answered.
///
/// On the product variant topic the stub of the variant is stored, on the
/// user topic the user with an empty cart; in both cases nothing changes if
/// the identity is stored already. Any other topic is rejected.
pub open spec fn topic_event_applied(
    database: DatabaseView,
    topic: Seq<char>,
    id: Uuid,
    received_at: Timestamp,
) -> (DatabaseView, Result<TopicEventResponse, CartError>) {
    if topic == product_variant_created_topic() {
        (
            database.apply(
                StoreRequestView::InsertProductVariant {
                    product_variant: ProductVariant { _id: id },
                },
            ).0,
            Ok(TopicEventResponse { status: 0 }),
        )
    } else if topic == user_created_topic() {
        (
            database.apply(StoreRequestView::InsertUser { user: new_user(id, received_at) }).0,
            Ok(TopicEventResponse { status: 0 }),
        )
    } else {
        (database, Err(CartError::UnroutableEvent))
    }
}

/// What an order creation event does to the store and how it is answered.
///
/// On the order topic every item whose identity the order lists is removed
/// from the cart of the user who ordered, and the time of the last update
/// of that cart is set to the time at which the event was received. If the
/// cart holds none of the listed items, or the user is not stored, nothing
/// changes. Any other topic is rejected.
pub open spec fn order_event_applied(
    database: DatabaseView,
    topic: Seq<char>,
    user_id: Uuid,
    ids: Seq<Uuid>,
    received_at: Timestamp,
) -> (DatabaseView, Result<TopicEventResponse, CartError>) {
    if topic == order_created_topic() {
        (
            database.apply(
                StoreRequestView::PullShoppingCartItems {
                    user_id,
                    ids,
                    last_updated_at: received_at,
                },
            ).0,
            Ok(TopicEventResponse { status: 0 }),
        )
    } else {
        (database, Err(CartError::UnroutableEvent))
    }
}

/// Run against the in-memory store, the handling of an entity creation
/// event does what `topic_event_applied` says.
pub proof fn lemma_topic_event_applied(
    database: DatabaseView,
    topic: Seq<char>,
    id: Uuid,
    received_at: Timestamp,
)
    ensures
        completed(database, TopicEvent::spec_start(topic, id, received_at)) == topic_event_applied(
            database,
            topic,
            id,
            received_at,
        ),
{
    reveal_with_fuel(completed, 2);
}

/// Run against the in-memory store, the handling of an order creation
/// event does what `order_event_applied` says.
pub proof fn lemma_order_event_applied(
    database: DatabaseView,
    topic: Seq<char>,
    user_id: Uuid,
    ids: Seq<Uuid>,
    received_at: Timestamp,
)
    ensures
        completed(database, OrderCreationEvent::spec_start(topic, user_id, ids, received_at))
            == order_event_applied(database, topic, user_id, ids, received_at),
{
    reveal_with_fuel(completed, 2);
}

/// Receives an entity creation event at `received_at` and applies it to
/// the in-memory store.
pub fn on_topic_event_at(
    state: &mut HttpEventServiceState,
    event: &Event<EventData>,
    received_at: Timestamp,
) -> (result: Result<TopicEventResponse, CartError>)
    ensures
        (final(state).database@, result) == topic_event_applied(
            old(state).database@,
            event.topic@,
            event.data.id,
            received_at,
        ),
        old(state).database@.wf() ==> final(state).database@.wf(),
{
    proof {
        lemma_topic_event_applied(state.database@, event.topic@, event.data.id, received_at);
    }
    let step = TopicEvent::start_at(event, received_at);
    state.database.run(step)
}

/// Receives an entity creation event and applies it to the in-memory
/// store.
pub fn on_topic_event(state: &mut HttpEventServiceState, event: &Event<EventData>) -> (result:
    Result<TopicEventResponse, CartError>)
    ensures
        exists|received_at: Timestamp|
            (final(state).database@, result) == #[trigger] topic_event_applied(
                old(state).database@,
                event.topic@,
                event.data.id,
                received_at,
            ),
        old(state).database@.wf() ==> final(state).database@.wf(),
{
    let received_at = Timestamp::now();
    let result = on_topic_event_at(state, event, received_at);
    assert((state.database@, result) == topic_event_applied(
        old(state).database@,
        event.topic@,
        event.data.id,
        received_at,
    ));
    result
}

/// Receives an order creation event at `received_at` and applies it to the
/// in-memory store.
pub fn on_order_creation_event_at(
    state: &mut HttpEventServiceState,
    event: &Event<OrderEventData>,
    received_at: Timestamp,
) -> (result: Result<TopicEventResponse, CartError>)
    ensures
        (final(state).database@, result) == order_event_applied(
            old(state).database@,
            event.topic@,
            event.data.user_id,
            ordered_item_ids(event.data.order_items@),
            received_at,
        ),
        old(state).database@.wf() ==> final(state).database@.wf(),
{
    proof {
        lemma_order_event_applied(
            state.database@,
            event.topic@,
            event.data.user_id,
            ordered_item_ids(event.data.order_items@),
            received_at,
        );
    }
    let step = OrderCreationEvent::start_at(event, received_at);
    state.database.run(step)
}

/// Receives an order creation event and applies it to the in-memory store.
pub fn on_order_creation_event(state: &mut HttpEventServiceState, event: &Event<OrderEventData>)
    -> (result: Result<TopicEventResponse, CartError>)
    ensures
        exists|received_at: Timestamp|
            (final(state).database@, result) == #[trigger] order_event_applied(
                old(state).database@,
                event.topic@,
                event.data.user_id,
                ordered_item_ids(event.data.order_items@),
                received_at,
            ),
        old(state).database@.wf() ==> final(state).database@.wf(),
{
    let received_at = Timestamp::now();
    let result = on_order_creation_event_at(state, event, received_at);
    assert((state.database@, result) == order_event_applied(
        old(state).database@,
        event.topic@,
        event.data.user_id,
        ordered_item_ids(event.data.order_items@),
        received_at,
    ));
    result
}

} // verus!
