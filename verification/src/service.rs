//! The use cases: placing an order and following it.
//!
//! Nothing is looked up, stored or published here. A use case is cut into
//! stages. A stage says what it needs from outside, and what came back turns
//! it into the next stage or ends the use case with an error.
//!
//! Placing an order goes through [`CustomerCheck`], [`RestaurantCheck`],
//! [`OrderInitiation`], [`OrderSave`] and [`OrderPublication`]; following one
//! is a single [`OrderLookup`]. A later stage can only be had from the one
//! before it, so no step is skipped or taken out of turn: an order is stored
//! before its event is published, and neither happens for an order that was
//! refused.

use crate::domain_service::{initiation_refusal, OrderDomainService};
use crate::dto::{
    is_priced_as_listed, lemma_numbered_items_total, stated_total, CreateOrderCommand,
    CreateOrderResponse, CreateOrderResponseView, TrackOrderQuery, TrackOrderResponse,
};
use crate::entity::{
    carries, lemma_listed_iff_carried, Customer, Order, Restaurant, RestaurantView,
};
use crate::error::{refusal, OrderDomainError, OrderDomainErrorView};
use crate::event::OrderCreated;
use crate::value_object::TrackingId;
use vstd::prelude::*;

verus! {

/// A request to place an order, waiting to learn whether its customer
/// exists.
#[derive(Debug)]
pub struct CustomerCheck {
    command: CreateOrderCommand,
}

impl CustomerCheck {
    /// The request that this stage stands for.
    pub closed spec fn spec_command(&self) -> &CreateOrderCommand {
        &self.command
    }

    /// The request that this stage stands for.
    #[verifier::when_used_as_spec(spec_command)]
    pub fn command(&self) -> (command: &CreateOrderCommand)
        ensures
            command == self.spec_command(),
    {
        &self.command
    }

    /// Takes up a request to place an order.
    pub fn new(command: CreateOrderCommand) -> (stage: Self)
        ensures
            stage.command() == command,
    {
        CustomerCheck { command }
    }

    /// The customer to look up.
    pub fn customer_id(&self) -> (customer_id: u128)
        ensures
            customer_id == self.command().customer_id,
    {
        self.command.customer_id
    }

    /// Goes on with the request if the customer was found, and ends it with
    /// `CustomerNotFound` if not.
    pub fn check_customer(
        self,
        found: Option<Customer>,
    ) -> (outcome: Result<RestaurantCheck, OrderDomainError>)
        ensures
            found is None ==> refusal(outcome) == Some(OrderDomainErrorView::CustomerNotFound),
            found is Some ==> (outcome matches Ok(next) && next.command() == self.command()),
    {
        match found {
            None => Err(OrderDomainError::CustomerNotFound),
            Some(_) => Ok(RestaurantCheck { command: self.command }),
        }
    }
}

/// A request to place an order, waiting to learn what its restaurant sells.
#[derive(Debug)]
pub struct RestaurantCheck {
    command: CreateOrderCommand,
}

impl RestaurantCheck {
    /// The request that this stage stands for.
    pub closed spec fn spec_command(&self) -> &CreateOrderCommand {
        &self.command
    }

    /// The request that this stage stands for.
    #[verifier::when_used_as_spec(spec_command)]
    pub fn command(&self) -> (command: &CreateOrderCommand)
        ensures
            command == self.spec_command(),
    {
        &self.command
    }

    /// The restaurant to resolve: the one that the request names, with the
    /// products that the request names.
    pub fn restaurant(&self) -> (restaurant: Restaurant)
        ensures
            restaurant@.id == self.command().restaurant_id,
            restaurant@.products == crate::dto::named_products(self.command().items@),
            restaurant@.active,
    {
        self.command.restaurant()
    }

    /// Whether the lookup found the restaurant of the request: a restaurant
    /// came back, and it carries every product that the request names.
    /// Whether it takes orders plays no part.
    pub open spec fn is_answered_by(&self, found: Option<Restaurant>) -> bool {
        found matches Some(restaurant) && self.command().is_carried_by(restaurant@.products)
    }

    /// Goes on with the request if the restaurant was resolved and carries
    /// every product that the request names, and ends it with
    /// `RestaurantNotFound` if not. Whether the restaurant takes orders is
    /// not looked at here. The order is put together here: it gets new
    /// random identifiers for itself, its tracking and its address, and each
    /// item gets its product from the restaurant's catalogue.
    pub fn check_restaurant(
        self,
        found: Option<Restaurant>,
    ) -> (outcome: Result<OrderInitiation, OrderDomainError>)
        ensures
            !self.is_answered_by(found) ==> refusal(outcome) == Some(
                OrderDomainErrorView::RestaurantNotFound,
            ),
            self.is_answered_by(found) ==> (outcome matches Ok(next)
                && next.restaurant() == found.unwrap()
                && next.order()@ == self.command().order(
                found.unwrap()@.products,
                next.order()@.tracking_id,
                next.order()@.id,
                next.order()@.street_address.id,
            )),
    {
        match found {
            None => Err(OrderDomainError::RestaurantNotFound),
            Some(restaurant) => {
                if !self.command.is_carried(&restaurant) {
                    return Err(OrderDomainError::RestaurantNotFound);
                }
                let order = self.command.into_order(&restaurant);
                Ok(OrderInitiation { order, restaurant })
            },
        }
    }

    /// As [`RestaurantCheck::check_restaurant`], with the order's identifiers
    /// given.
    pub fn check_restaurant_with(
        self,
        found: Option<Restaurant>,
        tracking_id: u128,
        order_id: u128,
        address_id: u128,
    ) -> (outcome: Result<OrderInitiation, OrderDomainError>)
        ensures
            !self.is_answered_by(found) ==> refusal(outcome) == Some(
                OrderDomainErrorView::RestaurantNotFound,
            ),
            self.is_answered_by(found) ==> (outcome matches Ok(next)
                && next.restaurant() == found.unwrap()
                && next.order()@ == self.command().order(
                found.unwrap()@.products,
                tracking_id,
                order_id,
                address_id,
            )),
    {
        match found {
            None => Err(OrderDomainError::RestaurantNotFound),
            Some(restaurant) => {
                if !self.command.is_carried(&restaurant) {
                    return Err(OrderDomainError::RestaurantNotFound);
                }
                let order = self.command.into_order_with(
                    &restaurant,
                    tracking_id,
                    order_id,
                    address_id,
                );
                Ok(OrderInitiation { order, restaurant })
            },
        }
    }
}

/// A request is carried by an active restaurant, and initiated there, if its
/// total is positive and the sum of its items' subtotals, and each item
/// names a product that the restaurant lists, at the listed price and with a
/// subtotal of that price times the quantity.
pub proof fn lemma_request_as_listed_initiated(
    command: CreateOrderCommand,
    restaurant: RestaurantView,
    tracking_id: u128,
    order_id: u128,
    address_id: u128,
)
    requires
        restaurant.active,
        command.price > 0,
        command.price == stated_total(command.items@),
        forall|k: int|
            0 <= k < command.items@.len() ==> is_priced_as_listed(
                #[trigger] command.items@[k],
                restaurant.products,
            ),
    ensures
        command.is_carried_by(restaurant.products),
        initiation_refusal(
            command.order(restaurant.products, tracking_id, order_id, address_id),
            restaurant,
        ) is None,
{
    assert forall|k: int| 0 <= k < command.items@.len() implies carries(
        restaurant.products,
        (#[trigger] command.items@[k]).product_id,
    ) by {
        assert(is_priced_as_listed(command.items@[k], restaurant.products));
        lemma_listed_iff_carried(restaurant.products, command.items@[k].product_id);
    }
    let order = command.order(restaurant.products, tracking_id, order_id, address_id);
    lemma_numbered_items_total(command.items@, order_id, restaurant.products);
    assert forall|k: int| 0 <= k < order.items.len() implies (
    #[trigger] order.items[k]).is_price_valid() by {
        assert(is_priced_as_listed(command.items@[k], restaurant.products));
    }
}

/// An order that was put together, waiting to be initiated at its
/// restaurant.
#[derive(Debug)]
pub struct OrderInitiation {
    order: Order,
    restaurant: Restaurant,
}

impl OrderInitiation {
    /// The order to initiate.
    pub closed spec fn spec_order(&self) -> &Order {
        &self.order
    }

    /// The restaurant as it was resolved.
    pub closed spec fn spec_restaurant(&self) -> &Restaurant {
        &self.restaurant
    }

    /// The order to initiate.
    #[verifier::when_used_as_spec(spec_order)]
    pub fn order(&self) -> (order: &Order)
        ensures
            order == self.spec_order(),
    {
        &self.order
    }

    /// The restaurant as it was resolved.
    #[verifier::when_used_as_spec(spec_restaurant)]
    pub fn restaurant(&self) -> (restaurant: &Restaurant)
        ensures
            restaurant == self.spec_restaurant(),
    {
        &self.restaurant
    }

    /// Initiates the order at the restaurant. An order that is refused ends
    /// the request with the domain service's error; nothing has been stored
    /// or published for it. An order that passes is to be stored next.
    pub fn persist_order<ODS: OrderDomainService>(
        self,
        order_domain_service: &ODS,
    ) -> (outcome: Result<OrderSave, OrderDomainError>)
        ensures
            refusal(outcome) == initiation_refusal(self.order()@, self.restaurant()@),
            outcome matches Ok(next) ==> next.event().order@ == self.order()@,
    {
        let order_created_event = order_domain_service.validate_and_initiate_order(
            self.order,
            self.restaurant,
        )?;
        Ok(OrderSave { event: order_created_event })
    }
}

/// An initiated order, waiting to be stored.
#[derive(Debug)]
pub struct OrderSave {
    event: OrderCreated,
}

impl OrderSave {
    /// The event that the initiation left behind. It is handed out for
    /// publishing once the order is stored.
    pub closed spec fn event(&self) -> OrderCreated {
        self.event
    }

    /// The order to store.
    pub fn order(&self) -> (order: &Order)
        ensures
            order == self.event().order,
    {
        &self.event.order
    }

    /// Goes on with the request if the order was stored, and ends it with
    /// `SaveOrderError` if not. `saved` is the order as the store gave it
    /// back.
    pub fn save_order(
        self,
        saved: Option<Order>,
    ) -> (outcome: Result<OrderPublication, OrderDomainError>)
        ensures
            saved is None ==> refusal(outcome) == Some(OrderDomainErrorView::SaveOrderError),
            saved matches Some(order) ==> (outcome matches Ok(next)
                && next.event() == self.event()
                && next.saved() == order),
    {
        match saved {
            None => Err(OrderDomainError::SaveOrderError),
            Some(saved) => Ok(OrderPublication { event: self.event, saved }),
        }
    }
}

/// A stored order, waiting for its event to be published.
#[derive(Debug)]
pub struct OrderPublication {
    event: OrderCreated,
    saved: Order,
}

impl OrderPublication {
    /// The event to publish: the hand-over to the payment leg of the saga.
    pub closed spec fn spec_event(&self) -> &OrderCreated {
        &self.event
    }

    /// The event to publish: the hand-over to the payment leg of the saga.
    #[verifier::when_used_as_spec(spec_event)]
    pub fn event(&self) -> (event: &OrderCreated)
        ensures
            event == self.spec_event(),
    {
        &self.event
    }

    /// The order as the store gave it back.
    pub closed spec fn spec_saved(&self) -> &Order {
        &self.saved
    }

    /// The order as the store gave it back.
    #[verifier::when_used_as_spec(spec_saved)]
    pub fn saved(&self) -> (saved: &Order)
        ensures
            saved == self.spec_saved(),
    {
        &self.saved
    }

    /// Ends the request once the event has been handed to the publisher: the
    /// client is told the tracking identifier and the status of the stored
    /// order, and that the order was created.
    pub fn create_order(self) -> (response: CreateOrderResponse)
        ensures
            response@ == CreateOrderResponseView::of(self.saved()@),
    {
        CreateOrderResponse::from(self.saved)
    }
}

/// A question about an order, waiting for the order to be looked up.
#[derive(Debug)]
pub struct OrderLookup {
    query: TrackOrderQuery,
}

impl OrderLookup {
    /// The question that this stage stands for.
    pub closed spec fn spec_query(&self) -> &TrackOrderQuery {
        &self.query
    }

    /// The question that this stage stands for.
    #[verifier::when_used_as_spec(spec_query)]
    pub fn query(&self) -> (query: &TrackOrderQuery)
        ensures
            query == self.spec_query(),
    {
        &self.query
    }

    /// Takes up a question about an order.
    pub fn new(query: TrackOrderQuery) -> (stage: Self)
        ensures
            stage.query() == query,
    {
        OrderLookup { query }
    }

    /// The tracking identifier to look the order up by.
    pub fn tracking_id(&self) -> (tracking_id: TrackingId)
        ensures
            tracking_id@ == self.query().order_tracking_id,
    {
        TrackingId::from(self.query.order_tracking_id)
    }

    /// Answers the question: with `OrderNotFound` if no order was found, and
    /// else with the tracking identifier, the status and the failure
    /// messages of the order that was found, as it holds them.
    pub fn track_order(
        self,
        found: Option<Order>,
    ) -> (outcome: Result<TrackOrderResponse, OrderDomainError>)
        ensures
            found is None ==> refusal(outcome) == Some(OrderDomainErrorView::OrderNotFound),
            found matches Some(order) ==> (outcome matches Ok(response)
                && response.order_tracking_id == order.tracking_id@
                && response.order_status == order.order_status
                && response.failure_messages == order.failure_messages),
    {
        match found {
            None => Err(OrderDomainError::OrderNotFound),
            Some(order) => Ok(TrackOrderResponse::from(order)),
        }
    }
}

} // verus!
