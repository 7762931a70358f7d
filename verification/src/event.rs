//! The facts that a change to an order leaves behind.

use crate::entity::{Order, OrderView};
use vstd::prelude::*;

verus! {

/// Marks a type as a fact about a `T`.
pub trait DomainEvent<T> {

}

/// What an event about an order holds: the order as the change left it, and
/// when the change was made, in seconds since the Unix epoch.
pub struct OrderEventView {
    pub order: OrderView,
    pub created_at: i64,
}

/// An order passed its checks and now waits for payment.
#[derive(Clone, Debug)]
pub struct OrderCreated {
    pub order: Order,
    pub created_at: i64,
}

impl DomainEvent<Order> for OrderCreated {

}

impl View for OrderCreated {
    type V = OrderEventView;

    open spec fn view(&self) -> OrderEventView {
        OrderEventView { order: self.order@, created_at: self.created_at }
    }
}

/// The cancellation of a paid order has begun; its payment is to be undone.
#[derive(Clone, Debug)]
pub struct OrderCancelled {
    pub order: Order,
    pub created_at: i64,
}

impl DomainEvent<Order> for OrderCancelled {

}

impl View for OrderCancelled {
    type V = OrderEventView;

    open spec fn view(&self) -> OrderEventView {
        OrderEventView { order: self.order@, created_at: self.created_at }
    }
}

/// An order was paid and now waits for the restaurant's approval.
#[derive(Clone, Debug)]
pub struct OrderPaid {
    pub order: Order,
    pub created_at: i64,
}

impl DomainEvent<Order> for OrderPaid {

}

impl View for OrderPaid {
    type V = OrderEventView;

    open spec fn view(&self) -> OrderEventView {
        OrderEventView { order: self.order@, created_at: self.created_at }
    }
}

} // verus!
