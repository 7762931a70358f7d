//! What travels to and from the payment and restaurant-approval services.
//!
//! UUIDs are held as 128-bit numbers, prices in minor units and times in
//! seconds since the Unix epoch.

use vstd::prelude::*;

verus! {

/// A payload on its way to a topic, under a key.
#[derive(Clone, Debug)]
pub struct Message<T> {
    pub topic: String,
    pub key: String,
    pub value: T,
}

/// What the payment service is asked to do with an order's payment.
#[allow(non_camel_case_types)]
#[derive(Clone, Copy, Debug, PartialEq, Eq, Structural)]
pub enum PaymentOrderStatus {
    PENDING,
    CANCELLED,
}

/// A request to the payment service: take the payment for an order, or undo
/// it.
#[derive(Clone, Copy, Debug, PartialEq, Eq, Structural)]
pub struct PaymentRequest {
    pub id: u128,
    pub saga_id: u128,
    pub customer_id: u128,
    pub order_id: u128,
    pub price: i64,
    pub created_at: i64,
    pub payment_order_status: PaymentOrderStatus,
}

/// How a payment ended, as the payment service reports it.
#[allow(non_camel_case_types)]
#[derive(Clone, Copy, Debug, PartialEq, Eq, Structural)]
pub enum PaymentStatus {
    COMPLETED,
    FAILED,
    CANCELLED,
}

/// The payment service's answer to a [`PaymentRequest`].
#[derive(Clone, Debug)]
pub struct PaymentResponse {
    pub id: u128,
    pub saga_id: u128,
    pub payment_id: u128,
    pub customer_id: u128,
    pub order_id: u128,
    pub price: i64,
    pub created_at: i64,
    pub payment_status: PaymentStatus,
    pub failure_messages: Vec<String>,
}

/// What the restaurant is told about the order it is asked to approve.
#[allow(non_camel_case_types)]
#[derive(Clone, Copy, Debug, PartialEq, Eq, Structural)]
pub enum RestaurantOrderStatus {
    PAID,
}

/// A product and how many of it an order asks for.
#[derive(Clone, Copy, Debug, PartialEq, Eq, Structural)]
pub struct Product {
    pub id: u128,
    pub quantity: u64,
}

/// A request to a restaurant to approve a paid order.
#[derive(Clone, Debug)]
pub struct RestaurantApprovalRequest {
    pub id: u128,
    pub saga_id: u128,
    pub restaurant_id: u128,
    pub order_id: u128,
    pub restaurant_order_status: RestaurantOrderStatus,
    pub price: i64,
    pub products: Vec<Product>,
    pub created_at: i64,
}

/// What a restaurant decided about an order.
#[allow(non_camel_case_types)]
#[derive(Clone, Copy, Debug, PartialEq, Eq, Structural)]
pub enum OrderApprovalStatus {
    APPROVED,
    REJECTED,
}

/// The restaurant's answer to a [`RestaurantApprovalRequest`].
#[derive(Clone, Debug)]
pub struct RestaurantApprovalResponse {
    pub id: u128,
    pub saga_id: u128,
    pub restaurant_id: u128,
    pub order_id: u128,
    pub order_approval_status: OrderApprovalStatus,
    pub created_at: i64,
    pub failure_messages: Vec<String>,
}

} // verus!
