//! From domain events to the requests that leave for other services.

use crate::entity::{Order, OrderItem};
use crate::event::{OrderCancelled, OrderCreated, OrderPaid};
use crate::fresh::{random_uuid, uuid_text, uuid_to_string};
use crate::message::{
    Message, PaymentOrderStatus, PaymentRequest, Product, RestaurantApprovalRequest,
    RestaurantOrderStatus,
};
use vstd::prelude::*;
use vstd::string::StringExecFns;

verus! {

/// The payment request about `order`, asking for `status`.
pub open spec fn payment_request_for(
    order: Order,
    created_at: i64,
    status: PaymentOrderStatus,
    message_id: u128,
    saga_id: u128,
) -> PaymentRequest {
    PaymentRequest {
        id: message_id,
        saga_id,
        customer_id: order.customer_id@,
        order_id: order.aggregate_root.base_entity.id@,
        price: order.price.amount,
        created_at,
        payment_order_status: status,
    }
}

/// One product-quantity pair for each item, in the items' order.
pub open spec fn requested_products(items: Seq<OrderItem>) -> Seq<Product> {
    items.map_values(
        |item: OrderItem| Product { id: item.product.base_entity.id@, quantity: item.quantity },
    )
}

/// Whether `message` is the payment request about `order` asking for
/// `status`, bound for the payment topic under the text of its own
/// identifier as key.
pub open spec fn is_payment_request_message(
    message: Message<PaymentRequest>,
    order: Order,
    created_at: i64,
    status: PaymentOrderStatus,
    message_id: u128,
    saga_id: u128,
) -> bool {
    &&& message.topic@ == "payment-request"@
    &&& message.key@ == uuid_text(message_id)
    &&& message.value == payment_request_for(order, created_at, status, message_id, saga_id)
}

/// Whether `message` is the approval request about `order`, bound for the
/// restaurant-approval topic under the text of its own identifier as key.
pub open spec fn is_restaurant_request_message(
    message: Message<RestaurantApprovalRequest>,
    order: Order,
    created_at: i64,
    message_id: u128,
    saga_id: u128,
) -> bool {
    &&& message.topic@ == "restaurant-approval-request"@
    &&& message.key@ == uuid_text(message_id)
    &&& message.value.id == message_id
    &&& message.value.saga_id == saga_id
    &&& message.value.restaurant_id == order.restaurant_id@
    &&& message.value.order_id == order.aggregate_root.base_entity.id@
    &&& message.value.restaurant_order_status == RestaurantOrderStatus::PAID
    &&& message.value.price == order.price.amount
    &&& message.value.products@ == requested_products(order.items@)
    &&& message.value.created_at == created_at
}

/// Turns domain events into outbound requests. The order is taken as
/// the event holds it; nothing is checked again.
pub struct DataMapper {}

impl DataMapper {
    /// The request that asks the payment service to take the payment for a
    /// created order. The message and the saga get new random identifiers.
    pub fn order_created_event_to_payment_request(
        order_created: OrderCreated,
    ) -> (message: Message<PaymentRequest>)
        ensures
            is_payment_request_message(
                message,
                order_created.order,
                order_created.created_at,
                PaymentOrderStatus::PENDING,
                message.value.id,
                message.value.saga_id,
            ),
    {
        let payment_request_message_id = random_uuid();
        let saga_id = random_uuid();
        Self::order_created_event_to_payment_request_with(
            order_created,
            payment_request_message_id,
            saga_id,
        )
    }

    /// The request that asks the payment service to take the payment for a
    /// created order, under the given message and saga identifiers.
    pub fn order_created_event_to_payment_request_with(
        order_created: OrderCreated,
        message_id: u128,
        saga_id: u128,
    ) -> (message: Message<PaymentRequest>)
        ensures
            is_payment_request_message(
                message,
                order_created.order,
                order_created.created_at,
                PaymentOrderStatus::PENDING,
                message_id,
                saga_id,
            ),
    {
        let payment_request_message = PaymentRequest {
            id: message_id,
            saga_id,
            customer_id: order_created.order.customer_id.into(),
            order_id: order_created.order.aggregate_root.base_entity.id.into(),
            price: order_created.order.price.amount,
            created_at: order_created.created_at,
            payment_order_status: PaymentOrderStatus::PENDING,
        };
        Message {
            topic: String::from_str("payment-request"),
            key: uuid_to_string(message_id),
            value: payment_request_message,
        }
    }

    /// The request that asks the payment service to undo the payment of an
    /// order under cancellation. The message and the saga get new random
    /// identifiers.
    pub fn order_cancelled_event_to_payment_request(
        order_cancelled: OrderCancelled,
    ) -> (message: Message<PaymentRequest>)
        ensures
            is_payment_request_message(
                message,
                order_cancelled.order,
                order_cancelled.created_at,
                PaymentOrderStatus::CANCELLED,
                message.value.id,
                message.value.saga_id,
            ),
    {
        let payment_request_message_id = random_uuid();
        let saga_id = random_uuid();
        Self::order_cancelled_event_to_payment_request_with(
            order_cancelled,
            payment_request_message_id,
            saga_id,
        )
    }

    /// The request that asks the payment service to undo the payment of an
    /// order under cancellation, under the given message and saga
    /// identifiers.
    pub fn order_cancelled_event_to_payment_request_with(
        order_cancelled: OrderCancelled,
        message_id: u128,
        saga_id: u128,
    ) -> (message: Message<PaymentRequest>)
        ensures
            is_payment_request_message(
                message,
                order_cancelled.order,
                order_cancelled.created_at,
                PaymentOrderStatus::CANCELLED,
                message_id,
                saga_id,
            ),
    {
        let payment_request_message = PaymentRequest {
            id: message_id,
            saga_id,
            customer_id: order_cancelled.order.customer_id.into(),
            order_id: order_cancelled.order.aggregate_root.base_entity.id.into(),
            price: order_cancelled.order.price.amount,
            created_at: order_cancelled.created_at,
            payment_order_status: PaymentOrderStatus::CANCELLED,
        };
        Message {
            topic: String::from_str("payment-request"),
            key: uuid_to_string(message_id),
            value: payment_request_message,
        }
    }

    /// The request that asks the restaurant to approve a paid order, with one
    /// product-quantity pair for each item of the order. The message and the
    /// saga get new random identifiers.
    pub fn order_paid_event_to_restaurant_request(
        order_paid: OrderPaid,
    ) -> (message: Message<RestaurantApprovalRequest>)
        ensures
            is_restaurant_request_message(
                message,
                order_paid.order,
                order_paid.created_at,
                message.value.id,
                message.value.saga_id,
            ),
    {
        let restaurant_approval_request_message_id = random_uuid();
        let saga_id = random_uuid();
        Self::order_paid_event_to_restaurant_request_with(
            order_paid,
            restaurant_approval_request_message_id,
            saga_id,
        )
    }

    /// The request that asks the restaurant to approve a paid order, under
    /// the given message and saga identifiers.
    pub fn order_paid_event_to_restaurant_request_with(
        order_paid: OrderPaid,
        message_id: u128,
        saga_id: u128,
    ) -> (message: Message<RestaurantApprovalRequest>)
        ensures
            is_restaurant_request_message(
                message,
                order_paid.order,
                order_paid.created_at,
                message_id,
                saga_id,
            ),
    {
        let mut products: Vec<Product> = Vec::new();
        let mut index: usize = 0;
        while index < order_paid.order.items.len()
            invariant
                index <= order_paid.order.items.len(),
                products@ == requested_products(order_paid.order.items@.take(index as int)),
            decreases order_paid.order.items.len() - index,
        {
            let item = &order_paid.order.items[index];
            let id: u128 = item.product.base_entity.id.into();
            products.push(Product { id, quantity: item.quantity });
            assert(products@ =~= requested_products(
                order_paid.order.items@.take(index as int + 1),
            ));
            index += 1;
        }
        assert(order_paid.order.items@.take(index as int) =~= order_paid.order.items@);
        let restaurant_approval_request_message = RestaurantApprovalRequest {
            id: message_id,
            saga_id,
            restaurant_id: order_paid.order.restaurant_id.into(),
            order_id: order_paid.order.aggregate_root.base_entity.id.into(),
            restaurant_order_status: RestaurantOrderStatus::PAID,
            price: order_paid.order.price.amount,
            products,
            created_at: order_paid.created_at,
        };
        Message {
            topic: String::from_str("restaurant-approval-request"),
            key: uuid_to_string(message_id),
            value: restaurant_approval_request_message,
        }
    }
}

} // verus!
