//! The ways in which an operation on an order can fail.

use vstd::prelude::*;
use vstd::std_specs::cmp::PartialEqSpecImpl;
use vstd::string::StringExecFns;

verus! {

/// Why an operation on an order was refused.
///
/// Each value ends the operation that produced it; nothing is retried here.
#[derive(Clone, Debug)]
pub enum OrderDomainError {
    /// The order's total is not strictly positive.
    TotalPriceZeroError,
    /// An item's price is not positive, differs from its product's price, or
    /// does not multiply out to its subtotal.
    OrderItemPriceInvalid,
    /// The items' subtotals do not add up to the order's total.
    OrderTotalPriceMismatch,
    /// The order is not in a status from which the named operation may start.
    InvalidOrderStatus(String),
    /// The restaurant does not take orders.
    InactiveRestaurant,
    CustomerNotFound,
    RestaurantNotFound,
    SaveOrderError,
    OrderNotFound,
}

/// What an [`OrderDomainError`] holds.
pub enum OrderDomainErrorView {
    TotalPriceZeroError,
    OrderItemPriceInvalid,
    OrderTotalPriceMismatch,
    InvalidOrderStatus(Seq<char>),
    InactiveRestaurant,
    CustomerNotFound,
    RestaurantNotFound,
    SaveOrderError,
    OrderNotFound,
}

impl View for OrderDomainError {
    type V = OrderDomainErrorView;

    open spec fn view(&self) -> OrderDomainErrorView {
        match self {
            OrderDomainError::TotalPriceZeroError => OrderDomainErrorView::TotalPriceZeroError,
            OrderDomainError::OrderItemPriceInvalid => OrderDomainErrorView::OrderItemPriceInvalid,
            OrderDomainError::OrderTotalPriceMismatch => {
                OrderDomainErrorView::OrderTotalPriceMismatch
            },
            OrderDomainError::InvalidOrderStatus(operation) => {
                OrderDomainErrorView::InvalidOrderStatus(operation@)
            },
            OrderDomainError::InactiveRestaurant => OrderDomainErrorView::InactiveRestaurant,
            OrderDomainError::CustomerNotFound => OrderDomainErrorView::CustomerNotFound,
            OrderDomainError::RestaurantNotFound => OrderDomainErrorView::RestaurantNotFound,
            OrderDomainError::SaveOrderError => OrderDomainErrorView::SaveOrderError,
            OrderDomainError::OrderNotFound => OrderDomainErrorView::OrderNotFound,
        }
    }
}

impl OrderDomainErrorView {
    /// The sentence that describes the error.
    pub open spec fn message(self) -> Seq<char> {
        match self {
            OrderDomainErrorView::TotalPriceZeroError =>
                "the total price of order should be greater than zero"@,
            OrderDomainErrorView::OrderItemPriceInvalid => "the price of order item is invalid"@,
            OrderDomainErrorView::OrderTotalPriceMismatch =>
                "the price of individual order items does not add up to the total price of order"@,
            OrderDomainErrorView::InvalidOrderStatus(operation) =>
                "the order status is invalid for "@ + operation + " operation"@,
            OrderDomainErrorView::InactiveRestaurant => "inactive restaurant"@,
            OrderDomainErrorView::CustomerNotFound => "customer not found"@,
            OrderDomainErrorView::RestaurantNotFound => "restaurant not found"@,
            OrderDomainErrorView::SaveOrderError => "could not save order"@,
            OrderDomainErrorView::OrderNotFound => "order not found"@,
        }
    }
}

/// Why `outcome` is a refusal, if it is one.
pub open spec fn refusal<T>(outcome: Result<T, OrderDomainError>) -> Option<OrderDomainErrorView> {
    match outcome {
        Ok(_) => None,
        Err(error) => Some(error@),
    }
}

impl OrderDomainError {
    /// The error for an operation that the order's status does not allow.
    pub fn invalid_status(operation: &str) -> (error: Self)
        ensures
            error@ == OrderDomainErrorView::InvalidOrderStatus(operation@),
    {
        OrderDomainError::InvalidOrderStatus(String::from_str(operation))
    }

    /// Describes the error in a sentence.
    pub fn to_string(&self) -> (text: String)
        ensures
            text@ == self@.message(),
    {
        match self {
            OrderDomainError::TotalPriceZeroError => String::from_str(
                "the total price of order should be greater than zero",
            ),
            OrderDomainError::OrderItemPriceInvalid => String::from_str(
                "the price of order item is invalid",
            ),
            OrderDomainError::OrderTotalPriceMismatch => String::from_str(
                "the price of individual order items does not add up to the total price of order",
            ),
            OrderDomainError::InvalidOrderStatus(operation) => {
                let mut text = String::from_str("the order status is invalid for ");
                text.append(operation.as_str());
                text.append(" operation");
                text
            },
            OrderDomainError::InactiveRestaurant => String::from_str("inactive restaurant"),
            OrderDomainError::CustomerNotFound => String::from_str("customer not found"),
            OrderDomainError::RestaurantNotFound => String::from_str("restaurant not found"),
            OrderDomainError::SaveOrderError => String::from_str("could not save order"),
            OrderDomainError::OrderNotFound => String::from_str("order not found"),
        }
    }
}

impl PartialEq for OrderDomainError {
    /// Two errors are equal when they are of the same kind and, for a refused
    /// status change, name the same operation.
    fn eq(&self, other: &Self) -> (equal: bool) {
        match self {
            OrderDomainError::TotalPriceZeroError => matches!(
                other,
                OrderDomainError::TotalPriceZeroError
            ),
            OrderDomainError::OrderItemPriceInvalid => matches!(
                other,
                OrderDomainError::OrderItemPriceInvalid
            ),
            OrderDomainError::OrderTotalPriceMismatch => matches!(
                other,
                OrderDomainError::OrderTotalPriceMismatch
            ),
            OrderDomainError::InvalidOrderStatus(left) => match other {
                OrderDomainError::InvalidOrderStatus(right) => *left == *right,
                _ => false,
            },
            OrderDomainError::InactiveRestaurant => matches!(
                other,
                OrderDomainError::InactiveRestaurant
            ),
            OrderDomainError::CustomerNotFound => matches!(
                other,
                OrderDomainError::CustomerNotFound
            ),
            OrderDomainError::RestaurantNotFound => matches!(
                other,
                OrderDomainError::RestaurantNotFound
            ),
            OrderDomainError::SaveOrderError => matches!(other, OrderDomainError::SaveOrderError),
            OrderDomainError::OrderNotFound => matches!(other, OrderDomainError::OrderNotFound),
        }
    }
}

impl PartialEqSpecImpl for OrderDomainError {
    open spec fn obeys_eq_spec() -> bool {
        true
    }

    open spec fn eq_spec(&self, other: &Self) -> bool {
        self@ == other@
    }
}

} // verus!
