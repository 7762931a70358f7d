use ordering_service::error::OrderDomainError;

#[test]
fn errors_describe_themselves() {
    assert_eq!(
        OrderDomainError::TotalPriceZeroError.to_string(),
        "the total price of order should be greater than zero"
    );
    assert_eq!(
        OrderDomainError::OrderItemPriceInvalid.to_string(),
        "the price of order item is invalid"
    );
    assert_eq!(
        OrderDomainError::OrderTotalPriceMismatch.to_string(),
        "the price of individual order items does not add up to the total price of order"
    );
    assert_eq!(OrderDomainError::InactiveRestaurant.to_string(), "inactive restaurant");
    assert_eq!(OrderDomainError::CustomerNotFound.to_string(), "customer not found");
    assert_eq!(OrderDomainError::RestaurantNotFound.to_string(), "restaurant not found");
    assert_eq!(OrderDomainError::SaveOrderError.to_string(), "could not save order");
    assert_eq!(OrderDomainError::OrderNotFound.to_string(), "order not found");
}

#[test]
fn invalid_status_names_the_operation() {
    assert_eq!(
        OrderDomainError::InvalidOrderStatus(String::from("pay")).to_string(),
        "the order status is invalid for pay operation"
    );
    assert_eq!(
        OrderDomainError::invalid_status("init cancel").to_string(),
        "the order status is invalid for init cancel operation"
    );
    assert_eq!(
        OrderDomainError::invalid_status("").to_string(),
        "the order status is invalid for  operation"
    );
}

#[test]
fn invalid_status_is_built_from_the_operation() {
    assert_eq!(
        OrderDomainError::invalid_status("approve"),
        OrderDomainError::InvalidOrderStatus(String::from("approve"))
    );
}

#[test]
fn errors_compare_by_kind_and_operation() {
    assert_eq!(OrderDomainError::OrderNotFound, OrderDomainError::OrderNotFound);
    assert_eq!(OrderDomainError::TotalPriceZeroError, OrderDomainError::TotalPriceZeroError);
    assert_ne!(OrderDomainError::OrderNotFound, OrderDomainError::CustomerNotFound);
    assert_ne!(OrderDomainError::OrderItemPriceInvalid, OrderDomainError::OrderTotalPriceMismatch);
    assert_ne!(OrderDomainError::SaveOrderError, OrderDomainError::RestaurantNotFound);
    assert_eq!(
        OrderDomainError::invalid_status("pay"),
        OrderDomainError::invalid_status("pay")
    );
    assert_ne!(
        OrderDomainError::invalid_status("pay"),
        OrderDomainError::invalid_status("cancel")
    );
    assert_ne!(OrderDomainError::invalid_status("pay"), OrderDomainError::InactiveRestaurant);
    assert_ne!(OrderDomainError::InactiveRestaurant, OrderDomainError::invalid_status("pay"));
}
