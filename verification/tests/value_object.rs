use ordering_service::value_object::{
    BaseId, CustomerId, OrderApprovalStatus, OrderId, OrderItemId, OrderStatus, PaymentStatus,
    ProductId, RestaurantId, StreetAddress, TrackingId,
};

#[test]
fn identifiers_wrap_and_give_back_their_value() {
    let raw: u128 = 0xa1a2a3a4_b1b2_c1c2_d1d2_d3d4d5d6d7d8;
    assert_eq!(CustomerId::from(raw).base_id.value, raw);
    assert_eq!(u128::from(CustomerId::from(raw)), raw);
    assert_eq!(OrderId::from(raw).base_id.value, raw);
    assert_eq!(u128::from(OrderId::from(raw)), raw);
    assert_eq!(ProductId::from(raw).base_id.value, raw);
    assert_eq!(u128::from(ProductId::from(raw)), raw);
    assert_eq!(RestaurantId::from(raw).base_id.value, raw);
    let back: u128 = RestaurantId::from(raw).into();
    assert_eq!(back, raw);
    assert_eq!(TrackingId::from(raw).base_id.value, raw);
    let back: u128 = TrackingId::from(raw).into();
    assert_eq!(back, raw);
}

#[test]
fn order_item_id_wraps_a_number() {
    assert_eq!(OrderItemId::from(3).base_id.value, 3);
    assert_eq!(OrderItemId::from(-1).base_id.value, -1);
    assert_eq!(i64::from(OrderItemId::from(42)), 42);
}

#[test]
fn base_id_keeps_its_value() {
    assert_eq!(BaseId::new(5u128).value, 5);
    assert_eq!(BaseId::new(String::from("abc")).value, "abc");
}

#[test]
fn identifiers_compare_by_value() {
    assert_eq!(CustomerId::from(1), CustomerId::from(1));
    assert_ne!(CustomerId::from(1), CustomerId::from(2));
    assert_eq!(TrackingId::from(9), TrackingId::from(9));
}

#[test]
fn order_status_spells_itself_out() {
    assert_eq!(OrderStatus::Pending.to_string(), "Pending");
    assert_eq!(OrderStatus::Paid.to_string(), "Paid");
    assert_eq!(OrderStatus::Approved.to_string(), "Approved");
    assert_eq!(OrderStatus::Cancelling.to_string(), "Cancelling");
    assert_eq!(OrderStatus::Cancelled.to_string(), "Cancelled");
}

#[test]
fn statuses_compare_by_variant() {
    assert_eq!(OrderStatus::Paid, OrderStatus::Paid);
    assert_ne!(OrderStatus::Cancelling, OrderStatus::Cancelled);
    assert_ne!(PaymentStatus::Completed, PaymentStatus::Failed);
    assert_ne!(PaymentStatus::Failed, PaymentStatus::Canceled);
    assert_ne!(OrderApprovalStatus::Approved, OrderApprovalStatus::Rejected);
}

#[test]
fn street_address_keeps_its_parts() {
    let address = StreetAddress::new(
        7,
        String::from("1 Main Street"),
        String::from("1000AB"),
        String::from("Amsterdam"),
    );
    assert_eq!(address.id, 7);
    assert_eq!(address.street, "1 Main Street");
    assert_eq!(address.postal_code, "1000AB");
    assert_eq!(address.city, "Amsterdam");
}
