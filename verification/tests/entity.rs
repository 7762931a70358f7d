use ordering_service::entity::{
    AggregateRoot, BaseEntity, Customer, Order, OrderItem, Product, Restaurant,
};
use ordering_service::error::OrderDomainError;
use ordering_service::money::Money;
use ordering_service::value_object::{
    CustomerId, OrderId, OrderItemId, OrderStatus, RestaurantId, StreetAddress, TrackingId,
};

fn product(id: u128, name: &str, price: i64) -> Product {
    Product::new(id, String::from(name), Money::new(price))
}

fn item(number: i64, product_price: i64, quantity: u64, price: i64, sub_total: i64) -> OrderItem {
    OrderItem::new(
        OrderItemId::from(number),
        OrderId::from(100),
        product(1, "Burger", product_price),
        quantity,
        Money::new(price),
        Money::new(sub_total),
    )
}

fn order(price: i64, items: Vec<OrderItem>) -> Order {
    Order::new(
        OrderId::from(100),
        CustomerId::from(200),
        RestaurantId::from(300),
        StreetAddress::new(
            400,
            String::from("1 Main Street"),
            String::from("1000AB"),
            String::from("Amsterdam"),
        ),
        Money::new(price),
        items,
        TrackingId::from(500),
    )
}

fn order_in(status: OrderStatus) -> Order {
    let mut order = order(2000, vec![item(0, 1000, 2, 1000, 2000)]);
    order.order_status = status;
    order.failure_messages = vec![String::from("earlier")];
    order
}

const STATUSES: [OrderStatus; 5] = [
    OrderStatus::Pending,
    OrderStatus::Paid,
    OrderStatus::Approved,
    OrderStatus::Cancelling,
    OrderStatus::Cancelled,
];

#[test]
fn base_entity_and_aggregate_root_keep_their_id() {
    assert_eq!(BaseEntity::new(OrderId::from(3)).id, OrderId::from(3));
    assert_eq!(AggregateRoot::new(OrderId::from(3)).base_entity.id, OrderId::from(3));
}

#[test]
fn customer_is_known_by_its_id() {
    let customer = Customer::new(77);
    assert_eq!(customer.aggregate_root.base_entity.id, CustomerId::from(77));
    assert_eq!(u128::from(customer), 77);
}

#[test]
fn product_keeps_what_it_was_made_of() {
    let burger = product(9, "Burger", 1000);
    assert_eq!(burger.base_entity.id.base_id.value, 9);
    assert_eq!(burger.name, "Burger");
    assert_eq!(burger.price, Money::new(1000));
    assert_eq!(u128::from(burger), 9);
}

#[test]
fn products_are_equal_by_name_and_price() {
    assert!(product(1, "Burger", 1000) == product(2, "Burger", 1000));
    assert!(product(1, "Burger", 1000) != product(1, "Burger", 1001));
    assert!(product(1, "Burger", 1000) != product(1, "Pizza", 1000));
    assert!(product(1, "", 0) == product(2, "", 0));
}

#[test]
fn restaurant_keeps_what_it_was_made_of() {
    let open = Restaurant::new(5, vec![product(1, "Burger", 1000)], true);
    assert!(open.is_active());
    assert_eq!(open.base_entity.id.base_id.value, 5);
    assert_eq!(open.products.len(), 1);
    assert_eq!(open.products[0].name, "Burger");
    assert_eq!(u128::from(open), 5);
    let closed = Restaurant::new(6, Vec::new(), false);
    assert!(!closed.is_active());
    assert!(closed.products.is_empty());
}

#[test]
fn order_item_keeps_what_it_was_made_of() {
    let line = item(4, 1000, 2, 1000, 2000);
    assert_eq!(line.base_entity.id, OrderItemId::from(4));
    assert_eq!(line.order_id, OrderId::from(100));
    assert_eq!(line.quantity, 2);
    assert_eq!(line.price, Money::new(1000));
    assert_eq!(line.sub_total, Money::new(2000));
    assert_eq!(line.product.price, Money::new(1000));
}

#[test]
fn item_price_is_valid_when_everything_agrees() {
    assert!(item(0, 1000, 2, 1000, 2000).is_price_valid());
    assert!(item(0, 1, 1, 1, 1).is_price_valid());
    assert!(item(0, 5, 0, 5, 0).is_price_valid());
}

#[test]
fn item_price_must_be_positive() {
    assert!(!item(0, 0, 2, 0, 0).is_price_valid());
    assert!(!item(0, -1000, 2, -1000, -2000).is_price_valid());
}

#[test]
fn item_price_must_be_the_price_of_its_product() {
    assert!(!item(0, 1100, 2, 1000, 2000).is_price_valid());
    assert!(!item(0, 0, 2, 1000, 2000).is_price_valid());
}

#[test]
fn item_price_must_multiply_out_to_the_subtotal() {
    assert!(!item(0, 1000, 2, 1000, 2001).is_price_valid());
    assert!(!item(0, 1000, 3, 1000, 2000).is_price_valid());
    assert!(!item(0, 1000, 0, 1000, 1000).is_price_valid());
}

#[test]
fn item_price_is_not_valid_when_the_product_overflows() {
    assert!(!item(0, i64::MAX, 2, i64::MAX, -2).is_price_valid());
    assert!(!item(0, 2, u64::MAX, 2, -2).is_price_valid());
    assert!(!item(0, 1, u64::MAX, 1, -1).is_price_valid());
}

#[test]
fn new_order_is_pending_and_has_no_failures() {
    let order = order(2000, vec![item(0, 1000, 2, 1000, 2000)]);
    assert_eq!(order.order_status, OrderStatus::Pending);
    assert!(order.failure_messages.is_empty());
    assert_eq!(order.aggregate_root.base_entity.id, OrderId::from(100));
    assert_eq!(order.customer_id, CustomerId::from(200));
    assert_eq!(order.restaurant_id, RestaurantId::from(300));
    assert_eq!(order.street_address.id, 400);
    assert_eq!(order.tracking_id, TrackingId::from(500));
    assert_eq!(order.price, Money::new(2000));
    assert_eq!(order.items.len(), 1);
    assert_eq!(u128::from(order), 100);
}

#[test]
fn total_price_must_be_positive() {
    assert_eq!(order(1, Vec::new()).validate_total_price(), Ok(()));
    assert_eq!(order(2000, Vec::new()).validate_total_price(), Ok(()));
    assert_eq!(
        order(0, Vec::new()).validate_total_price(),
        Err(OrderDomainError::TotalPriceZeroError)
    );
    assert_eq!(
        order(-2000, Vec::new()).validate_total_price(),
        Err(OrderDomainError::TotalPriceZeroError)
    );
}

#[test]
fn items_price_is_accepted_when_the_subtotals_add_up() {
    let one = order(2000, vec![item(0, 1000, 2, 1000, 2000)]);
    assert_eq!(one.validate_items_price(), Ok(()));
    let three = order(
        4550,
        vec![item(0, 1000, 2, 1000, 2000), item(1, 850, 3, 850, 2550), item(2, 7, 0, 7, 0)],
    );
    assert_eq!(three.validate_items_price(), Ok(()));
}

#[test]
fn items_price_of_an_empty_order_adds_up_to_zero() {
    assert_eq!(order(0, Vec::new()).validate_items_price(), Ok(()));
    assert_eq!(
        order(1, Vec::new()).validate_items_price(),
        Err(OrderDomainError::OrderTotalPriceMismatch)
    );
}

#[test]
fn an_invalid_item_is_refused() {
    let wrong_product_price = order(2000, vec![item(0, 1100, 2, 1000, 2000)]);
    assert_eq!(
        wrong_product_price.validate_items_price(),
        Err(OrderDomainError::OrderItemPriceInvalid)
    );
    let wrong_sub_total = order(2000, vec![item(0, 1000, 2, 1000, 1999)]);
    assert_eq!(
        wrong_sub_total.validate_items_price(),
        Err(OrderDomainError::OrderItemPriceInvalid)
    );
    let second_is_wrong = order(
        4550,
        vec![item(0, 1000, 2, 1000, 2000), item(1, 850, 3, 800, 2550)],
    );
    assert_eq!(
        second_is_wrong.validate_items_price(),
        Err(OrderDomainError::OrderItemPriceInvalid)
    );
}

#[test]
fn an_invalid_item_is_refused_before_a_wrong_sum() {
    let both = order(9999, vec![item(0, 1000, 2, 1000, 2000), item(1, 850, 3, 850, 2551)]);
    assert_eq!(both.validate_items_price(), Err(OrderDomainError::OrderItemPriceInvalid));
}

#[test]
fn a_wrong_sum_is_refused() {
    let too_little = order(2001, vec![item(0, 1000, 2, 1000, 2000)]);
    assert_eq!(too_little.validate_items_price(), Err(OrderDomainError::OrderTotalPriceMismatch));
    let too_much = order(
        4000,
        vec![item(0, 1000, 2, 1000, 2000), item(1, 850, 3, 850, 2550)],
    );
    assert_eq!(too_much.validate_items_price(), Err(OrderDomainError::OrderTotalPriceMismatch));
}

#[test]
fn a_sum_beyond_the_range_of_the_total_is_a_wrong_sum() {
    let huge = item(0, i64::MAX, 1, i64::MAX, i64::MAX);
    let small = item(1, 1, 1, 1, 1);
    let order = order(i64::MAX, vec![huge, small]);
    assert_eq!(order.validate_items_price(), Err(OrderDomainError::OrderTotalPriceMismatch));
}

#[test]
fn an_invalid_item_after_a_sum_beyond_the_range_is_still_refused() {
    let huge = item(0, i64::MAX, 1, i64::MAX, i64::MAX);
    let small = item(1, 1, 1, 1, 1);
    let wrong = item(2, 2, 1, 1, 1);
    let order = order(i64::MAX, vec![huge, small, wrong]);
    assert_eq!(order.validate_items_price(), Err(OrderDomainError::OrderItemPriceInvalid));
}

#[test]
fn order_is_validated_total_first() {
    let good = order(2000, vec![item(0, 1000, 2, 1000, 2000)]);
    assert_eq!(good.validate_order(), Ok(()));
    let zero_with_bad_item = order(0, vec![item(0, 1100, 2, 1000, 2000)]);
    assert_eq!(zero_with_bad_item.validate_order(), Err(OrderDomainError::TotalPriceZeroError));
    let empty_and_free = order(0, Vec::new());
    assert_eq!(empty_and_free.validate_order(), Err(OrderDomainError::TotalPriceZeroError));
    let bad_item = order(2000, vec![item(0, 1100, 2, 1000, 2000)]);
    assert_eq!(bad_item.validate_order(), Err(OrderDomainError::OrderItemPriceInvalid));
    let bad_sum = order(2500, vec![item(0, 1000, 2, 1000, 2000)]);
    assert_eq!(bad_sum.validate_order(), Err(OrderDomainError::OrderTotalPriceMismatch));
}

#[test]
fn validation_leaves_the_status_alone() {
    let order = order(2000, vec![item(0, 1000, 2, 1000, 2000)]);
    assert_eq!(order.validate_order(), Ok(()));
    assert_eq!(order.order_status, OrderStatus::Pending);
}

#[test]
fn pay_succeeds_only_from_pending() {
    for status in STATUSES {
        let mut order = order_in(status);
        let outcome = order.pay();
        if status == OrderStatus::Pending {
            assert_eq!(outcome, Ok(()));
            assert_eq!(order.order_status, OrderStatus::Paid);
        } else {
            assert_eq!(outcome, Err(OrderDomainError::invalid_status("pay")));
            assert_eq!(order.order_status, status);
        }
        assert_eq!(order.failure_messages, vec![String::from("earlier")]);
    }
}

#[test]
fn approve_succeeds_only_from_paid() {
    for status in STATUSES {
        let mut order = order_in(status);
        let outcome = order.approve();
        if status == OrderStatus::Paid {
            assert_eq!(outcome, Ok(()));
            assert_eq!(order.order_status, OrderStatus::Approved);
        } else {
            assert_eq!(outcome, Err(OrderDomainError::invalid_status("approve")));
            assert_eq!(order.order_status, status);
        }
        assert_eq!(order.failure_messages, vec![String::from("earlier")]);
    }
}

#[test]
fn init_cancel_succeeds_only_from_paid() {
    for status in STATUSES {
        let mut order = order_in(status);
        let outcome = order.init_cancel(vec![String::from("card declined"), String::from("x")]);
        if status == OrderStatus::Paid {
            assert_eq!(outcome, Ok(()));
            assert_eq!(order.order_status, OrderStatus::Cancelling);
            assert_eq!(
                order.failure_messages,
                vec![String::from("earlier"), String::from("card declined"), String::from("x")]
            );
        } else {
            assert_eq!(outcome, Err(OrderDomainError::invalid_status("init cancel")));
            assert_eq!(order.order_status, status);
            assert_eq!(order.failure_messages, vec![String::from("earlier")]);
        }
    }
}

#[test]
fn cancel_succeeds_only_from_cancelling_or_pending() {
    for status in STATUSES {
        let mut order = order_in(status);
        let outcome = order.cancel(vec![String::from("kitchen closed")]);
        if status == OrderStatus::Cancelling || status == OrderStatus::Pending {
            assert_eq!(outcome, Ok(()));
            assert_eq!(order.order_status, OrderStatus::Cancelled);
            assert_eq!(
                order.failure_messages,
                vec![String::from("earlier"), String::from("kitchen closed")]
            );
        } else {
            assert_eq!(outcome, Err(OrderDomainError::invalid_status("cancel")));
            assert_eq!(order.order_status, status);
            assert_eq!(order.failure_messages, vec![String::from("earlier")]);
        }
    }
}

#[test]
fn an_order_walks_from_pending_to_approved() {
    let mut order = order(2000, vec![item(0, 1000, 2, 1000, 2000)]);
    assert_eq!(order.pay(), Ok(()));
    assert_eq!(order.approve(), Ok(()));
    assert_eq!(order.order_status, OrderStatus::Approved);
    assert_eq!(order.pay(), Err(OrderDomainError::invalid_status("pay")));
    assert_eq!(order.cancel(Vec::new()), Err(OrderDomainError::invalid_status("cancel")));
    assert_eq!(order.order_status, OrderStatus::Approved);
}

#[test]
fn a_paid_order_is_cancelled_in_two_steps_and_keeps_every_message() {
    let mut order = order(2000, vec![item(0, 1000, 2, 1000, 2000)]);
    assert_eq!(order.pay(), Ok(()));
    assert_eq!(order.init_cancel(vec![String::from("restaurant rejected")]), Ok(()));
    assert_eq!(order.order_status, OrderStatus::Cancelling);
    assert_eq!(order.cancel(vec![String::from("payment undone")]), Ok(()));
    assert_eq!(order.order_status, OrderStatus::Cancelled);
    assert_eq!(
        order.failure_messages,
        vec![String::from("restaurant rejected"), String::from("payment undone")]
    );
    assert_eq!(order.cancel(Vec::new()), Err(OrderDomainError::invalid_status("cancel")));
}

#[test]
fn cancelling_with_no_message_adds_none() {
    let mut order = order(2000, vec![item(0, 1000, 2, 1000, 2000)]);
    assert_eq!(order.cancel(Vec::new()), Ok(()));
    assert_eq!(order.order_status, OrderStatus::Cancelled);
    assert!(order.failure_messages.is_empty());
}
