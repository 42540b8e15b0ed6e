use ticket_primitives::order::{Order, OrderError};

#[test]
fn order_total_of_widgets() {
    let order = Order::new("Widget".to_string(), 3, 250).unwrap();
    assert_eq!(order.total(), Ok(750));
}

#[test]
fn order_accepts_smallest_values() {
    let order = Order::new("W".to_string(), 1, 1).unwrap();
    assert_eq!(order.product_name(), "W");
    assert_eq!(*order.quantity(), 1);
    assert_eq!(*order.unit_price(), 1);
    assert_eq!(order.total(), Ok(1));
}

#[test]
fn order_rejects_zero_quantity_or_price() {
    assert_eq!(
        Order::new("Widget".to_string(), 0, 1).err(),
        Some(OrderError::QuantityZero)
    );
    assert_eq!(
        Order::new("Widget".to_string(), 1, 0).err(),
        Some(OrderError::PriceZero)
    );
}

#[test]
fn order_name_bounds() {
    assert_eq!(
        Order::new(String::new(), 1, 1).err(),
        Some(OrderError::NameEmpty)
    );
    assert!(Order::new("n".repeat(300), 1, 1).is_ok());
    assert_eq!(
        Order::new("n".repeat(301), 1, 1).err(),
        Some(OrderError::NameTooLong)
    );
    assert_eq!(
        Order::new("ñ".repeat(151), 1, 1).err(),
        Some(OrderError::NameTooLong)
    );
}

#[test]
fn order_reports_first_broken_rule() {
    assert_eq!(Order::new(String::new(), 0, 0).err(), Some(OrderError::NameEmpty));
    assert_eq!(
        Order::new("Widget".to_string(), 0, 0).err(),
        Some(OrderError::QuantityZero)
    );
}

#[test]
fn order_setters_replace_valid_values() {
    let mut order = Order::new("Widget".to_string(), 3, 250).unwrap();
    assert_eq!(order.set_product_name("Gadget".to_string()), Ok(()));
    assert_eq!(order.set_quantity(4), Ok(()));
    assert_eq!(order.set_unit_price(100), Ok(()));
    assert_eq!(order.product_name(), "Gadget");
    assert_eq!(*order.quantity(), 4);
    assert_eq!(*order.unit_price(), 100);
    assert_eq!(order.total(), Ok(400));
}

#[test]
fn order_zero_quantity_leaves_order_unchanged() {
    let mut order = Order::new("Widget".to_string(), 3, 250).unwrap();
    assert_eq!(order.set_quantity(0), Err(OrderError::QuantityZero));
    assert_eq!(*order.quantity(), 3);
    assert_eq!(order.total(), Ok(750));
}

#[test]
fn order_failed_setters_leave_order_unchanged() {
    let mut order = Order::new("Widget".to_string(), 3, 250).unwrap();
    assert_eq!(order.set_unit_price(0), Err(OrderError::PriceZero));
    assert_eq!(order.set_product_name(String::new()), Err(OrderError::NameEmpty));
    assert_eq!(
        order.set_product_name("x".repeat(301)),
        Err(OrderError::NameTooLong)
    );
    assert_eq!(order.product_name(), "Widget");
    assert_eq!(*order.unit_price(), 250);
}

#[test]
fn order_total_overflow_is_an_error() {
    let order = Order::new("Bulk".to_string(), u32::MAX, 2).unwrap();
    assert_eq!(order.total(), Err(OrderError::TotalOverflow));
    let order = Order::new("Bulk".to_string(), 65536, 65535).unwrap();
    assert_eq!(order.total(), Ok(4294901760));
}

#[test]
fn order_error_messages() {
    assert_eq!(OrderError::NameEmpty.message(), "Product name can't be empty");
    assert_eq!(OrderError::NameTooLong.message(), "Product name is too long");
    assert_eq!(OrderError::QuantityZero.message(), "Quantity is zero");
    assert_eq!(OrderError::PriceZero.message(), "Price is zero");
    assert_eq!(
        OrderError::TotalOverflow.message(),
        "Total does not fit in 32 bits"
    );
}
