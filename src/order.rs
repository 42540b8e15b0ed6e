use vstd::prelude::*;

use crate::byte_len;

verus! {

/// Most bytes a product name may hold.
pub const NAME_MAX_BYTES: usize = 300;

/// Why an order, or a change to one, was refused.
#[derive(Debug, Clone, Copy, PartialEq, Eq, Structural)]
pub enum OrderError {
    NameEmpty,
    NameTooLong,
    QuantityZero,
    PriceZero,
    TotalOverflow,
}

/// The message that each order error renders as.
pub open spec fn order_error_message(e: OrderError) -> Seq<char> {
    match e {
        OrderError::NameEmpty => "Product name can't be empty"@,
        OrderError::NameTooLong => "Product name is too long"@,
        OrderError::QuantityZero => "Quantity is zero"@,
        OrderError::PriceZero => "Price is zero"@,
        OrderError::TotalOverflow => "Total does not fit in 32 bits"@,
    }
}

impl OrderError {
    /// The one-line text of the error.
    pub fn message(&self) -> (r: &'static str)
        ensures
            r@ == order_error_message(*self),
    {
        match self {
            OrderError::NameEmpty => "Product name can't be empty",
            OrderError::NameTooLong => "Product name is too long",
            OrderError::QuantityZero => "Quantity is zero",
            OrderError::PriceZero => "Price is zero",
            OrderError::TotalOverflow => "Total does not fit in 32 bits",
        }
    }
}

/// The rule on a product name: 1 to 300 bytes.
pub open spec fn name_check(name: Seq<char>) -> Result<(), OrderError> {
    if byte_len(name) > NAME_MAX_BYTES {
        Err(OrderError::NameTooLong)
    } else if byte_len(name) == 0 {
        Err(OrderError::NameEmpty)
    } else {
        Ok(())
    }
}

/// The rule on a quantity: above zero.
pub open spec fn quantity_check(quantity: u32) -> Result<(), OrderError> {
    if quantity == 0 {
        Err(OrderError::QuantityZero)
    } else {
        Ok(())
    }
}

/// The rule on a unit price: above zero.
pub open spec fn price_check(price: u32) -> Result<(), OrderError> {
    if price == 0 {
        Err(OrderError::PriceZero)
    } else {
        Ok(())
    }
}

/// An order as values: product name, quantity, and unit price in cents.
pub struct OrderView {
    pub product_name: Seq<char>,
    pub quantity: u32,
    pub unit_price: u32,
}

/// Whether all three fields meet their rules.
pub open spec fn order_valid(o: OrderView) -> bool {
    &&& name_check(o.product_name) is Ok
    &&& quantity_check(o.quantity) is Ok
    &&& price_check(o.unit_price) is Ok
}

/// What building an order gives: the first rule broken, in the order name,
/// quantity, price, or the order itself.
pub open spec fn order_of(name: Seq<char>, quantity: u32, unit_price: u32) -> Result<
    OrderView,
    OrderError,
> {
    match name_check(name) {
        Err(e) => Err(e),
        Ok(()) => match quantity_check(quantity) {
            Err(e) => Err(e),
            Ok(()) => match price_check(unit_price) {
                Err(e) => Err(e),
                Ok(()) => Ok(OrderView { product_name: name, quantity, unit_price }),
            },
        },
    }
}

/// The total of an order, in cents, when it fits in 32 bits.
pub open spec fn total_of(o: OrderView) -> Result<u32, OrderError> {
    if o.quantity * o.unit_price <= u32::MAX {
        Ok((o.quantity * o.unit_price) as u32)
    } else {
        Err(OrderError::TotalOverflow)
    }
}

/// With a valid name, an order of one unit at one cent is accepted, and a
/// quantity or a unit price of zero is refused with the matching error.
pub proof fn lemma_order_boundaries(name: Seq<char>, quantity: u32, unit_price: u32)
    requires
        name_check(name) is Ok,
    ensures
        order_of(name, 1, 1) is Ok,
        order_of(name, 0, unit_price) == Err::<OrderView, OrderError>(OrderError::QuantityZero),
        quantity >= 1 ==> order_of(name, quantity, 0) == Err::<OrderView, OrderError>(
            OrderError::PriceZero,
        ),
{
}

/// A product ordered in some quantity at some unit price, each field valid
/// at all times.
pub struct Order {
    product_name: String,
    quantity: u32,
    unit_price: u32,
}

impl View for Order {
    type V = OrderView;

    closed spec fn view(&self) -> OrderView {
        OrderView {
            product_name: self.product_name@,
            quantity: self.quantity,
            unit_price: self.unit_price,
        }
    }
}

/// An attempt's outcome, with the order seen as values.
pub open spec fn order_result_view(r: Result<Order, OrderError>) -> Result<OrderView, OrderError> {
    match r {
        Ok(o) => Ok(o@),
        Err(e) => Err(e),
    }
}

impl Order {
    #[verifier::type_invariant]
    spec fn inv(&self) -> bool {
        order_valid(self@)
    }

    /// Builds an order once all three fields pass their rules.
    pub fn new(product_name: String, quantity: u32, unit_price: u32) -> (r: Result<
        Order,
        OrderError,
    >)
        ensures
            order_result_view(r) == order_of(product_name@, quantity, unit_price),
    {
        Order::validate_name(product_name.as_str())?;
        Order::validate_quantity(&quantity)?;
        Order::validate_price(&unit_price)?;
        Ok(Order { product_name, quantity, unit_price })
    }

    /// The product's name.
    pub fn product_name(&self) -> (r: &str)
        ensures
            r@ == self@.product_name,
            name_check(r@) is Ok,
    {
        proof {
            use_type_invariant(self);
        }
        self.product_name.as_str()
    }

    /// Replaces the product's name if the new one passes its rule; on
    /// failure the order is left as it was.
    pub fn set_product_name(&mut self, product_name: String) -> (r: Result<(), OrderError>)
        ensures
            r == name_check(product_name@),
            r is Ok ==> final(self)@ == (OrderView { product_name: product_name@, ..old(self)@ }),
            r is Err ==> final(self)@ == old(self)@,
    {
        proof {
            use_type_invariant(&*self);
        }
        Order::validate_name(product_name.as_str())?;
        self.product_name = product_name;
        Ok(())
    }

    /// How many units are ordered.
    pub fn quantity(&self) -> (r: &u32)
        ensures
            *r == self@.quantity,
            *r >= 1,
    {
        proof {
            use_type_invariant(self);
        }
        &self.quantity
    }

    /// Replaces the quantity if the new one passes its rule; on failure the
    /// order is left as it was.
    pub fn set_quantity(&mut self, quantity: u32) -> (r: Result<(), OrderError>)
        ensures
            r == quantity_check(quantity),
            r is Ok ==> final(self)@ == (OrderView { quantity, ..old(self)@ }),
            r is Err ==> final(self)@ == old(self)@,
    {
        proof {
            use_type_invariant(&*self);
        }
        Order::validate_quantity(&quantity)?;
        self.quantity = quantity;
        Ok(())
    }

    /// The price of one unit, in cents.
    pub fn unit_price(&self) -> (r: &u32)
        ensures
            *r == self@.unit_price,
            *r >= 1,
    {
        proof {
            use_type_invariant(self);
        }
        &self.unit_price
    }

    /// Replaces the unit price if the new one passes its rule; on failure
    /// the order is left as it was.
    pub fn set_unit_price(&mut self, unit_price: u32) -> (r: Result<(), OrderError>)
        ensures
            r == price_check(unit_price),
            r is Ok ==> final(self)@ == (OrderView { unit_price, ..old(self)@ }),
            r is Err ==> final(self)@ == old(self)@,
    {
        proof {
            use_type_invariant(&*self);
        }
        Order::validate_price(&unit_price)?;
        self.unit_price = unit_price;
        Ok(())
    }

    /// Quantity times unit price, in cents; an error where the product does
    /// not fit in 32 bits.
    pub fn total(&self) -> (r: Result<u32, OrderError>)
        ensures
            r == total_of(self@),
    {
        match self.quantity.checked_mul(self.unit_price) {
            Some(t) => Ok(t),
            None => Err(OrderError::TotalOverflow),
        }
    }

    fn validate_name(name: &str) -> (r: Result<(), OrderError>)
        ensures
            r == name_check(name@),
    {
        let len: usize = name.as_bytes().len();
        if len > NAME_MAX_BYTES {
            return Err(OrderError::NameTooLong);
        }
        if len == 0 {
            return Err(OrderError::NameEmpty);
        }
        Ok(())
    }

    fn validate_quantity(quantity: &u32) -> (r: Result<(), OrderError>)
        ensures
            r == quantity_check(*quantity),
    {
        if *quantity == 0 {
            return Err(OrderError::QuantityZero);
        }
        Ok(())
    }

    fn validate_price(price: &u32) -> (r: Result<(), OrderError>)
        ensures
            r == price_check(*price),
    {
        if *price == 0 {
            return Err(OrderError::PriceZero);
        }
        Ok(())
    }
}

} // verus!
