use crate::order::Order;
use crate::order::OrderCreate;
use crate::order::OrderError;
use crate::order::OrderFailure;
use crate::product::Product;
use crate::product::ProductError;
use crate::user::User;
use crate::user::UserError;
use vstd::prelude::*;
use vstd::string::StringExecFns;

verus! {

/// The content of what a step of the order workflow returns: the next step
/// is kept as it is, a failure is taken by its view.
pub open spec fn step_view<A>(r: Result<A, OrderError>) -> Result<A, OrderFailure> {
    match r {
        Ok(a) => Ok(a),
        Err(e) => Err(e@),
    }
}

/// An order whose user has yet to be looked up. This is where the creation
/// of an order starts: the user is checked, then the product, then the stock
/// is reserved, and only then is the order created. The first failure ends
/// the workflow.
pub struct AwaitingUser<P> {
    order: Order<P>,
}

/// An order whose user exists and whose product has yet to be looked up.
pub struct AwaitingProduct<P> {
    order: Order<P>,
}

/// An order whose user and product exist and whose stock has yet to be
/// reserved.
pub struct AwaitingStock<P> {
    order: Order<P>,
}

/// What the lookup of the order's user means for the workflow: the order
/// goes on to the next step, or the workflow ends with a failure.
pub open spec fn user_checked<P>(order: Order<P>, found: Result<Option<User>, UserError>) -> Result<
    Order<P>,
    OrderFailure,
> {
    match found {
        Ok(Some(_)) => Ok(order),
        Ok(None) => Err(OrderFailure::InvalidUser(order.user_id@)),
        Err(e) => Err(OrderFailure::InvalidUser("User validation failed: "@ + e@.text())),
    }
}

/// What the lookup of the order's product means for the workflow: the order
/// goes on to the next step, or the workflow ends with a failure.
pub open spec fn product_checked<P>(
    order: Order<P>,
    found: Result<Option<Product<P>>, ProductError>,
) -> Result<Order<P>, OrderFailure> {
    match found {
        Ok(Some(_)) => Ok(order),
        Ok(None) => Err(OrderFailure::InvalidProduct(order.product_id@)),
        Err(e) => Err(OrderFailure::InvalidProduct("Product validation failed: "@ + e@.text())),
    }
}

/// What the reservation of the order's stock means for the workflow: the
/// payload for the order's creation, or the failure that ends the workflow.
pub open spec fn stock_reserved<P>(order: Order<P>, reserved: Result<(), ProductError>) -> Result<
    OrderCreate<P>,
    OrderFailure,
> {
    match reserved {
        Ok(()) => Ok(
            OrderCreate {
                user_id: order.user_id,
                product_id: order.product_id,
                quantity: order.quantity,
                total: order.total,
            },
        ),
        Err(e) => Err(OrderFailure::InsufficientStock("Stock reservation failed: "@ + e@.text())),
    }
}

impl<P: Copy> AwaitingUser<P> {
    /// The order that the workflow is about.
    pub closed spec fn order(&self) -> Order<P> {
        self.order
    }

    /// Starts the workflow for `order`.
    pub fn begin(order: Order<P>) -> (r: Self)
        ensures
            r.order() == order,
    {
        AwaitingUser { order }
    }

    /// The identifier of the user to look up.
    pub fn user_id(&self) -> (r: String)
        ensures
            r@ == self.order().user_id@,
    {
        self.order.user_id.clone()
    }

    /// Takes the result of the lookup. A user that exists lets the workflow
    /// go on; one that does not, or a lookup that failed, ends it.
    pub fn resolve(self, found: Result<Option<User>, UserError>) -> (r: Result<
        AwaitingProduct<P>,
        OrderError,
    >)
        ensures
            match r {
                Ok(next) => user_checked(self.order(), found) == Ok::<Order<P>, OrderFailure>(
                    next.order(),
                ),
                Err(e) => user_checked(self.order(), found) == Err::<Order<P>, OrderFailure>(e@),
            },
    {
        match found {
            Ok(Some(_)) => Ok(AwaitingProduct { order: self.order }),
            Ok(None) => Err(OrderError::InvalidUser(self.order.user_id)),
            Err(e) => Err(
                OrderError::InvalidUser(
                    String::from_str("User validation failed: ").concat(e.message().as_str()),
                ),
            ),
        }
    }
}

impl<P: Copy> AwaitingProduct<P> {
    /// The order that the workflow is about.
    pub closed spec fn order(&self) -> Order<P> {
        self.order
    }

    /// The identifier of the product to look up.
    pub fn product_id(&self) -> (r: String)
        ensures
            r@ == self.order().product_id@,
    {
        self.order.product_id.clone()
    }

    /// Takes the result of the lookup. A product that exists lets the
    /// workflow go on; one that does not, or a lookup that failed, ends it.
    pub fn resolve(self, found: Result<Option<Product<P>>, ProductError>) -> (r: Result<
        AwaitingStock<P>,
        OrderError,
    >)
        ensures
            match r {
                Ok(next) => product_checked(self.order(), found) == Ok::<Order<P>, OrderFailure>(
                    next.order(),
                ),
                Err(e) => product_checked(self.order(), found) == Err::<Order<P>, OrderFailure>(
                    e@,
                ),
            },
    {
        match found {
            Ok(Some(_)) => Ok(AwaitingStock { order: self.order }),
            Ok(None) => Err(OrderError::InvalidProduct(self.order.product_id)),
            Err(e) => Err(
                OrderError::InvalidProduct(
                    String::from_str("Product validation failed: ").concat(e.message().as_str()),
                ),
            ),
        }
    }
}

impl<P: Copy> AwaitingStock<P> {
    /// The order that the workflow is about.
    pub closed spec fn order(&self) -> Order<P> {
        self.order
    }

    /// The identifier of the product whose stock is to be reserved.
    pub fn product_id(&self) -> (r: String)
        ensures
            r@ == self.order().product_id@,
    {
        self.order.product_id.clone()
    }

    /// How many units are to be reserved.
    pub fn quantity(&self) -> (r: u32)
        ensures
            r == self.order().quantity,
    {
        self.order.quantity
    }

    /// Takes the result of the reservation. Where it succeeded, the payload
    /// for the order's creation comes out; where it failed, the workflow
    /// ends.
    pub fn resolve(self, reserved: Result<(), ProductError>) -> (r: Result<
        OrderCreate<P>,
        OrderError,
    >)
        ensures
            step_view(r) == stock_reserved(self.order(), reserved),
    {
        match reserved {
            Ok(()) => Ok(self.order.into_create()),
            Err(e) => Err(
                OrderError::InsufficientStock(
                    String::from_str("Stock reservation failed: ").concat(e.message().as_str()),
                ),
            ),
        }
    }
}

} // verus!
