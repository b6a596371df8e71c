use crate::entity::Entity;
use crate::error::FrameworkError;
use vstd::prelude::*;
use vstd::string::StringExecFns;

verus! {

/// A customer's order. The library carries the total and never computes
/// with it, so its type `P` is the caller's choice.
#[derive(Debug, Clone)]
pub struct Order<P> {
    pub id: String,
    pub user_id: String,
    pub product_id: String,
    pub quantity: u32,
    pub total: P,
    pub status: String,
}

/// The content of an [`Order`].
pub ghost struct OrderView<P> {
    pub id: Seq<char>,
    pub user_id: Seq<char>,
    pub product_id: Seq<char>,
    pub quantity: u32,
    pub total: P,
    pub status: Seq<char>,
}

impl<P> View for Order<P> {
    type V = OrderView<P>;

    open spec fn view(&self) -> OrderView<P> {
        OrderView {
            id: self.id@,
            user_id: self.user_id@,
            product_id: self.product_id@,
            quantity: self.quantity,
            total: self.total,
            status: self.status@,
        }
    }
}

/// What is needed to create an order.
#[derive(Debug)]
pub struct OrderCreate<P> {
    pub user_id: String,
    pub product_id: String,
    pub quantity: u32,
    pub total: P,
}

/// The status of an order that has just been created.
pub open spec fn created_status() -> Seq<char> {
    "Created"@
}

/// What can go wrong with an operation on orders.
#[derive(Debug, Clone, PartialEq)]
pub enum OrderError {
    NotFound(String),
    InvalidProduct(String),
    InvalidUser(String),
    InsufficientStock(String),
    ValidationError(String),
    DatabaseError(String),
    ActorCommunicationError(String),
}

/// The content of an [`OrderError`].
pub ghost enum OrderFailure {
    NotFound(Seq<char>),
    InvalidProduct(Seq<char>),
    InvalidUser(Seq<char>),
    InsufficientStock(Seq<char>),
    ValidationError(Seq<char>),
    DatabaseError(Seq<char>),
    ActorCommunicationError(Seq<char>),
}

impl OrderFailure {
    /// The sentence that describes the failure.
    pub open spec fn text(self) -> Seq<char> {
        match self {
            OrderFailure::NotFound(id) => "Order not found: "@ + id,
            OrderFailure::InvalidProduct(id) => "Invalid product: "@ + id,
            OrderFailure::InvalidUser(id) => "Invalid user: "@ + id,
            OrderFailure::InsufficientStock(reason) => "Insufficient stock: "@ + reason,
            OrderFailure::ValidationError(reason) => "Order validation error: "@ + reason,
            OrderFailure::DatabaseError(reason) => "Order database error: "@ + reason,
            OrderFailure::ActorCommunicationError(reason) => "Actor communication error: "@
                + reason,
        }
    }
}

impl View for OrderError {
    type V = OrderFailure;

    open spec fn view(&self) -> OrderFailure {
        match self {
            OrderError::NotFound(id) => OrderFailure::NotFound(id@),
            OrderError::InvalidProduct(id) => OrderFailure::InvalidProduct(id@),
            OrderError::InvalidUser(id) => OrderFailure::InvalidUser(id@),
            OrderError::InsufficientStock(reason) => OrderFailure::InsufficientStock(reason@),
            OrderError::ValidationError(reason) => OrderFailure::ValidationError(reason@),
            OrderError::DatabaseError(reason) => OrderFailure::DatabaseError(reason@),
            OrderError::ActorCommunicationError(reason) => OrderFailure::ActorCommunicationError(
                reason@,
            ),
        }
    }
}

impl OrderError {
    /// The sentence that describes this failure.
    pub fn message(&self) -> (r: String)
        ensures
            r@ == self@.text(),
    {
        match self {
            OrderError::NotFound(id) => String::from_str("Order not found: ").concat(id.as_str()),
            OrderError::InvalidProduct(id) => String::from_str("Invalid product: ").concat(
                id.as_str(),
            ),
            OrderError::InvalidUser(id) => String::from_str("Invalid user: ").concat(id.as_str()),
            OrderError::InsufficientStock(reason) => String::from_str(
                "Insufficient stock: ",
            ).concat(reason.as_str()),
            OrderError::ValidationError(reason) => String::from_str(
                "Order validation error: ",
            ).concat(reason.as_str()),
            OrderError::DatabaseError(reason) => String::from_str(
                "Order database error: ",
            ).concat(reason.as_str()),
            OrderError::ActorCommunicationError(reason) => String::from_str(
                "Actor communication error: ",
            ).concat(reason.as_str()),
        }
    }

    /// A failure of the framework as a caller of the order client sees it: a
    /// communication error that carries the framework's sentence.
    pub fn from_framework(e: &FrameworkError) -> (r: OrderError)
        ensures
            r@ == OrderFailure::ActorCommunicationError(e@.text()),
    {
        OrderError::ActorCommunicationError(e.message())
    }

    /// The reply to an order operation as the order client returns it: a
    /// success unchanged, a failure as [`Self::from_framework`] gives it.
    pub fn relay<A>(reply: Result<A, FrameworkError>) -> (r: Result<A, OrderError>)
        ensures
            match reply {
                Ok(a) => r == Ok::<A, OrderError>(a),
                Err(e) => r matches Err(u) && u@ == OrderFailure::ActorCommunicationError(
                    e@.text(),
                ),
            },
    {
        match reply {
            Ok(a) => Ok(a),
            Err(e) => Err(OrderError::from_framework(&e)),
        }
    }
}

impl<P: Copy> Order<P> {
    /// An order with the given fields, in the status of a new order.
    pub fn new(id: &str, user_id: &str, product_id: &str, quantity: u32, total: P) -> (r: Self)
        ensures
            r@ == (OrderView {
                id: id@,
                user_id: user_id@,
                product_id: product_id@,
                quantity,
                total,
                status: created_status(),
            }),
    {
        Order {
            id: String::from_str(id),
            user_id: String::from_str(user_id),
            product_id: String::from_str(product_id),
            quantity,
            total,
            status: String::from_str("Created"),
        }
    }

    /// The payload that creates an order for this order's user, product,
    /// quantity and total. The identifier is left behind: the actor mints
    /// one.
    pub fn into_create(self) -> (r: OrderCreate<P>)
        ensures
            r.user_id == self.user_id,
            r.product_id == self.product_id,
            r.quantity == self.quantity,
            r.total == self.total,
    {
        OrderCreate {
            user_id: self.user_id,
            product_id: self.product_id,
            quantity: self.quantity,
            total: self.total,
        }
    }
}

impl<P: Copy> Entity for Order<P> {
    type Id = String;

    type CreatePayload = OrderCreate<P>;

    type Patch = ();

    type Action = ();

    type ActionResult = ();

    open spec fn created(id: Seq<char>, payload: OrderCreate<P>) -> Result<
        OrderView<P>,
        Seq<char>,
    > {
        Ok(
            OrderView {
                id,
                user_id: payload.user_id@,
                product_id: payload.product_id@,
                quantity: payload.quantity,
                total: payload.total,
                status: created_status(),
            },
        )
    }

    open spec fn after_update(v: OrderView<P>, patch: ()) -> (OrderView<P>, Result<(), Seq<char>>) {
        (v, Ok(()))
    }

    open spec fn after_action(v: OrderView<P>, action: ()) -> (
        OrderView<P>,
        Result<(), Seq<char>>,
    ) {
        (v, Ok(()))
    }

    fn from_create(id: String, payload: OrderCreate<P>) -> (r: Result<Self, String>) {
        Ok(
            Order {
                id,
                user_id: payload.user_id,
                product_id: payload.product_id,
                quantity: payload.quantity,
                total: payload.total,
                status: String::from_str("Created"),
            },
        )
    }

    fn on_create(&mut self) -> (r: Result<(), String>) {
        Ok(())
    }

    fn on_update(&mut self, patch: ()) -> (r: Result<(), String>) {
        Ok(())
    }

    fn on_delete(&self) -> (r: Result<(), String>) {
        Ok(())
    }

    fn handle_action(&mut self, action: ()) -> (r: Result<(), String>) {
        Ok(())
    }

    fn duplicate(&self) -> (r: Self) {
        Order {
            id: self.id.clone(),
            user_id: self.user_id.clone(),
            product_id: self.product_id.clone(),
            quantity: self.quantity,
            total: self.total,
            status: self.status.clone(),
        }
    }
}

} // verus!
