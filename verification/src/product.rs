use crate::entity::Entity;
use crate::error::FrameworkError;
use crate::text::decimal;
use crate::text::decimal_text;
use vstd::prelude::*;
use vstd::string::StringExecFns;

verus! {

/// A product in the inventory. The library carries the price and never
/// computes with it, so its type `P` is the caller's choice.
#[derive(Debug, Clone)]
pub struct Product<P> {
    pub id: String,
    pub name: String,
    pub price: P,
    pub quantity: u32,
}

/// The content of a [`Product`].
pub ghost struct ProductView<P> {
    pub id: Seq<char>,
    pub name: Seq<char>,
    pub price: P,
    pub quantity: u32,
}

impl<P> View for Product<P> {
    type V = ProductView<P>;

    open spec fn view(&self) -> ProductView<P> {
        ProductView { id: self.id@, name: self.name@, price: self.price, quantity: self.quantity }
    }
}

/// What is needed to create a product.
#[derive(Debug, Clone)]
pub struct ProductCreate<P> {
    pub name: String,
    pub price: P,
    pub quantity: u32,
}

/// A partial update of a product: each field that is present replaces the
/// product's.
#[derive(Debug, Clone)]
pub struct ProductPatch<P> {
    pub price: Option<P>,
    pub quantity: Option<u32>,
}

/// What can be asked of a product beyond create, read, update and delete.
#[derive(Debug, Clone, Copy, PartialEq, Eq)]
pub enum ProductAction {
    /// Asks for the stock level and changes nothing.
    CheckStock,
    /// Takes the given number of units out of the stock, if it holds as many.
    ReserveStock(u32),
}

/// The answers to [`ProductAction`], one for each action.
#[derive(Debug, Clone, Copy, PartialEq, Eq)]
pub enum ProductActionResult {
    /// The stock level.
    CheckStock(u32),
    /// The units were taken.
    ReserveStock(()),
}

/// The text with which a reservation is refused.
pub open spec fn insufficient_stock_text(available: u32, requested: u32) -> Seq<char> {
    "Insufficient stock: "@ + decimal_text(available as nat) + " available, "@ + decimal_text(
        requested as nat,
    ) + " requested"@
}

/// Writes the text with which a reservation is refused.
pub fn insufficient_stock(available: u32, requested: u32) -> (r: String)
    ensures
        r@ == insufficient_stock_text(available, requested),
{
    String::from_str("Insufficient stock: ").concat(decimal(available as u64).as_str()).concat(
        " available, ",
    ).concat(decimal(requested as u64).as_str()).concat(" requested")
}

/// The stock after an action, and the action's answer. A reservation that
/// the stock cannot cover is refused and takes nothing.
pub open spec fn stock_step(quantity: u32, action: ProductAction) -> (
    u32,
    Result<ProductActionResult, Seq<char>>,
) {
    match action {
        ProductAction::CheckStock => (quantity, Ok(ProductActionResult::CheckStock(quantity))),
        ProductAction::ReserveStock(amount) => if quantity >= amount {
            ((quantity - amount) as u32, Ok(ProductActionResult::ReserveStock(())))
        } else {
            (quantity, Err(insufficient_stock_text(quantity, amount)))
        },
    }
}

/// What can go wrong with an operation on products.
#[derive(Debug, Clone, PartialEq)]
pub enum ProductError {
    NotFound(String),
    InsufficientStock { requested: u32, available: u32 },
    InvalidQuantity(u32),
    DatabaseError(String),
    ActorCommunicationError(String),
}

/// The content of a [`ProductError`].
pub ghost enum ProductFailure {
    NotFound(Seq<char>),
    InsufficientStock { requested: u32, available: u32 },
    InvalidQuantity(u32),
    DatabaseError(Seq<char>),
    ActorCommunicationError(Seq<char>),
}

impl ProductFailure {
    /// The sentence that describes the failure.
    pub open spec fn text(self) -> Seq<char> {
        match self {
            ProductFailure::NotFound(id) => "Product not found: "@ + id,
            ProductFailure::InsufficientStock { requested, available } =>
                "Insufficient stock: requested "@ + decimal_text(requested as nat)
                    + ", available "@ + decimal_text(available as nat),
            ProductFailure::InvalidQuantity(quantity) => "Invalid quantity: "@ + decimal_text(
                quantity as nat,
            ),
            ProductFailure::DatabaseError(reason) => "Product database error: "@ + reason,
            ProductFailure::ActorCommunicationError(reason) => "Actor communication error: "@
                + reason,
        }
    }
}

impl View for ProductError {
    type V = ProductFailure;

    open spec fn view(&self) -> ProductFailure {
        match self {
            ProductError::NotFound(id) => ProductFailure::NotFound(id@),
            ProductError::InsufficientStock { requested, available } =>
                ProductFailure::InsufficientStock { requested: *requested, available: *available },
            ProductError::InvalidQuantity(quantity) => ProductFailure::InvalidQuantity(*quantity),
            ProductError::DatabaseError(reason) => ProductFailure::DatabaseError(reason@),
            ProductError::ActorCommunicationError(reason) =>
                ProductFailure::ActorCommunicationError(reason@),
        }
    }
}

impl ProductError {
    /// The sentence that describes this failure.
    pub fn message(&self) -> (r: String)
        ensures
            r@ == self@.text(),
    {
        match self {
            ProductError::NotFound(id) => String::from_str("Product not found: ").concat(
                id.as_str(),
            ),
            ProductError::InsufficientStock { requested, available } => String::from_str(
                "Insufficient stock: requested ",
            ).concat(decimal(*requested as u64).as_str()).concat(", available ").concat(
                decimal(*available as u64).as_str(),
            ),
            ProductError::InvalidQuantity(quantity) => String::from_str(
                "Invalid quantity: ",
            ).concat(decimal(*quantity as u64).as_str()),
            ProductError::DatabaseError(reason) => String::from_str(
                "Product database error: ",
            ).concat(reason.as_str()),
            ProductError::ActorCommunicationError(reason) => String::from_str(
                "Actor communication error: ",
            ).concat(reason.as_str()),
        }
    }

    /// A failure of the framework as a caller of the product client sees it:
    /// a communication error that carries the framework's sentence.
    pub fn from_framework(e: &FrameworkError) -> (r: ProductError)
        ensures
            r@ == ProductFailure::ActorCommunicationError(e@.text()),
    {
        ProductError::ActorCommunicationError(e.message())
    }

    /// The reply to a product operation as the product client returns it: a
    /// success unchanged, a failure as [`Self::from_framework`] gives it.
    pub fn relay<A>(reply: Result<A, FrameworkError>) -> (r: Result<A, ProductError>)
        ensures
            match reply {
                Ok(a) => r == Ok::<A, ProductError>(a),
                Err(e) => r matches Err(u) && u@ == ProductFailure::ActorCommunicationError(
                    e@.text(),
                ),
            },
    {
        match reply {
            Ok(a) => Ok(a),
            Err(e) => Err(ProductError::from_framework(&e)),
        }
    }
}

/// What a reply that does not fit the action is reported as.
pub open spec fn unexpected_result() -> ProductFailure {
    ProductFailure::ActorCommunicationError("Unexpected result"@)
}

/// The content of what a product client returns.
pub open spec fn product_outcome_view<A>(r: Result<A, ProductError>) -> Result<A, ProductFailure> {
    match r {
        Ok(a) => Ok(a),
        Err(e) => Err(e@),
    }
}

/// What the reply to a `CheckStock` means to the caller.
pub open spec fn stock_level_of(reply: Result<ProductActionResult, FrameworkError>) -> Result<
    u32,
    ProductFailure,
> {
    match reply {
        Ok(ProductActionResult::CheckStock(level)) => Ok(level),
        Ok(ProductActionResult::ReserveStock(_)) => Err(unexpected_result()),
        Err(e) => Err(ProductFailure::ActorCommunicationError(e@.text())),
    }
}

/// What the reply to a `ReserveStock` means to the caller.
pub open spec fn reservation_of(reply: Result<ProductActionResult, FrameworkError>) -> Result<
    (),
    ProductFailure,
> {
    match reply {
        Ok(ProductActionResult::ReserveStock(_)) => Ok(()),
        Ok(ProductActionResult::CheckStock(_)) => Err(unexpected_result()),
        Err(e) => Err(ProductFailure::ActorCommunicationError(e@.text())),
    }
}

/// Reads the reply to a `CheckStock`: the stock level. A reply of another
/// action's kind, or a failure of the framework, is a communication error.
pub fn check_stock_outcome(reply: Result<ProductActionResult, FrameworkError>) -> (r: Result<
    u32,
    ProductError,
>)
    ensures
        product_outcome_view(r) == stock_level_of(reply),
{
    match reply {
        Ok(ProductActionResult::CheckStock(level)) => Ok(level),
        Ok(ProductActionResult::ReserveStock(_)) => Err(
            ProductError::ActorCommunicationError(String::from_str("Unexpected result")),
        ),
        Err(e) => Err(ProductError::from_framework(&e)),
    }
}

/// Reads the reply to a `ReserveStock`: success. A reply of another action's
/// kind, or a failure of the framework, is a communication error.
pub fn reserve_stock_outcome(reply: Result<ProductActionResult, FrameworkError>) -> (r: Result<
    (),
    ProductError,
>)
    ensures
        product_outcome_view(r) == reservation_of(reply),
{
    match reply {
        Ok(ProductActionResult::ReserveStock(_)) => Ok(()),
        Ok(ProductActionResult::CheckStock(_)) => Err(
            ProductError::ActorCommunicationError(String::from_str("Unexpected result")),
        ),
        Err(e) => Err(ProductError::from_framework(&e)),
    }
}

/// Each action has its own kind of answer: a stock check is answered with a
/// stock level, a reservation with the reservation's success. A stock check
/// never fails and never changes the stock; a reservation succeeds exactly
/// when the stock covers it, and then takes exactly what was asked for.
pub proof fn law_answers_match_actions(quantity: u32, action: ProductAction)
    ensures
        match action {
            ProductAction::CheckStock => stock_step(quantity, action) == (
                quantity,
                Ok::<ProductActionResult, Seq<char>>(ProductActionResult::CheckStock(quantity)),
            ),
            ProductAction::ReserveStock(amount) => {
                &&& stock_step(quantity, action).1 is Ok <==> amount <= quantity
                &&& stock_step(quantity, action).1 matches Ok(answer) ==> answer
                    is ReserveStock && stock_step(quantity, action).0 + amount == quantity
                &&& stock_step(quantity, action).1 is Err ==> stock_step(quantity, action).0
                    == quantity
            },
        },
{
}

impl<P: Copy> Product<P> {
    /// A product with the given fields.
    pub fn new(id: &str, name: &str, price: P, quantity: u32) -> (r: Self)
        ensures
            r@ == (ProductView { id: id@, name: name@, price, quantity }),
    {
        Product { id: String::from_str(id), name: String::from_str(name), price, quantity }
    }

    /// The payload that creates a product with this product's name, price
    /// and stock.
    pub fn into_create(self) -> (r: ProductCreate<P>)
        ensures
            r.name == self.name,
            r.price == self.price,
            r.quantity == self.quantity,
    {
        ProductCreate { name: self.name, price: self.price, quantity: self.quantity }
    }
}

impl<P: Copy> Entity for Product<P> {
    type Id = String;

    type CreatePayload = ProductCreate<P>;

    type Patch = ProductPatch<P>;

    type Action = ProductAction;

    type ActionResult = ProductActionResult;

    open spec fn created(id: Seq<char>, payload: ProductCreate<P>) -> Result<
        ProductView<P>,
        Seq<char>,
    > {
        Ok(
            ProductView {
                id,
                name: payload.name@,
                price: payload.price,
                quantity: payload.quantity,
            },
        )
    }

    open spec fn after_update(v: ProductView<P>, patch: ProductPatch<P>) -> (
        ProductView<P>,
        Result<(), Seq<char>>,
    ) {
        (
            ProductView {
                id: v.id,
                name: v.name,
                price: match patch.price {
                    Some(price) => price,
                    None => v.price,
                },
                quantity: match patch.quantity {
                    Some(quantity) => quantity,
                    None => v.quantity,
                },
            },
            Ok(()),
        )
    }

    open spec fn after_action(v: ProductView<P>, action: ProductAction) -> (
        ProductView<P>,
        Result<ProductActionResult, Seq<char>>,
    ) {
        (
            ProductView {
                id: v.id,
                name: v.name,
                price: v.price,
                quantity: stock_step(v.quantity, action).0,
            },
            stock_step(v.quantity, action).1,
        )
    }

    fn from_create(id: String, payload: ProductCreate<P>) -> (r: Result<Self, String>) {
        Ok(Product { id, name: payload.name, price: payload.price, quantity: payload.quantity })
    }

    fn on_create(&mut self) -> (r: Result<(), String>) {
        Ok(())
    }

    fn on_update(&mut self, patch: ProductPatch<P>) -> (r: Result<(), String>) {
        if let Some(price) = patch.price {
            self.price = price;
        }
        if let Some(quantity) = patch.quantity {
            self.quantity = quantity;
        }
        Ok(())
    }

    fn on_delete(&self) -> (r: Result<(), String>) {
        Ok(())
    }

    fn handle_action(&mut self, action: ProductAction) -> (r: Result<ProductActionResult, String>) {
        match action {
            ProductAction::CheckStock => Ok(ProductActionResult::CheckStock(self.quantity)),
            ProductAction::ReserveStock(amount) => {
                if self.quantity >= amount {
                    self.quantity -= amount;
                    Ok(ProductActionResult::ReserveStock(()))
                } else {
                    Err(insufficient_stock(self.quantity, amount))
                }
            },
        }
    }

    fn duplicate(&self) -> (r: Self) {
        Product {
            id: self.id.clone(),
            name: self.name.clone(),
            price: self.price,
            quantity: self.quantity,
        }
    }
}

} // verus!
