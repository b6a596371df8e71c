use crate::entity::Entity;
use crate::mailbox::deliver;
use crate::mailbox::open_mailbox;
use crate::mailbox::MAX_CAPACITY;
use crate::order::Order;
use crate::order::OrderError;
use crate::order::OrderView;
use crate::product::product_outcome_view;
use crate::product::Product;
use crate::product::ProductError;
use crate::product::ProductFailure;
use crate::product::ProductView;
use crate::store::Store;
use crate::text::decimal;
use crate::text::decimal_text;
use crate::text::numbered_id;
use crate::user::User;
use crate::user::UserError;
use crate::user::UserFailure;
use crate::user::UserView;
use tokio::sync::mpsc;
use tokio::sync::oneshot;
use vstd::prelude::*;
use vstd::string::StringExecFns;

verus! {

/// What a service returns for a request.
pub type ServiceResult<T, E> = Result<T, E>;

/// The single-use channel on which a service answers a request.
pub type ServiceResponse<T, E> = oneshot::Sender<ServiceResult<T, E>>;

/// What a service's loop does after a request.
#[derive(Debug, PartialEq, Eq, Clone, Copy)]
pub enum Flow {
    /// Take the next request.
    Continue,
    /// Stop: the service was asked to shut down.
    Stop,
}

/// A request to the user service.
#[allow(inconsistent_fields)]
pub enum UserRequest {
    GetUser { id: String, respond_to: ServiceResponse<Option<User>, UserError> },
    CreateUser { user: User, respond_to: ServiceResponse<String, UserError> },
    UpdateUser { id: String, user: User, respond_to: ServiceResponse<(), UserError> },
    ListUsers { respond_to: ServiceResponse<Vec<User>, UserError> },
    Shutdown,
    GetUserCount { respond_to: ServiceResponse<usize, UserError> },
}

/// The identifier that the user service gives its `number`-th user.
pub open spec fn user_id_text(number: u64) -> Seq<char> {
    "user_"@ + decimal_text(number as nat)
}

/// The reason for refusing a user without an e-mail address.
pub open spec fn email_required() -> UserFailure {
    UserFailure::ValidationError("Email required"@)
}

/// A service that keeps users under identifiers that it numbers itself.
pub struct UserService {
    receiver: mpsc::Receiver<UserRequest>,
    users: Store<String, User>,
    next_id: u64,
}

impl UserService {
    /// The store is in order.
    pub closed spec fn wf(&self) -> bool {
        self.users.wf()
    }

    /// The users that the service keeps.
    pub closed spec fn view(&self) -> Map<Seq<char>, UserView> {
        self.users@
    }

    /// The number of the next identifier.
    pub closed spec fn next_number(&self) -> u64 {
        self.next_id
    }

    /// The identifiers in the order in which the service lists its users.
    pub closed spec fn listing(&self) -> Seq<Seq<char>> {
        self.users.keys()
    }

    /// The listing names each user of the service once, and no other.
    pub proof fn lemma_listing(&self)
        requires
            self.wf(),
        ensures
            self.listing().no_duplicates(),
            self@.dom().finite(),
            self.listing().len() == self@.len(),
            forall|id: Seq<char>| self@.contains_key(id) <==> self.listing().contains(id),
    {
        self.users.lemma_keys();
    }

    /// Opens a mailbox of the given capacity and returns the service that
    /// reads from it, without users, and the sending end.
    pub fn new(buffer_size: usize) -> (r: (Self, mpsc::Sender<UserRequest>))
        requires
            0 < buffer_size <= MAX_CAPACITY,
        ensures
            r.0.wf(),
            r.0@ == Map::<Seq<char>, UserView>::empty(),
            r.0.next_number() == 1,
    {
        let (sender, receiver) = open_mailbox(buffer_size);
        (UserService { receiver, users: Store::new(), next_id: 1 }, sender)
    }

    /// The receiving end of the mailbox, for the loop that feeds
    /// [`Self::handle`].
    pub fn mailbox(&mut self) -> (r: &mut mpsc::Receiver<UserRequest>)
        ensures
            *r == old(self).inbox(),
            final(self).inbox() == *final(r),
            final(self).wf() == old(self).wf(),
            final(self)@ == old(self)@,
            final(self).next_number() == old(self).next_number(),
            final(self).listing() == old(self).listing(),
    {
        &mut self.receiver
    }

    /// The receiving end of the mailbox that the service reads from.
    pub closed spec fn inbox(&self) -> mpsc::Receiver<UserRequest> {
        self.receiver
    }

    /// Whether the service can still number a further user.
    pub fn has_numbers_left(&self) -> (r: bool)
        ensures
            r == (self.next_number() < u64::MAX),
    {
        self.next_id < u64::MAX
    }

    /// A copy of the user kept under `id`, if there is one.
    pub fn handle_get_user(&self, id: &String) -> (r: ServiceResult<Option<User>, UserError>)
        requires
            self.wf(),
        ensures
            r matches Ok(found) && match found {
                Some(user) => self@.contains_key(id@) && user@ == self@[id@],
                None => !self@.contains_key(id@),
            },
    {
        match self.users.get(id) {
            Some(user) => Ok(Some(user.duplicate())),
            None => Ok(None),
        }
    }

    /// Keeps `user` under the next identifier and returns the identifier. A
    /// user without an e-mail address is refused, and uses no identifier up.
    pub fn handle_create_user(&mut self, user: User) -> (r: ServiceResult<String, UserError>)
        requires
            old(self).wf(),
            old(self).next_number() < u64::MAX,
        ensures
            final(self).wf(),
            if user.email@.len() == 0 {
                &&& r matches Err(e) && e@ == email_required()
                &&& final(self)@ == old(self)@
                &&& final(self).next_number() == old(self).next_number()
            } else {
                &&& r matches Ok(id) && id@ == user_id_text(old(self).next_number())
                &&& final(self)@ == old(self)@.insert(
                    user_id_text(old(self).next_number()),
                    user@,
                )
                &&& final(self).next_number() == old(self).next_number() + 1
            },
    {
        if user.email.as_str().is_empty() {
            Err(UserError::ValidationError(String::from_str("Email required")))
        } else {
            let id = numbered_id("user_", self.next_id);
            self.next_id += 1;
            self.users.insert(id.clone(), user);
            Ok(id)
        }
    }

    /// Puts `user` in the place of the user kept under `id`. Where there is
    /// none, nothing changes.
    pub fn handle_update_user(&mut self, id: String, user: User) -> (r: ServiceResult<
        (),
        UserError,
    >)
        requires
            old(self).wf(),
        ensures
            final(self).wf(),
            final(self).next_number() == old(self).next_number(),
            if old(self)@.contains_key(id@) {
                r is Ok && final(self)@ == old(self)@.insert(id@, user@)
            } else {
                &&& r matches Err(e) && e@ == UserFailure::NotFound(id@)
                &&& final(self)@ == old(self)@
            },
    {
        if self.users.contains(&id) {
            self.users.insert(id, user);
            Ok(())
        } else {
            Err(UserError::NotFound(id))
        }
    }

    /// Copies of all users, in the order of the listing.
    pub fn handle_list_users(&self) -> (r: ServiceResult<Vec<User>, UserError>)
        requires
            self.wf(),
        ensures
            r matches Ok(users) && users.len() == self.listing().len() && forall|i: int|
                0 <= i < users.len() ==> self@.contains_key(self.listing()[i])
                    && (#[trigger] users[i])@ == self@[self.listing()[i]],
    {
        let mut users: Vec<User> = Vec::new();
        let n = self.users.len();
        let mut i: usize = 0;
        while i < n
            invariant
                self.wf(),
                n == self.listing().len(),
                i <= n,
                users.len() == i,
                forall|j: int| 0 <= j < i ==> (#[trigger] users[j])@ == self@[self.listing()[j]],
            decreases n - i,
        {
            let slot = self.users.entry(i);
            users.push(slot.1.duplicate());
            i += 1;
        }
        proof {
            self.users.lemma_keys();
            assert forall|j: int| 0 <= j < users.len() implies self@.contains_key(
                #[trigger] self.listing()[j],
            ) by {
                assert(self.listing().contains(self.listing()[j]));
            }
        }
        Ok(users)
    }

    /// How many users the service keeps.
    pub fn user_count(&self) -> (n: usize)
        requires
            self.wf(),
        ensures
            self@.dom().finite(),
            n == self@.len(),
    {
        self.users.len()
    }

    /// Handles one request taken from the mailbox and sends its reply. A
    /// request to shut down has no reply: it stops the loop.
    pub fn handle(&mut self, msg: UserRequest) -> (flow: Flow)
        requires
            old(self).wf(),
            old(self).next_number() < u64::MAX,
        ensures
            final(self).wf(),
            (flow == Flow::Stop) == (msg is Shutdown),
            match msg {
                UserRequest::CreateUser { user, .. } => if user.email@.len() == 0 {
                    final(self)@ == old(self)@ && final(self).next_number() == old(
                        self,
                    ).next_number()
                } else {
                    final(self)@ == old(self)@.insert(
                        user_id_text(old(self).next_number()),
                        user@,
                    ) && final(self).next_number() == old(self).next_number() + 1
                },
                UserRequest::UpdateUser { id, user, .. } => final(self).next_number() == old(
                    self,
                ).next_number() && final(self)@ == if old(self)@.contains_key(id@) {
                    old(self)@.insert(id@, user@)
                } else {
                    old(self)@
                },
                _ => final(self)@ == old(self)@ && final(self).next_number() == old(
                    self,
                ).next_number(),
            },
    {
        match msg {
            UserRequest::GetUser { id, respond_to } => {
                let reply = self.handle_get_user(&id);
                let _ = deliver(respond_to, reply);
                Flow::Continue
            },
            UserRequest::CreateUser { user, respond_to } => {
                let reply = self.handle_create_user(user);
                let _ = deliver(respond_to, reply);
                Flow::Continue
            },
            UserRequest::UpdateUser { id, user, respond_to } => {
                let reply = self.handle_update_user(id, user);
                let _ = deliver(respond_to, reply);
                Flow::Continue
            },
            UserRequest::ListUsers { respond_to } => {
                let reply = self.handle_list_users();
                let _ = deliver(respond_to, reply);
                Flow::Continue
            },
            UserRequest::Shutdown => Flow::Stop,
            UserRequest::GetUserCount { respond_to } => {
                let reply: ServiceResult<usize, UserError> = Ok(self.user_count());
                let _ = deliver(respond_to, reply);
                Flow::Continue
            },
        }
    }
}

/// A request to the product service.
#[verifier::reject_recursive_types(P)]
#[allow(inconsistent_fields)]
pub enum ProductRequest<P> {
    GetProduct { id: String, respond_to: ServiceResponse<Option<Product<P>>, ProductError> },
    CheckStock { id: String, respond_to: ServiceResponse<u32, ProductError> },
    ReserveStock { id: String, quantity: u32, respond_to: ServiceResponse<(), ProductError> },
    Shutdown,
}

/// The stock level that a lookup reports: nothing on stock where the product
/// is unknown.
pub open spec fn stock_level(stock: Map<Seq<char>, u32>, id: Seq<char>) -> u32 {
    if stock.contains_key(id) {
        stock[id]
    } else {
        0
    }
}

/// The stock after a reservation, and the reply. A reservation is refused
/// for an unknown product and where the stock does not cover it; a refused
/// reservation takes nothing.
pub open spec fn reserve_step(stock: Map<Seq<char>, u32>, id: Seq<char>, quantity: u32) -> (
    Map<Seq<char>, u32>,
    Result<(), ProductFailure>,
) {
    if !stock.contains_key(id) {
        (stock, Err(ProductFailure::NotFound(id)))
    } else if stock[id] >= quantity {
        (stock.insert(id, (stock[id] - quantity) as u32), Ok(()))
    } else {
        (stock, Err(ProductFailure::InsufficientStock { requested: quantity, available: stock[id] }))
    }
}

/// A service that keeps products and, apart from them, their stock levels.
#[verifier::reject_recursive_types(P)]
pub struct ProductService<P> {
    receiver: mpsc::Receiver<ProductRequest<P>>,
    products: Store<String, Product<P>>,
    stock: Store<String, u32>,
}

impl<P: Copy> ProductService<P> {
    /// Both stores are in order.
    pub closed spec fn wf(&self) -> bool {
        self.products.wf() && self.stock.wf()
    }

    /// The products that the service keeps.
    pub closed spec fn products(&self) -> Map<Seq<char>, ProductView<P>> {
        self.products@
    }

    /// The stock levels that the service keeps.
    pub closed spec fn stock(&self) -> Map<Seq<char>, u32> {
        self.stock@
    }

    /// Opens a mailbox of the given capacity and returns the service that
    /// reads from it, without products, and the sending end.
    pub fn new(buffer_size: usize) -> (r: (Self, mpsc::Sender<ProductRequest<P>>))
        requires
            0 < buffer_size <= MAX_CAPACITY,
        ensures
            r.0.wf(),
            r.0.products() == Map::<Seq<char>, ProductView<P>>::empty(),
            r.0.stock() == Map::<Seq<char>, u32>::empty(),
    {
        let (sender, receiver) = open_mailbox(buffer_size);
        (ProductService { receiver, products: Store::new(), stock: Store::new() }, sender)
    }

    /// The receiving end of the mailbox, for the loop that feeds
    /// [`Self::handle`].
    pub fn mailbox(&mut self) -> (r: &mut mpsc::Receiver<ProductRequest<P>>)
        ensures
            *r == old(self).inbox(),
            final(self).inbox() == *final(r),
            final(self).wf() == old(self).wf(),
            final(self).products() == old(self).products(),
            final(self).stock() == old(self).stock(),
    {
        &mut self.receiver
    }

    /// The receiving end of the mailbox that the service reads from.
    pub closed spec fn inbox(&self) -> mpsc::Receiver<ProductRequest<P>> {
        self.receiver
    }

    /// Puts a product on offer under its own identifier, with its quantity
    /// as the stock level.
    pub fn stock_product(&mut self, product: Product<P>)
        requires
            old(self).wf(),
        ensures
            final(self).wf(),
            final(self).products() == old(self).products().insert(product.id@, product@),
            final(self).stock() == old(self).stock().insert(product.id@, product.quantity),
    {
        self.stock.insert(product.id.clone(), product.quantity);
        self.products.insert(product.id.clone(), product);
    }

    /// A copy of the product kept under `id`, if there is one.
    pub fn handle_get_product(&self, id: &String) -> (r: ServiceResult<
        Option<Product<P>>,
        ProductError,
    >)
        requires
            self.wf(),
        ensures
            r matches Ok(found) && match found {
                Some(product) => self.products().contains_key(id@) && product@
                    == self.products()[id@],
                None => !self.products().contains_key(id@),
            },
    {
        match self.products.get(id) {
            Some(product) => Ok(Some(product.duplicate())),
            None => Ok(None),
        }
    }

    /// The stock level of a product; zero for a product that is unknown.
    pub fn handle_check_stock(&self, id: &String) -> (r: ServiceResult<u32, ProductError>)
        requires
            self.wf(),
        ensures
            r matches Ok(level) && level == stock_level(self.stock(), id@),
    {
        match self.stock.get(id) {
            Some(level) => Ok(*level),
            None => Ok(0),
        }
    }

    /// Takes `quantity` units out of the stock of a product, if it is known
    /// and has as many.
    pub fn handle_reserve_stock(&mut self, id: String, quantity: u32) -> (r: ServiceResult<
        (),
        ProductError,
    >)
        requires
            old(self).wf(),
        ensures
            final(self).wf(),
            final(self).products() == old(self).products(),
            (final(self).stock(), product_outcome_view(r)) == reserve_step(
                old(self).stock(),
                id@,
                quantity,
            ),
    {
        match self.stock.get_mut(&id) {
            Some(current_stock) => {
                if *current_stock >= quantity {
                    *current_stock -= quantity;
                    Ok(())
                } else {
                    Err(
                        ProductError::InsufficientStock {
                            requested: quantity,
                            available: *current_stock,
                        },
                    )
                }
            },
            None => Err(ProductError::NotFound(id)),
        }
    }

    /// Handles one request taken from the mailbox and sends its reply. A
    /// request to shut down has no reply: it stops the loop.
    pub fn handle(&mut self, msg: ProductRequest<P>) -> (flow: Flow)
        requires
            old(self).wf(),
        ensures
            final(self).wf(),
            (flow == Flow::Stop) == (msg is Shutdown),
            final(self).products() == old(self).products(),
            final(self).stock() == match msg {
                ProductRequest::ReserveStock { id, quantity, .. } => reserve_step(
                    old(self).stock(),
                    id@,
                    quantity,
                ).0,
                _ => old(self).stock(),
            },
    {
        match msg {
            ProductRequest::GetProduct { id, respond_to } => {
                let reply = self.handle_get_product(&id);
                let _ = deliver(respond_to, reply);
                Flow::Continue
            },
            ProductRequest::CheckStock { id, respond_to } => {
                let reply = self.handle_check_stock(&id);
                let _ = deliver(respond_to, reply);
                Flow::Continue
            },
            ProductRequest::ReserveStock { id, quantity, respond_to } => {
                let reply = self.handle_reserve_stock(id, quantity);
                let _ = deliver(respond_to, reply);
                Flow::Continue
            },
            ProductRequest::Shutdown => Flow::Stop,
        }
    }
}

/// A request to the order service.
#[verifier::reject_recursive_types(P)]
#[allow(inconsistent_fields)]
pub enum OrderRequest<P> {
    CreateOrder { order: Order<P>, respond_to: ServiceResponse<String, OrderError> },
    GetOrder { id: String, respond_to: ServiceResponse<Option<Order<P>>, OrderError> },
    Shutdown,
}

/// A service that keeps the orders that have passed the order workflow.
#[verifier::reject_recursive_types(P)]
pub struct OrderService<P> {
    receiver: mpsc::Receiver<OrderRequest<P>>,
    orders: Store<String, Order<P>>,
}

impl<P: Copy> OrderService<P> {
    /// The store is in order.
    pub closed spec fn wf(&self) -> bool {
        self.orders.wf()
    }

    /// The orders that the service keeps.
    pub closed spec fn view(&self) -> Map<Seq<char>, OrderView<P>> {
        self.orders@
    }

    /// Opens a mailbox of the given capacity and returns the service that
    /// reads from it, without orders, and the sending end.
    pub fn new(buffer_size: usize) -> (r: (Self, mpsc::Sender<OrderRequest<P>>))
        requires
            0 < buffer_size <= MAX_CAPACITY,
        ensures
            r.0.wf(),
            r.0@ == Map::<Seq<char>, OrderView<P>>::empty(),
    {
        let (sender, receiver) = open_mailbox(buffer_size);
        (OrderService { receiver, orders: Store::new() }, sender)
    }

    /// The receiving end of the mailbox.
    pub fn mailbox(&mut self) -> (r: &mut mpsc::Receiver<OrderRequest<P>>)
        ensures
            *r == old(self).inbox(),
            final(self).inbox() == *final(r),
            final(self).wf() == old(self).wf(),
            final(self)@ == old(self)@,
    {
        &mut self.receiver
    }

    /// The receiving end of the mailbox that the service reads from.
    pub closed spec fn inbox(&self) -> mpsc::Receiver<OrderRequest<P>> {
        self.receiver
    }

    /// Keeps an order under its own identifier, once its user and product
    /// have been checked and its stock reserved, and returns the identifier.
    pub fn record_order(&mut self, order: Order<P>) -> (id: String)
        requires
            old(self).wf(),
        ensures
            final(self).wf(),
            id@ == order.id@,
            final(self)@ == old(self)@.insert(order.id@, order@),
    {
        let id = order.id.clone();
        self.orders.insert(order.id.clone(), order);
        id
    }

    /// A copy of the order kept under `id`, if there is one.
    pub fn handle_get_order(&self, id: &String) -> (r: ServiceResult<Option<Order<P>>, OrderError>)
        requires
            self.wf(),
        ensures
            r matches Ok(found) && match found {
                Some(order) => self@.contains_key(id@) && order@ == self@[id@],
                None => !self@.contains_key(id@),
            },
    {
        match self.orders.get(id) {
            Some(order) => Ok(Some(order.duplicate())),
            None => Ok(None),
        }
    }
}

/// The name of the job that writes a report on a user, started at the given
/// second.
pub fn report_job_id(user_id: &str, timestamp: u64) -> (r: String)
    ensures
        r@ == "job_"@ + user_id@ + "_"@ + decimal_text(timestamp as nat),
{
    String::from_str("job_").concat(user_id).concat("_").concat(decimal(timestamp).as_str())
}

} // verus!
