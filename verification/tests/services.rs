use actor_recipe::mailbox::Delivery;
use actor_recipe::order::Order;
use actor_recipe::product::{Product, ProductError};
use actor_recipe::services::{
    report_job_id, Flow, OrderService, ProductRequest, ProductService, UserRequest, UserService,
};
use actor_recipe::user::{User, UserError};
use tokio::sync::oneshot;

#[test]
fn the_user_service_numbers_its_users() {
    let (mut service, _sender) = UserService::new(10);
    assert_eq!(service.user_count(), 0);

    let first = service.handle_create_user(User::new("Test User", "test@example.com"));
    assert_eq!(first, Ok("user_1".to_string()));
    assert_eq!(service.user_count(), 1);

    let second = service.handle_create_user(User::new("Other", "other@example.com"));
    assert_eq!(second, Ok("user_2".to_string()));
    assert_eq!(service.user_count(), 2);

    let found = service.handle_get_user(&"user_2".to_string()).unwrap().unwrap();
    assert_eq!(found.name, "Other");
    assert_eq!(found.email, "other@example.com");
    assert_eq!(service.handle_get_user(&"user_3".to_string()), Ok(None));
}

#[test]
fn a_user_without_an_email_is_refused() {
    let (mut service, _sender) = UserService::new(10);
    let refused = service.handle_create_user(User::new("Nobody", ""));
    assert_eq!(refused, Err(UserError::ValidationError("Email required".to_string())));
    assert_eq!(service.user_count(), 0);
    // The refusal used no number up.
    let next = service.handle_create_user(User::new("Alice", "alice@example.com"));
    assert_eq!(next, Ok("user_1".to_string()));
}

#[test]
fn an_update_needs_an_existing_user() {
    let (mut service, _sender) = UserService::new(10);
    let id = service.handle_create_user(User::new("Alice", "alice@example.com")).unwrap();

    let replaced = service.handle_update_user(id.clone(), User::new("Alicia", "a@example.com"));
    assert_eq!(replaced, Ok(()));
    assert_eq!(service.handle_get_user(&id).unwrap().unwrap().name, "Alicia");

    let missing = service.handle_update_user("user_9".to_string(), User::new("X", "x@y.z"));
    assert_eq!(missing, Err(UserError::NotFound("user_9".to_string())));
    assert_eq!(service.user_count(), 1);
}

#[test]
fn the_listing_holds_every_user_once() {
    let (mut service, _sender) = UserService::new(10);
    assert_eq!(service.handle_list_users(), Ok(Vec::new()));
    for name in ["a", "b", "c"] {
        service.handle_create_user(User::new(name, "x@example.com")).unwrap();
    }
    let mut names: Vec<String> =
        service.handle_list_users().unwrap().into_iter().map(|u| u.name).collect();
    names.sort();
    assert_eq!(names, vec!["a".to_string(), "b".to_string(), "c".to_string()]);
}

#[test]
fn the_user_service_answers_requests_until_shutdown() {
    let (mut service, sender) = UserService::new(10);

    let (respond_to, mut count) = oneshot::channel();
    assert!(sender.try_send(UserRequest::GetUserCount { respond_to }).is_ok());
    let (respond_to, mut created) = oneshot::channel();
    let user = User::new("Test User", "test@example.com");
    assert!(sender.try_send(UserRequest::CreateUser { user, respond_to }).is_ok());
    let (respond_to, mut count_after) = oneshot::channel();
    assert!(sender.try_send(UserRequest::GetUserCount { respond_to }).is_ok());
    let (respond_to, mut listed) = oneshot::channel();
    assert!(sender.try_send(UserRequest::ListUsers { respond_to }).is_ok());
    assert!(sender.try_send(UserRequest::Shutdown).is_ok());
    let (respond_to, mut late) = oneshot::channel();
    assert!(sender.try_send(UserRequest::GetUser { id: "user_1".to_string(), respond_to }).is_ok());

    let mut handled = 0;
    loop {
        let msg = service.mailbox().try_recv().unwrap();
        handled += 1;
        if service.handle(msg) == Flow::Stop {
            break;
        }
    }
    assert_eq!(handled, 5);
    assert_eq!(count.try_recv().unwrap(), Ok(0));
    assert_eq!(created.try_recv().unwrap(), Ok("user_1".to_string()));
    assert_eq!(count_after.try_recv().unwrap(), Ok(1));
    assert_eq!(listed.try_recv().unwrap().unwrap().len(), 1);
    // What came after the shutdown request was not handled.
    assert!(late.try_recv().is_err());
}

fn stocked() -> ProductService<f64> {
    let (mut service, _sender) = ProductService::new(10);
    service.stock_product(Product::new("p1", "Widget", 9.5, 10));
    service
}

#[test]
fn an_unknown_product_has_no_stock() {
    let service = stocked();
    assert_eq!(service.handle_check_stock(&"p1".to_string()), Ok(10));
    assert_eq!(service.handle_check_stock(&"p2".to_string()), Ok(0));
    assert_eq!(service.handle_get_product(&"p2".to_string()).unwrap().map(|p| p.name), None);
    let found = service.handle_get_product(&"p1".to_string()).unwrap().unwrap();
    assert_eq!(found.name, "Widget");
    assert_eq!(found.price, 9.5);
}

#[test]
fn a_reservation_takes_from_the_stock_or_is_refused() {
    let mut service = stocked();
    assert_eq!(service.handle_reserve_stock("p1".to_string(), 4), Ok(()));
    assert_eq!(service.handle_check_stock(&"p1".to_string()), Ok(6));
    assert_eq!(
        service.handle_reserve_stock("p1".to_string(), 7),
        Err(ProductError::InsufficientStock { requested: 7, available: 6 })
    );
    assert_eq!(service.handle_check_stock(&"p1".to_string()), Ok(6));
    assert_eq!(service.handle_reserve_stock("p1".to_string(), 6), Ok(()));
    assert_eq!(service.handle_check_stock(&"p1".to_string()), Ok(0));
    assert_eq!(
        service.handle_reserve_stock("p2".to_string(), 1),
        Err(ProductError::NotFound("p2".to_string()))
    );
}

#[test]
fn the_product_service_answers_requests_until_shutdown() {
    let (mut service, sender) = ProductService::<f64>::new(4);
    service.stock_product(Product::new("p1", "Widget", 9.5, 3));

    let (respond_to, mut reserved) = oneshot::channel();
    let request = ProductRequest::ReserveStock { id: "p1".to_string(), quantity: 2, respond_to };
    assert!(sender.try_send(request).is_ok());
    let (respond_to, mut level) = oneshot::channel();
    assert!(sender.try_send(ProductRequest::CheckStock { id: "p1".to_string(), respond_to }).is_ok());
    let (respond_to, mut found) = oneshot::channel();
    assert!(sender.try_send(ProductRequest::GetProduct { id: "p1".to_string(), respond_to }).is_ok());
    assert!(sender.try_send(ProductRequest::Shutdown).is_ok());

    let mut flows = Vec::new();
    while let Ok(msg) = service.mailbox().try_recv() {
        flows.push(service.handle(msg));
    }
    assert_eq!(flows, vec![Flow::Continue, Flow::Continue, Flow::Continue, Flow::Stop]);
    assert_eq!(reserved.try_recv().unwrap(), Ok(()));
    assert_eq!(level.try_recv().unwrap(), Ok(1));
    assert_eq!(found.try_recv().unwrap().unwrap().unwrap().name, "Widget");
}

#[test]
fn a_recorded_order_is_kept_under_its_own_identifier() {
    let (mut service, _sender) = OrderService::<f64>::new(4);
    let order = Order::new("order_1", "user_1", "p1", 5, 50.0);
    assert_eq!(service.record_order(order), "order_1");
    let found = service.handle_get_order(&"order_1".to_string()).unwrap().unwrap();
    assert_eq!(found.user_id, "user_1");
    assert_eq!(found.product_id, "p1");
    assert_eq!(found.quantity, 5);
    assert_eq!(found.total, 50.0);
    assert_eq!(found.status, "Created");
    assert!(service.handle_get_order(&"order_2".to_string()).unwrap().is_none());
}

#[test]
fn a_report_job_is_named_after_user_and_time() {
    assert_eq!(report_job_id("user_1", 1700000000), "job_user_1_1700000000");
    assert_eq!(report_job_id("", 0), "job__0");
}

#[test]
fn delivery_is_reported_to_the_service_loop() {
    // A reply whose receiver is gone is dropped, and the service goes on.
    let (mut service, sender) = UserService::new(2);
    let (respond_to, receiver) = oneshot::channel();
    drop(receiver);
    assert!(sender.try_send(UserRequest::GetUserCount { respond_to }).is_ok());
    let msg = service.mailbox().try_recv().unwrap();
    assert_eq!(service.handle(msg), Flow::Continue);
    assert_ne!(Delivery::Delivered, Delivery::Dropped);
}
