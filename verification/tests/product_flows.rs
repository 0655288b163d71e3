use koochelib::app::models::dto::{AddProductDTO, BuyProductDTO, UpdateProductDTO};
use koochelib::app::models::order::Order;
use koochelib::app::models::product::Product;
use koochelib::app::models::user::{Seller, User};
use koochelib::app::services::flow::{Action, Body, Change, Collection, Filter, Listed, Outcome, Record, Step};
use koochelib::app::services::product::{
    add_product, add_product_step, buy_product, buy_product_step, delete_product, delete_product_step,
    finished_order, finished_order_step, get_product_by_sid, get_product_by_sid_step, get_products,
    get_user_products, holds_order, list_products_step, schedule_order, schedule_order_step,
    update_product, update_product_step, upload_images, upload_images_step,
};

fn s(x: &str) -> String {
    String::from(x)
}

fn next<S>(st: Step<S>) -> (S, Action) {
    match st {
        Step::Next(stage, a) => (stage, a),
        Step::Reply(r) => panic!("replied early with status {}", r.status),
    }
}

fn expect_error<S>(st: Step<S>, status: u16, text: &str) {
    match st {
        Step::Reply(r) => {
            assert_eq!(r.status, status);
            match r.body {
                Body::Error(e) => assert_eq!(e, text),
                _ => panic!("expected an error body"),
            }
        },
        Step::Next(..) => panic!("expected a reply"),
    }
}

fn expect_message<S>(st: Step<S>, status: u16) -> String {
    match st {
        Step::Reply(r) => {
            assert_eq!(r.status, status);
            match r.body {
                Body::Message(m) => m,
                _ => panic!("expected a message body"),
            }
        },
        Step::Next(..) => panic!("expected a reply"),
    }
}

fn product(title: &str) -> Product {
    Product::new(s("seller1"), s(title), s("d"), 10, None, None)
}

fn seller() -> Seller {
    Seller::new(s("Sara"), s("0935"), s("h"), s("0012345679"), s("img"), 1)
}

fn order(sid: &str) -> Order {
    let mut o = Order::new(s("p1"), s("u1"), s("addr"), s("12345"));
    o.sid = s(sid);
    o
}

#[test]
fn listings_keep_order_and_skip_unreadable_items() {
    let (stage, a) = get_products();
    assert!(matches!(a, Action::FindRecentProducts(None)));
    let items = vec![Listed::Item(product("a")), Listed::Unreadable, Listed::Item(product("b"))];
    match list_products_step(stage, Outcome::Listing(items)) {
        Step::Reply(r) => {
            assert_eq!(r.status, 200);
            match r.body {
                Body::Products(ps) => {
                    let titles: Vec<String> = ps.into_iter().map(|p| p.title).collect();
                    assert_eq!(titles, vec![s("a"), s("b")]);
                },
                _ => panic!("expected products"),
            }
        },
        _ => panic!("expected a reply"),
    }
    let (stage, a) = get_user_products(&s("seller1"));
    assert!(matches!(a, Action::FindRecentProducts(Some(ref x)) if x == "seller1"));
    expect_error(list_products_step(stage, Outcome::Listing(vec![Listed::Item(product("a")), Listed::Undecodable])), 500, "#PGP-DOC");
    let (stage, _) = get_products();
    expect_error(list_products_step(stage, Outcome::Failed(s("x"))), 500, "#PGP-F 2");
    let (stage, _) = get_products();
    match list_products_step(stage, Outcome::Listing(vec![])) {
        Step::Reply(r) => assert!(matches!(r.body, Body::Products(ref v) if v.is_empty())),
        _ => panic!("expected a reply"),
    }
}

#[test]
fn a_product_by_its_identifier() {
    let (stage, a) = get_product_by_sid(&s("p1"));
    assert!(matches!(a, Action::FindOne(Collection::Products, Filter::Sid(ref x)) if x == "p1"));
    match get_product_by_sid_step(stage, Outcome::Found(Record::Product(product("rug")))) {
        Step::Reply(r) => assert!(r.status == 200 && matches!(r.body, Body::Product(ref p) if p.title == "rug")),
        _ => panic!("expected a reply"),
    }
    let (stage, _) = get_product_by_sid(&s("p1"));
    expect_error(get_product_by_sid_step(stage, Outcome::NotFound), 404, "user not found");
    let (stage, _) = get_product_by_sid(&s("p1"));
    expect_error(get_product_by_sid_step(stage, Outcome::Failed(s("x"))), 500, "#PAP-F");
}

#[test]
fn adding_a_product_needs_its_seller() {
    let data = AddProductDTO { title: s("Rug"), description: s("Red"), price: 90, discount: Some(10), product_images: Some(vec![s("i1"), s("i2")]) };
    let user_sid = s("seller1");
    let (stage, a) = add_product(&data, &user_sid);
    assert!(matches!(a, Action::FindOne(Collection::Sellers, Filter::Sid(ref x)) if x == "seller1"));
    expect_error(add_product_step(&data, &user_sid, stage, Outcome::NotFound), 404, "user not found");
    let (stage, _) = add_product(&data, &user_sid);
    let (stage, a) = next(add_product_step(&data, &user_sid, stage, Outcome::Found(Record::Seller(seller()))));
    match a {
        Action::Insert(Collection::Products, Record::Product(p)) => {
            assert_eq!(p.seller_sid, "seller1");
            assert_eq!(p.title, "Rug");
            assert_eq!(p.price, 90);
            assert_eq!(p.discount, Some(10));
            assert_eq!(p.product_images, Some(vec![s("i1"), s("i2")]));
            assert_eq!(p.sid.len(), 40);
        },
        _ => panic!("expected the product to be stored"),
    }
    assert_eq!(expect_message(add_product_step(&data, &user_sid, stage, Outcome::Done), 201), "product created");
    expect_error(add_product_step(&data, &user_sid, koochelib::app::services::product::AddProductStage::Inserting, Outcome::Failed(s("x"))), 500, "#PAP-I2");
}

#[test]
fn deleting_and_updating_products() {
    let (stage, _) = delete_product(&s("p1"), &s("seller1"));
    let (stage, a) = next(delete_product_step(&s("p1"), stage, Outcome::Found(Record::Seller(seller()))));
    assert!(matches!(a, Action::Delete(Collection::Users, Filter::Sid(ref x)) if x == "p1"));
    expect_error(delete_product_step(&s("p1"), stage, Outcome::Deleted(0)), 404, "product not found");
    let (stage, _) = delete_product(&s("p1"), &s("seller1"));
    let (stage, _) = next(delete_product_step(&s("p1"), stage, Outcome::Found(Record::Seller(seller()))));
    assert_eq!(expect_message(delete_product_step(&s("p1"), stage, Outcome::Deleted(1)), 200), "product successfully deleted");
    let (stage, _) = delete_product(&s("p1"), &s("seller1"));
    expect_error(delete_product_step(&s("p1"), stage, Outcome::NotFound), 404, "user not found");

    let data = UpdateProductDTO { title: s("T"), description: s("D"), price: 5, discount: None };
    let (stage, _) = update_product(&data, &s("p1"), &s("seller1"));
    let (stage, a) = next(update_product_step(&data, &s("p1"), stage, Outcome::Found(Record::Seller(seller()))));
    match a {
        Action::Update(Collection::Products, Filter::Sid(x), Change::ProductFields { title, description, price, discount }) => {
            assert_eq!((x.as_str(), title.as_str(), description.as_str(), price, discount), ("p1", "T", "D", 5, None));
        },
        _ => panic!("expected the update"),
    }
    assert_eq!(expect_message(update_product_step(&data, &s("p1"), stage, Outcome::Updated { matched: 1, modified: 1 }), 201), "product created");
    expect_error(update_product_step(&data, &s("p1"), koochelib::app::services::product::UpdateProductStage::Updating, Outcome::Failed(s("x"))), 500, "#PAP-I");
}

#[test]
fn a_purchase_records_one_order_with_seller_and_buyer() {
    let data = BuyProductDTO { address: s("Tehran"), postal_code: s("1234567890") };
    let (stage, _) = buy_product(&data, &s("p1"), &s("u1"));
    let (stage, a) = next(buy_product_step(&data, &s("p1"), &s("u1"), stage, Outcome::Found(Record::Product(product("rug")))));
    assert!(matches!(a, Action::FindOne(Collection::Sellers, Filter::Sid(ref x)) if x == "seller1"));
    let (stage, a) = next(buy_product_step(&data, &s("p1"), &s("u1"), stage, Outcome::Found(Record::Seller(seller()))));
    let first = match a {
        Action::Update(Collection::Sellers, Filter::Sid(x), Change::PushUnscheduledOrder(o)) => {
            assert_eq!(x, "seller1");
            assert_eq!((o.product_sid.as_str(), o.user_sid.as_str(), o.user_address.as_str()), ("p1", "u1", "Tehran"));
            o
        },
        _ => panic!("expected the seller's order"),
    };
    let (stage, a) = next(buy_product_step(&data, &s("p1"), &s("u1"), stage, Outcome::Updated { matched: 1, modified: 1 }));
    match a {
        Action::Update(Collection::Users, Filter::Sid(x), Change::PushOrder(o)) => {
            assert_eq!(x, "u1");
            assert_eq!(o.sid, first.sid);
            assert_eq!(o.created_at, first.created_at);
        },
        _ => panic!("expected the buyer's order"),
    }
    assert_eq!(expect_message(buy_product_step(&data, &s("p1"), &s("u1"), stage, Outcome::Updated { matched: 1, modified: 1 }), 200), "submited");
    let (stage, _) = buy_product(&data, &s("p1"), &s("u1"));
    expect_error(buy_product_step(&data, &s("p1"), &s("u1"), stage, Outcome::NotFound), 404, "product not found");
    expect_error(
        buy_product_step(&data, &s("p1"), &s("u1"), koochelib::app::services::product::BuyProductStage::SellerPush(order("o1")), Outcome::Updated { matched: 1, modified: 0 }),
        500,
        "#PUP-SELLU",
    );
    expect_error(
        buy_product_step(&data, &s("p1"), &s("u1"), koochelib::app::services::product::BuyProductStage::UserPush, Outcome::Updated { matched: 1, modified: 0 }),
        500,
        "#PUP-USU",
    );
}

#[test]
fn scheduling_an_order() {
    let mut v = seller();
    v.unscheduled_orders = vec![order("o0"), order("o1"), order("o1")];
    assert!(holds_order(&v.unscheduled_orders, &s("o1")));
    assert!(!holds_order(&v.unscheduled_orders, &s("o9")));
    let first_created = v.unscheduled_orders[1].created_at.clone();
    let (stage, a) = schedule_order(&s("tomorrow"), &s("o1"), &s("seller1"));
    assert!(matches!(a, Action::FindOne(Collection::Sellers, Filter::SellerUnscheduledOrder { .. })));
    let (stage, a) = next(schedule_order_step(&s("tomorrow"), &s("o1"), &s("seller1"), stage, Outcome::Found(Record::Seller(v))));
    match a {
        Action::Update(Collection::Sellers, Filter::Sid(x), Change::ScheduleOrder { order_sid, order }) => {
            assert_eq!((x.as_str(), order_sid.as_str()), ("seller1", "o1"));
            assert_eq!(order.sid, "o1");
            assert_eq!(order.created_at, first_created);
            assert_eq!(order.arrived_at, Some(s("tomorrow")));
        },
        _ => panic!("expected the order to move"),
    }
    let (stage, a) = next(schedule_order_step(&s("tomorrow"), &s("o1"), &s("seller1"), stage, Outcome::Updated { matched: 1, modified: 1 }));
    assert!(matches!(a, Action::FindOne(Collection::Users, Filter::HoldsOrder(ref x)) if x == "o1"));
    let buyer = User::new(s("Ali"), s("0912"), s("h"));
    let buyer_sid = buyer.sid.clone();
    let (stage, a) = next(schedule_order_step(&s("tomorrow"), &s("o1"), &s("seller1"), stage, Outcome::Found(Record::User(buyer))));
    match a {
        Action::Update(Collection::Users, Filter::UserOrder { user_sid, order_sid }, Change::SetArrival(t)) => {
            assert_eq!((user_sid, order_sid.as_str(), t.as_str()), (buyer_sid, "o1", "tomorrow"));
        },
        _ => panic!("expected the buyer's order to be updated"),
    }
    assert_eq!(expect_message(schedule_order_step(&s("tomorrow"), &s("o1"), &s("seller1"), stage, Outcome::Updated { matched: 1, modified: 1 }), 200), "order scheduled");
    let (stage, _) = schedule_order(&s("t"), &s("o1"), &s("seller1"));
    expect_error(schedule_order_step(&s("t"), &s("o1"), &s("seller1"), stage, Outcome::NotFound), 404, "user not found");
    expect_error(
        schedule_order_step(&s("t"), &s("o1"), &s("seller1"), koochelib::app::services::product::ScheduleOrderStage::SellerUpdate, Outcome::Updated { matched: 1, modified: 0 }),
        404,
        "order not found",
    );
}

#[test]
fn closing_a_delivered_order() {
    let mut buyer = User::new(s("Ali"), s("0912"), s("h"));
    let mut o = order("o1");
    o.arrived_at = Some(s("monday"));
    buyer.orders = vec![order("o0"), o];
    let (stage, a) = finished_order(&s("o1"), &s("u1"));
    assert!(matches!(a, Action::FindOne(Collection::Users, Filter::UserScheduledOrder { .. })));
    let (stage, a) = next(finished_order_step(&s("o1"), &s("u1"), stage, Outcome::Found(Record::User(buyer)), s("12:00:00 2024/01/02")));
    match a {
        Action::Update(Collection::Sellers, Filter::Sid(x), Change::FinishOrder { order_sid, order }) => {
            assert_eq!((x.as_str(), order_sid.as_str(), order.sid.as_str()), ("u1", "o1", "o1"));
            assert_eq!(order.arrived_at, Some(s("monday")));
            assert_eq!(order.finished_at, Some(s("12:00:00 2024/01/02")));
        },
        _ => panic!("expected the order to close"),
    }
    let (stage, a) = next(finished_order_step(&s("o1"), &s("u1"), stage, Outcome::Updated { matched: 1, modified: 1 }, s("t")));
    assert!(matches!(a, Action::Update(Collection::Users, Filter::Sid(_), Change::PullOrder(ref x)) if x == "o1"));
    expect_error(finished_order_step(&s("o1"), &s("u1"), stage, Outcome::Updated { matched: 1, modified: 1 }, s("t")), 404, "order successfully arrived");
    let (stage, _) = finished_order(&s("o1"), &s("u1"));
    expect_error(finished_order_step(&s("o1"), &s("u1"), stage, Outcome::NotFound, s("t")), 404, "user not found");
}

#[test]
fn product_pictures_are_collected_in_order() {
    let (mut stage, a) = upload_images();
    assert!(matches!(a, Action::NextField));
    let mut kept = Vec::new();
    for _ in 0..2 {
        let (st, a) = next(upload_images_step(stage, Outcome::Field { name: s("images"), content_type: Some(s("image/jpeg")) }));
        assert!(matches!(a, Action::ReadField));
        let (st, a) = next(upload_images_step(st, Outcome::Done));
        match a {
            Action::Insert(Collection::Images, Record::Image(img)) => {
                assert_eq!(img.sid.len(), 50);
                assert_eq!(img.path, format!("uploads/product/{}.jpg", img.sid));
                kept.push(img.sid);
            },
            _ => panic!("expected the picture to be recorded"),
        }
        let (st, a) = next(upload_images_step(st, Outcome::Done));
        assert!(matches!(a, Action::WriteFile(_)));
        let (st, a) = next(upload_images_step(st, Outcome::Done));
        assert!(matches!(a, Action::NextField));
        stage = st;
    }
    let (stage, _) = next(upload_images_step(stage, Outcome::Field { name: s("other"), content_type: None }));
    match upload_images_step(stage, Outcome::NoField) {
        Step::Reply(r) => {
            assert_eq!(r.status, 200);
            assert!(matches!(r.body, Body::Sids(ref v) if *v == kept));
        },
        _ => panic!("expected a reply"),
    }
    let (stage, _) = upload_images();
    expect_error(upload_images_step(stage, Outcome::Field { name: s("images"), content_type: None }), 400, "unkown content type");
}
