//! The product handlers: listing, lookup, creation, deletion and update of products, the
//! upload of product pictures, and the life of an order (purchase, scheduling, delivery).
use vstd::prelude::*;
use vstd::string::StringExecFns;
use crate::app::models::dto::{AddProductDTO, BuyProductDTO, UpdateProductDTO};
use crate::app::models::order::{copy_text, Order};
use crate::app::models::product::Product;
use crate::app::services::auth::{
    choose_field, field_choice, follows_choice, new_picture, records_picture, stores_picture,
    FieldChoice,
};
use crate::app::services::flow::{
    error_reply, message_reply, replies_error, replies_message, Action, Body, Change, Collection,
    Filter, Listed, Outcome, Record, Response, Step, BAD_REQUEST, CREATED, INTERNAL_SERVER_ERROR,
    NOT_FOUND, OK,
};
use crate::app::utils::code::is_sid;

verus! {

/// The products of a listing, in order: items that the cursor could not read are passed
/// over, and an item that does not read as a product spoils the listing (`None`).
pub open spec fn listed(items: Seq<Listed>) -> Option<Seq<Product>>
    decreases items.len(),
{
    if items.len() == 0 {
        Some(seq![])
    } else {
        match items[0] {
            Listed::Unreadable => listed(items.drop_first()),
            Listed::Undecodable => None,
            Listed::Item(p) => match listed(items.drop_first()) {
                Some(rest) => Some(seq![p] + rest),
                None => None,
            },
        }
    }
}

/// The reply that lists the products.
pub open spec fn lists<S>(r: Step<S>, products: Seq<Product>) -> bool {
    &&& r matches Step::Reply(resp)
    &&& resp.status == 200
    &&& resp.body matches Body::Products(v)
    &&& v@ == products
}

/// Where a listing of products stands: reading the newest products.
pub enum ListingStage {
    Listing,
}

/// The answer to a listing: its products, or an error where it failed or held an item that
/// does not read as a product.
pub open spec fn list_products_step_ok(o: Outcome, r: Step<ListingStage>) -> bool {
    match o {
        Outcome::Listing(items) => match listed(items@) {
            Some(products) => lists(r, products),
            None => replies_error(r, 500, "#PGP-DOC"@),
        },
        _ => replies_error(r, 500, "#PGP-F 2"@),
    }
}

/// Starts listing the newest twenty products.
pub fn get_products() -> (r: (ListingStage, Action))
    ensures
        r == (ListingStage::Listing, Action::FindRecentProducts(None)),
{
    (ListingStage::Listing, Action::FindRecentProducts(None))
}

/// Starts listing the newest twenty products of a seller.
pub fn get_user_products(seller_sid: &String) -> (r: (ListingStage, Action))
    ensures
        r == (ListingStage::Listing, Action::FindRecentProducts(Some(*seller_sid))),
{
    (ListingStage::Listing, Action::FindRecentProducts(Some(seller_sid.clone())))
}

/// Answers a listing of products, given what the listing gave.
pub fn list_products_step(stage: ListingStage, outcome: Outcome) -> (r: Step<ListingStage>)
    ensures
        list_products_step_ok(outcome, r),
{
    let ghost o = outcome;
    match outcome {
        Outcome::Listing(items) => {
            let ghost all = items@;
            let mut items = items;
            let mut products: Vec<Product> = Vec::new();
            #[verifier::loop_isolation(false)]
            while items.len() > 0
                invariant
                    listed(all) == match listed(items@) {
                        Some(rest) => Some(products@ + rest),
                        None => None,
                    },
                decreases items.len(),
            {
                let ghost before = items@;
                let item = items.remove(0);
                assert(items@ =~= before.drop_first());
                match item {
                    Listed::Unreadable => {},
                    Listed::Undecodable => {
                        assert(listed(before) is None);
                        assert(listed(all) is None);
                        return error_reply(INTERNAL_SERVER_ERROR, "#PGP-DOC");
                    },
                    Listed::Item(p) => {
                        proof {
                            match listed(items@) {
                                Some(rest) => {
                                    assert(products@.push(p) + rest =~= products@ + (seq![p] + rest));
                                },
                                None => {},
                            }
                        }
                        products.push(p);
                    },
                }
            }
            assert(products@ + seq![] =~= products@);
            Step::Reply(Response { status: OK, body: Body::Products(products) })
        },
        _ => error_reply(INTERNAL_SERVER_ERROR, "#PGP-F 2"),
    }
}

/// Where the lookup of a product stands: reading the product.
pub enum ProductLookupStage {
    Lookup,
}

/// The answer to the lookup of a product: the product, or that there is none.
pub open spec fn get_product_by_sid_step_ok(o: Outcome, r: Step<ProductLookupStage>) -> bool {
    match o {
        Outcome::NotFound => replies_error(r, 404, "user not found"@),
        Outcome::Found(Record::Product(p)) => r == Step::<ProductLookupStage>::Reply(
            Response { status: 200, body: Body::Product(p) },
        ),
        _ => replies_error(r, 500, "#PAP-F"@),
    }
}

/// Starts the lookup of a product by its identifier.
pub fn get_product_by_sid(product_sid: &String) -> (r: (ProductLookupStage, Action))
    ensures
        r == (ProductLookupStage::Lookup, Action::FindOne(Collection::Products, Filter::Sid(*product_sid))),
{
    (ProductLookupStage::Lookup, Action::FindOne(Collection::Products, Filter::Sid(product_sid.clone())))
}

/// Answers the lookup of a product, given what the query found.
pub fn get_product_by_sid_step(stage: ProductLookupStage, outcome: Outcome) -> (r: Step<ProductLookupStage>)
    ensures
        get_product_by_sid_step_ok(outcome, r),
{
    match outcome {
        Outcome::NotFound => error_reply(NOT_FOUND, "user not found"),
        Outcome::Found(Record::Product(p)) => Step::Reply(Response { status: OK, body: Body::Product(p) }),
        _ => error_reply(INTERNAL_SERVER_ERROR, "#PAP-F"),
    }
}

/// Two optional lists of texts hold the same texts.
pub open spec fn same_texts(a: Option<Vec<String>>, b: Option<Vec<String>>) -> bool {
    match (a, b) {
        (Some(x), Some(y)) => x@ == y@,
        (None, None) => true,
        _ => false,
    }
}

fn copy_texts(v: &Option<Vec<String>>) -> (c: Option<Vec<String>>)
    ensures
        same_texts(*v, c),
{
    match v {
        None => None,
        Some(texts) => {
            let mut out: Vec<String> = Vec::new();
            let mut i: usize = 0;
            while i < texts.len()
                invariant
                    i <= texts@.len(),
                    out@ =~= texts@.take(i as int),
                decreases texts@.len() - i,
            {
                out.push(texts[i].clone());
                i = i + 1;
            }
            assert(texts@.take(texts@.len() as int) =~= texts@);
            Some(out)
        },
    }
}

/// `p` is the new product of the seller `user_sid` made of what was sent, with a fresh
/// identifier.
pub open spec fn fresh_product(data: AddProductDTO, user_sid: String, p: Product) -> bool {
    &&& is_sid(p.sid@, 40)
    &&& p.seller_sid == user_sid
    &&& p.title == data.title
    &&& p.description == data.description
    &&& p.price == data.price
    &&& p.discount == data.discount
    &&& same_texts(p.product_images, data.product_images)
}

/// Where the creation of a product stands.
pub enum AddProductStage {
    /// Looking for the seller.
    SellerLookup,
    /// Storing the product.
    Inserting,
}

/// One step of the creation of a product: only a seller that exists gets the product.
pub open spec fn add_product_step_ok(
    data: AddProductDTO,
    user_sid: String,
    stage: AddProductStage,
    o: Outcome,
    r: Step<AddProductStage>,
) -> bool {
    match stage {
        AddProductStage::SellerLookup => match o {
            Outcome::NotFound => replies_error(r, 404, "user not found"@),
            Outcome::Found(Record::Seller(_)) => exists|p: Product|
                #[trigger] fresh_product(data, user_sid, p) && r == Step::Next(
                    AddProductStage::Inserting,
                    Action::Insert(Collection::Products, Record::Product(p)),
                ),
            _ => replies_error(r, 500, "#PAP-F"@),
        },
        AddProductStage::Inserting => if o is Done {
            replies_message(r, 201, "product created"@)
        } else {
            replies_error(r, 500, "#PAP-I2"@)
        },
    }
}

/// Starts the creation of a product by the seller `user_sid`: first, look for the seller.
pub fn add_product(data: &AddProductDTO, user_sid: &String) -> (r: (AddProductStage, Action))
    ensures
        r == (AddProductStage::SellerLookup, Action::FindOne(Collection::Sellers, Filter::Sid(*user_sid))),
{
    (AddProductStage::SellerLookup, Action::FindOne(Collection::Sellers, Filter::Sid(user_sid.clone())))
}

/// One step of the creation of a product, given what came of the last operation.
pub fn add_product_step(data: &AddProductDTO, user_sid: &String, stage: AddProductStage, outcome: Outcome) -> (r: Step<AddProductStage>)
    ensures
        add_product_step_ok(*data, *user_sid, stage, outcome, r),
{
    match stage {
        AddProductStage::SellerLookup => match outcome {
            Outcome::NotFound => error_reply(NOT_FOUND, "user not found"),
            Outcome::Found(Record::Seller(_)) => {
                let product = Product::new(
                    user_sid.clone(),
                    data.title.clone(),
                    data.description.clone(),
                    data.price,
                    data.discount,
                    copy_texts(&data.product_images),
                );
                let ghost p = product;
                let r = Step::Next(AddProductStage::Inserting, Action::Insert(Collection::Products, Record::Product(product)));
                assert(fresh_product(*data, *user_sid, p));
                r
            },
            _ => error_reply(INTERNAL_SERVER_ERROR, "#PAP-F"),
        },
        AddProductStage::Inserting => {
            if matches!(outcome, Outcome::Done) {
                message_reply(CREATED, "product created")
            } else {
                error_reply(INTERNAL_SERVER_ERROR, "#PAP-I2")
            }
        },
    }
}

/// Where the upload of product pictures stands; `sids` are the pictures kept so far.
pub enum ImagesStage {
    /// Reading the form's next field.
    Reading { sids: Vec<String> },
    /// Reading the bytes of a picture.
    Loading { sids: Vec<String> },
    /// Recording a picture under its identifier and path.
    Storing { sids: Vec<String>, sid: String, path: String },
    /// Writing a picture's bytes to its path.
    Writing { sids: Vec<String>, sid: String },
}

/// One step of the upload of product pictures: each field named `images` that holds a JPEG
/// picture is recorded and written under a fresh 50-character identifier; at the end of the
/// form the identifiers are the reply, in order. (A failed read of the form ends it here;
/// the server stops on such a failure before it reaches the handler.)
pub open spec fn upload_images_step_ok(stage: ImagesStage, o: Outcome, r: Step<ImagesStage>) -> bool {
    match stage {
        ImagesStage::Reading { sids } => match o {
            Outcome::Field { name, content_type } => follows_choice(
                field_choice(name, content_type, "images"@),
                r,
                ImagesStage::Reading { sids },
                ImagesStage::Loading { sids },
            ),
            _ => r == Step::<ImagesStage>::Reply(Response { status: 200, body: Body::Sids(sids) }),
        },
        ImagesStage::Loading { sids } => records_picture(
            r,
            "uploads/product/"@,
            50,
            |sid: String, path: String| ImagesStage::Storing { sids, sid, path },
        ),
        ImagesStage::Storing { sids, sid, path } => if o is Done {
            r == Step::Next(ImagesStage::Writing { sids, sid }, Action::WriteFile(path))
        } else {
            replies_error(r, 500, "#PUP-I"@)
        },
        ImagesStage::Writing { sids, sid } => {
            &&& r matches Step::Next(ImagesStage::Reading { sids: kept }, Action::NextField)
            &&& kept@ == sids@.push(sid)
        },
    }
}

/// Starts the upload of product pictures: read the form's first field.
pub fn upload_images() -> (r: (ImagesStage, Action))
    ensures
        r matches (ImagesStage::Reading { sids }, Action::NextField) && sids@.len() == 0,
{
    (ImagesStage::Reading { sids: Vec::new() }, Action::NextField)
}

/// One step of the upload of product pictures, given what came of the last operation.
pub fn upload_images_step(stage: ImagesStage, outcome: Outcome) -> (r: Step<ImagesStage>)
    ensures
        upload_images_step_ok(stage, outcome, r),
{
    match stage {
        ImagesStage::Reading { sids } => match outcome {
            Outcome::Field { name, content_type } => match choose_field(&name, &content_type, "images") {
                FieldChoice::Keep => Step::Next(ImagesStage::Loading { sids }, Action::ReadField),
                FieldChoice::Skip => Step::Next(ImagesStage::Reading { sids }, Action::NextField),
                FieldChoice::Refuse => error_reply(BAD_REQUEST, "unkown content type"),
            },
            _ => Step::Reply(Response { status: OK, body: Body::Sids(sids) }),
        },
        ImagesStage::Loading { sids } => {
            let ghost kept = sids;
            let (sid, path, image) = new_picture("uploads/product/", 50);
            let ghost (s0, p0) = (sid, path);
            let r = Step::Next(
                ImagesStage::Storing { sids, sid, path },
                Action::Insert(Collection::Images, Record::Image(image)),
            );
            assert(stores_picture(r, s0, p0, |sid: String, path: String| ImagesStage::Storing { sids: kept, sid, path }));
            r
        },
        ImagesStage::Storing { sids, sid, path } => {
            if matches!(outcome, Outcome::Done) {
                Step::Next(ImagesStage::Writing { sids, sid }, Action::WriteFile(path))
            } else {
                error_reply(INTERNAL_SERVER_ERROR, "#PUP-I")
            }
        },
        ImagesStage::Writing { sids, sid } => {
            let mut sids = sids;
            sids.push(sid);
            Step::Next(ImagesStage::Reading { sids }, Action::NextField)
        },
    }
}

/// Where the deletion of a product stands.
pub enum DeleteProductStage {
    /// Looking for the seller.
    SellerLookup,
    /// Deleting the document with the product's identifier from the users' collection.
    Deleting,
}

/// One step of the deletion of a product: only an existing seller may delete.
pub open spec fn delete_product_step_ok(
    product_sid: String,
    stage: DeleteProductStage,
    o: Outcome,
    r: Step<DeleteProductStage>,
) -> bool {
    match stage {
        DeleteProductStage::SellerLookup => match o {
            Outcome::NotFound => replies_error(r, 404, "user not found"@),
            Outcome::Found(Record::Seller(_)) => r == Step::Next(
                DeleteProductStage::Deleting,
                Action::Delete(Collection::Users, Filter::Sid(product_sid)),
            ),
            _ => replies_error(r, 500, "#PDP-F"@),
        },
        DeleteProductStage::Deleting => match o {
            Outcome::Deleted(count) => if count == 0 {
                replies_error(r, 404, "product not found"@)
            } else {
                replies_message(r, 200, "product successfully deleted"@)
            },
            _ => replies_error(r, 500, "#PDP-D"@),
        },
    }
}

/// Starts the deletion of a product by the seller `user_sid`: first, look for the seller.
pub fn delete_product(product_sid: &String, user_sid: &String) -> (r: (DeleteProductStage, Action))
    ensures
        r == (DeleteProductStage::SellerLookup, Action::FindOne(Collection::Sellers, Filter::Sid(*user_sid))),
{
    (DeleteProductStage::SellerLookup, Action::FindOne(Collection::Sellers, Filter::Sid(user_sid.clone())))
}

/// One step of the deletion of a product, given what came of the last operation.
pub fn delete_product_step(product_sid: &String, stage: DeleteProductStage, outcome: Outcome) -> (r: Step<DeleteProductStage>)
    ensures
        delete_product_step_ok(*product_sid, stage, outcome, r),
{
    match stage {
        DeleteProductStage::SellerLookup => match outcome {
            Outcome::NotFound => error_reply(NOT_FOUND, "user not found"),
            Outcome::Found(Record::Seller(_)) => Step::Next(
                DeleteProductStage::Deleting,
                Action::Delete(Collection::Users, Filter::Sid(product_sid.clone())),
            ),
            _ => error_reply(INTERNAL_SERVER_ERROR, "#PDP-F"),
        },
        DeleteProductStage::Deleting => match outcome {
            Outcome::Deleted(count) => {
                if count == 0 {
                    error_reply(NOT_FOUND, "product not found")
                } else {
                    message_reply(OK, "product successfully deleted")
                }
            },
            _ => error_reply(INTERNAL_SERVER_ERROR, "#PDP-D"),
        },
    }
}

/// Where the update of a product stands.
pub enum UpdateProductStage {
    /// Looking for the seller.
    SellerLookup,
    /// Updating the product.
    Updating,
}

/// The change that sets a product's fields to what was sent.
pub open spec fn product_fields(data: UpdateProductDTO) -> Change {
    Change::ProductFields {
        title: data.title,
        description: data.description,
        price: data.price,
        discount: data.discount,
    }
}

/// One step of the update of a product: only an existing seller may update.
pub open spec fn update_product_step_ok(
    data: UpdateProductDTO,
    product_sid: String,
    stage: UpdateProductStage,
    o: Outcome,
    r: Step<UpdateProductStage>,
) -> bool {
    match stage {
        UpdateProductStage::SellerLookup => match o {
            Outcome::NotFound => replies_error(r, 404, "user not found"@),
            Outcome::Found(Record::Seller(_)) => r == Step::Next(
                UpdateProductStage::Updating,
                Action::Update(Collection::Products, Filter::Sid(product_sid), product_fields(data)),
            ),
            _ => replies_error(r, 500, "#PUP-F"@),
        },
        UpdateProductStage::Updating => match o {
            Outcome::Updated { .. } => replies_message(r, 201, "product created"@),
            _ => replies_error(r, 500, "#PAP-I"@),
        },
    }
}

/// Starts the update of a product by the seller `user_sid`: first, look for the seller.
pub fn update_product(data: &UpdateProductDTO, product_sid: &String, user_sid: &String) -> (r: (UpdateProductStage, Action))
    ensures
        r == (UpdateProductStage::SellerLookup, Action::FindOne(Collection::Sellers, Filter::Sid(*user_sid))),
{
    (UpdateProductStage::SellerLookup, Action::FindOne(Collection::Sellers, Filter::Sid(user_sid.clone())))
}

/// One step of the update of a product, given what came of the last operation.
pub fn update_product_step(
    data: &UpdateProductDTO,
    product_sid: &String,
    stage: UpdateProductStage,
    outcome: Outcome,
) -> (r: Step<UpdateProductStage>)
    ensures
        update_product_step_ok(*data, *product_sid, stage, outcome, r),
{
    match stage {
        UpdateProductStage::SellerLookup => match outcome {
            Outcome::NotFound => error_reply(NOT_FOUND, "user not found"),
            Outcome::Found(Record::Seller(_)) => Step::Next(
                UpdateProductStage::Updating,
                Action::Update(
                    Collection::Products,
                    Filter::Sid(product_sid.clone()),
                    Change::ProductFields {
                        title: data.title.clone(),
                        description: data.description.clone(),
                        price: data.price,
                        discount: data.discount,
                    },
                ),
            ),
            _ => error_reply(INTERNAL_SERVER_ERROR, "#PUP-F"),
        },
        UpdateProductStage::Updating => match outcome {
            Outcome::Updated { .. } => message_reply(CREATED, "product created"),
            _ => error_reply(INTERNAL_SERVER_ERROR, "#PAP-I"),
        },
    }
}

/// Where a purchase stands.
pub enum BuyProductStage {
    /// Looking for the product.
    ProductLookup,
    /// Looking for the product's seller.
    SellerLookup(String),
    /// Adding the order to the seller's unscheduled orders.
    SellerPush(Order),
    /// Adding the order to the buyer's orders.
    UserPush,
}

/// `order` is the new order of the product by the user, to the address sent, with a fresh
/// identifier.
pub open spec fn fresh_order(data: BuyProductDTO, product_sid: String, user_sid: String, order: Order) -> bool {
    &&& is_sid(order.sid@, 25)
    &&& order.product_sid == product_sid
    &&& order.user_sid == user_sid
    &&& order.user_address == data.address
    &&& order.postal_code == data.postal_code
    &&& order.arrived_at is None
    &&& order.finished_at is None
}

/// One step of a purchase: the product and its seller must exist; then one and the same new
/// order is added to the seller's unscheduled orders and to the buyer's orders.
pub open spec fn buy_product_step_ok(
    data: BuyProductDTO,
    product_sid: String,
    user_sid: String,
    stage: BuyProductStage,
    o: Outcome,
    r: Step<BuyProductStage>,
) -> bool {
    match stage {
        BuyProductStage::ProductLookup => match o {
            Outcome::NotFound => replies_error(r, 404, "product not found"@),
            Outcome::Found(Record::Product(p)) => r == Step::Next(
                BuyProductStage::SellerLookup(p.seller_sid),
                Action::FindOne(Collection::Sellers, Filter::Sid(p.seller_sid)),
            ),
            _ => replies_error(r, 500, "#PUP-PF"@),
        },
        BuyProductStage::SellerLookup(seller_sid) => match o {
            Outcome::NotFound => replies_error(r, 404, "user not found"@),
            Outcome::Found(Record::Seller(_)) => exists|order: Order|
                #[trigger] fresh_order(data, product_sid, user_sid, order) && r == Step::Next(
                    BuyProductStage::SellerPush(order),
                    Action::Update(Collection::Sellers, Filter::Sid(seller_sid), Change::PushUnscheduledOrder(order)),
                ),
            _ => replies_error(r, 500, "#PUP-F"@),
        },
        BuyProductStage::SellerPush(order) => match o {
            Outcome::Updated { modified, .. } => if modified == 0 {
                replies_error(r, 500, "#PUP-SELLU"@)
            } else {
                r == Step::Next(
                    BuyProductStage::UserPush,
                    Action::Update(Collection::Users, Filter::Sid(user_sid), Change::PushOrder(order)),
                )
            },
            _ => replies_error(r, 500, "#PUP-UP1"@),
        },
        BuyProductStage::UserPush => match o {
            Outcome::Updated { modified, .. } => if modified == 0 {
                replies_error(r, 500, "#PUP-USU"@)
            } else {
                replies_message(r, 200, "submited"@)
            },
            _ => replies_error(r, 500, "#PUP-UP2"@),
        },
    }
}

/// Starts the purchase of a product by the user `user_sid`: first, look for the product.
pub fn buy_product(data: &BuyProductDTO, product_sid: &String, user_sid: &String) -> (r: (BuyProductStage, Action))
    ensures
        r == (BuyProductStage::ProductLookup, Action::FindOne(Collection::Products, Filter::Sid(*product_sid))),
{
    (BuyProductStage::ProductLookup, Action::FindOne(Collection::Products, Filter::Sid(product_sid.clone())))
}

/// One step of a purchase, given what came of the last operation.
pub fn buy_product_step(
    data: &BuyProductDTO,
    product_sid: &String,
    user_sid: &String,
    stage: BuyProductStage,
    outcome: Outcome,
) -> (r: Step<BuyProductStage>)
    ensures
        buy_product_step_ok(*data, *product_sid, *user_sid, stage, outcome, r),
{
    match stage {
        BuyProductStage::ProductLookup => match outcome {
            Outcome::NotFound => error_reply(NOT_FOUND, "product not found"),
            Outcome::Found(Record::Product(p)) => {
                let seller_sid = p.seller_sid.clone();
                Step::Next(
                    BuyProductStage::SellerLookup(p.seller_sid),
                    Action::FindOne(Collection::Sellers, Filter::Sid(seller_sid)),
                )
            },
            _ => error_reply(INTERNAL_SERVER_ERROR, "#PUP-PF"),
        },
        BuyProductStage::SellerLookup(seller_sid) => match outcome {
            Outcome::NotFound => error_reply(NOT_FOUND, "user not found"),
            Outcome::Found(Record::Seller(_)) => {
                let order = Order::new(
                    product_sid.clone(),
                    user_sid.clone(),
                    data.address.clone(),
                    data.postal_code.clone(),
                );
                let pushed = order.copy();
                let ghost o = order;
                let r = Step::Next(
                    BuyProductStage::SellerPush(order),
                    Action::Update(Collection::Sellers, Filter::Sid(seller_sid), Change::PushUnscheduledOrder(pushed)),
                );
                assert(fresh_order(*data, *product_sid, *user_sid, o));
                r
            },
            _ => error_reply(INTERNAL_SERVER_ERROR, "#PUP-F"),
        },
        BuyProductStage::SellerPush(order) => match outcome {
            Outcome::Updated { modified, .. } => {
                if modified == 0 {
                    error_reply(INTERNAL_SERVER_ERROR, "#PUP-SELLU")
                } else {
                    Step::Next(
                        BuyProductStage::UserPush,
                        Action::Update(Collection::Users, Filter::Sid(user_sid.clone()), Change::PushOrder(order)),
                    )
                }
            },
            _ => error_reply(INTERNAL_SERVER_ERROR, "#PUP-UP1"),
        },
        BuyProductStage::UserPush => match outcome {
            Outcome::Updated { modified, .. } => {
                if modified == 0 {
                    error_reply(INTERNAL_SERVER_ERROR, "#PUP-USU")
                } else {
                    message_reply(OK, "submited")
                }
            },
            _ => error_reply(INTERNAL_SERVER_ERROR, "#PUP-UP2"),
        },
    }
}

/// `k` is the position of the first order with the identifier.
pub open spec fn first_order_at(orders: Seq<Order>, sid: Seq<char>, k: int) -> bool {
    &&& 0 <= k < orders.len()
    &&& orders[k].sid@ == sid
    &&& forall|j: int| 0 <= j < k ==> orders[j].sid@ != sid
}

/// Some order has the identifier.
pub open spec fn holds_order_spec(orders: Seq<Order>, sid: Seq<char>) -> bool {
    exists|k: int| 0 <= k < orders.len() && orders[k].sid@ == sid
}

/// The position of the first order with the identifier, if any.
pub fn find_order(orders: &Vec<Order>, sid: &String) -> (k: Option<usize>)
    ensures
        match k {
            Some(k) => first_order_at(orders@, sid@, k as int),
            None => !holds_order_spec(orders@, sid@),
        },
{
    let mut i: usize = 0;
    while i < orders.len()
        invariant
            i <= orders@.len(),
            forall|j: int| 0 <= j < i ==> orders@[j].sid@ != sid@,
        decreases orders@.len() - i,
    {
        if orders[i].sid.eq(sid) {
            return Some(i);
        }
        i = i + 1;
    }
    None
}

/// Whether some order has the identifier.
pub fn holds_order(orders: &Vec<Order>, sid: &String) -> (b: bool)
    ensures
        b == holds_order_spec(orders@, sid@),
{
    find_order(orders, sid).is_some()
}

/// The order with the delivery time set.
pub open spec fn scheduled(order: Order, arrive_at: String) -> Order {
    Order { arrived_at: Some(arrive_at), ..order }
}

/// Where the scheduling of an order stands.
pub enum ScheduleOrderStage {
    /// Looking for the seller with the order among its unscheduled ones.
    SellerLookup,
    /// Moving the order to the seller's ongoing orders.
    SellerUpdate,
    /// Looking for the user who placed the order.
    UserLookup,
    /// Setting the delivery time on the user's order.
    UserUpdate,
}

/// The seller that the lookup found holds the order among its unscheduled ones, as the
/// lookup's filter asks; the step relies on it.
pub open spec fn schedule_order_ready(order_sid: String, stage: ScheduleOrderStage, o: Outcome) -> bool {
    stage is SellerLookup ==> match o {
        Outcome::Found(Record::Seller(s)) => holds_order_spec(s.unscheduled_orders@, order_sid@),
        _ => true,
    }
}

/// One step of the scheduling of an order by the seller `user_sid` with the delivery time
/// `arrive_at`: the first unscheduled order with the identifier moves to the seller's
/// ongoing orders with that time, and the user's order gets the same time.
pub open spec fn schedule_order_step_ok(
    arrive_at: String,
    order_sid: String,
    user_sid: String,
    stage: ScheduleOrderStage,
    o: Outcome,
    r: Step<ScheduleOrderStage>,
) -> bool {
    match stage {
        ScheduleOrderStage::SellerLookup => match o {
            Outcome::NotFound => replies_error(r, 404, "user not found"@),
            Outcome::Found(Record::Seller(s)) => exists|k: int|
                #[trigger] first_order_at(s.unscheduled_orders@, order_sid@, k) && r == Step::Next(
                    ScheduleOrderStage::SellerUpdate,
                    Action::Update(
                        Collection::Sellers,
                        Filter::Sid(user_sid),
                        Change::ScheduleOrder {
                            order_sid,
                            order: scheduled(s.unscheduled_orders@[k], arrive_at),
                        },
                    ),
                ),
            _ => replies_error(r, 500, "#PSD-F1"@),
        },
        ScheduleOrderStage::SellerUpdate => match o {
            Outcome::Updated { modified, .. } => if modified == 0 {
                replies_error(r, 404, "order not found"@)
            } else {
                r == Step::Next(
                    ScheduleOrderStage::UserLookup,
                    Action::FindOne(Collection::Users, Filter::HoldsOrder(order_sid)),
                )
            },
            _ => replies_error(r, 500, "#PSD-UPS"@),
        },
        ScheduleOrderStage::UserLookup => match o {
            Outcome::NotFound => replies_error(r, 404, "user not found"@),
            Outcome::Found(Record::User(u)) => r == Step::Next(
                ScheduleOrderStage::UserUpdate,
                Action::Update(
                    Collection::Users,
                    Filter::UserOrder { user_sid: u.sid, order_sid },
                    Change::SetArrival(arrive_at),
                ),
            ),
            _ => replies_error(r, 500, "#PSD-F3"@),
        },
        ScheduleOrderStage::UserUpdate => match o {
            Outcome::Updated { modified, .. } => if modified == 0 {
                replies_error(r, 404, "order not found"@)
            } else {
                replies_message(r, 200, "order scheduled"@)
            },
            _ => replies_error(r, 500, "#PSD-F3-1"@),
        },
    }
}

/// Starts the scheduling of an order by the seller `user_sid`: first, look for the seller
/// with the order among its unscheduled ones.
pub fn schedule_order(arrive_at: &String, order_sid: &String, user_sid: &String) -> (r: (ScheduleOrderStage, Action))
    ensures
        r == (ScheduleOrderStage::SellerLookup, Action::FindOne(
            Collection::Sellers,
            Filter::SellerUnscheduledOrder { seller_sid: *user_sid, order_sid: *order_sid },
        )),
{
    (ScheduleOrderStage::SellerLookup, Action::FindOne(
        Collection::Sellers,
        Filter::SellerUnscheduledOrder { seller_sid: user_sid.clone(), order_sid: order_sid.clone() },
    ))
}

/// One step of the scheduling of an order, given what came of the last operation.
pub fn schedule_order_step(
    arrive_at: &String,
    order_sid: &String,
    user_sid: &String,
    stage: ScheduleOrderStage,
    outcome: Outcome,
) -> (r: Step<ScheduleOrderStage>)
    requires
        schedule_order_ready(*order_sid, stage, outcome),
    ensures
        schedule_order_step_ok(*arrive_at, *order_sid, *user_sid, stage, outcome, r),
{
    match stage {
        ScheduleOrderStage::SellerLookup => match outcome {
            Outcome::NotFound => error_reply(NOT_FOUND, "user not found"),
            Outcome::Found(Record::Seller(s)) => {
                let k = match find_order(&s.unscheduled_orders, order_sid) {
                    Some(k) => k,
                    None => {
                        assert(false);
                        0
                    },
                };
                let found = &s.unscheduled_orders[k];
                let order = Order {
                    sid: found.sid.clone(),
                    product_sid: found.product_sid.clone(),
                    user_sid: found.user_sid.clone(),
                    user_address: found.user_address.clone(),
                    postal_code: found.postal_code.clone(),
                    created_at: found.created_at.clone(),
                    arrived_at: Some(arrive_at.clone()),
                    finished_at: copy_text(&found.finished_at),
                };
                let r = Step::Next(
                    ScheduleOrderStage::SellerUpdate,
                    Action::Update(
                        Collection::Sellers,
                        Filter::Sid(user_sid.clone()),
                        Change::ScheduleOrder { order_sid: order_sid.clone(), order },
                    ),
                );
                assert(first_order_at(s.unscheduled_orders@, order_sid@, k as int));
                r
            },
            _ => error_reply(INTERNAL_SERVER_ERROR, "#PSD-F1"),
        },
        ScheduleOrderStage::SellerUpdate => match outcome {
            Outcome::Updated { modified, .. } => {
                if modified == 0 {
                    error_reply(NOT_FOUND, "order not found")
                } else {
                    Step::Next(
                        ScheduleOrderStage::UserLookup,
                        Action::FindOne(Collection::Users, Filter::HoldsOrder(order_sid.clone())),
                    )
                }
            },
            _ => error_reply(INTERNAL_SERVER_ERROR, "#PSD-UPS"),
        },
        ScheduleOrderStage::UserLookup => match outcome {
            Outcome::NotFound => error_reply(NOT_FOUND, "user not found"),
            Outcome::Found(Record::User(u)) => Step::Next(
                ScheduleOrderStage::UserUpdate,
                Action::Update(
                    Collection::Users,
                    Filter::UserOrder { user_sid: u.sid, order_sid: order_sid.clone() },
                    Change::SetArrival(arrive_at.clone()),
                ),
            ),
            _ => error_reply(INTERNAL_SERVER_ERROR, "#PSD-F3"),
        },
        ScheduleOrderStage::UserUpdate => match outcome {
            Outcome::Updated { modified, .. } => {
                if modified == 0 {
                    error_reply(NOT_FOUND, "order not found")
                } else {
                    message_reply(OK, "order scheduled")
                }
            },
            _ => error_reply(INTERNAL_SERVER_ERROR, "#PSD-F3-1"),
        },
    }
}

/// Where the closing of a delivered order stands.
pub enum FinishedOrderStage {
    /// Looking for the user with the order among its scheduled ones.
    UserLookup,
    /// Moving the order to the finished orders of the seller with the user's identifier.
    SellerUpdate,
    /// Removing the order from the user's orders.
    UserUpdate,
}

/// The user that the lookup found holds the order among its orders; the step relies on it.
pub open spec fn finished_order_ready(order_sid: String, stage: FinishedOrderStage, o: Outcome) -> bool {
    stage is UserLookup ==> match o {
        Outcome::Found(Record::User(u)) => holds_order_spec(u.orders@, order_sid@),
        _ => true,
    }
}

/// `r` moves the order, closed at `closed_at`, to the finished orders of the seller
/// `user_sid`.
pub open spec fn closes_order(
    r: Step<FinishedOrderStage>,
    user_sid: String,
    order_sid: String,
    order: Order,
    closed_at: String,
) -> bool {
    r == Step::Next(
        FinishedOrderStage::SellerUpdate,
        Action::Update(
            Collection::Sellers,
            Filter::Sid(user_sid),
            Change::FinishOrder { order_sid, order: Order { finished_at: Some(closed_at), ..order } },
        ),
    )
}

/// One step of the closing of a delivered order by `user_sid`, at the time `now`: the first
/// of the user's orders with the identifier, closed at `now`, moves to the finished orders of
/// the seller with that identifier, and leaves the user's orders. The last answer is a 404
/// whose error text says the order arrived.
pub open spec fn finished_order_step_ok(
    order_sid: String,
    user_sid: String,
    stage: FinishedOrderStage,
    o: Outcome,
    now: String,
    r: Step<FinishedOrderStage>,
) -> bool {
    match stage {
        FinishedOrderStage::UserLookup => match o {
            Outcome::NotFound => replies_error(r, 404, "user not found"@),
            Outcome::Found(Record::User(u)) => exists|k: int|
                first_order_at(u.orders@, order_sid@, k) && #[trigger] closes_order(
                    r,
                    user_sid,
                    order_sid,
                    u.orders@[k],
                    now,
                ),
            _ => replies_error(r, 500, "#FO-F"@),
        },
        FinishedOrderStage::SellerUpdate => match o {
            Outcome::Updated { modified, .. } => if modified == 0 {
                replies_error(r, 404, "order not found"@)
            } else {
                r == Step::Next(
                    FinishedOrderStage::UserUpdate,
                    Action::Update(Collection::Users, Filter::Sid(user_sid), Change::PullOrder(order_sid)),
                )
            },
            _ => replies_error(r, 500, "#FO-UPS"@),
        },
        FinishedOrderStage::UserUpdate => match o {
            Outcome::Updated { modified, .. } => if modified == 0 {
                replies_error(r, 404, "order not found"@)
            } else {
                replies_error(r, 404, "order successfully arrived"@)
            },
            _ => replies_error(r, 500, "#FO-UPU"@),
        },
    }
}

/// Starts the closing of a delivered order by `user_sid`: first, look for the user with the
/// order among its scheduled ones.
pub fn finished_order(order_sid: &String, user_sid: &String) -> (r: (FinishedOrderStage, Action))
    ensures
        r == (FinishedOrderStage::UserLookup, Action::FindOne(
            Collection::Users,
            Filter::UserScheduledOrder { user_sid: *user_sid, order_sid: *order_sid },
        )),
{
    (FinishedOrderStage::UserLookup, Action::FindOne(
        Collection::Users,
        Filter::UserScheduledOrder { user_sid: user_sid.clone(), order_sid: order_sid.clone() },
    ))
}

/// One step of the closing of a delivered order, given what came of the last operation and
/// the time `now` (as `formatted_time` writes it) at which an order is closed.
pub fn finished_order_step(
    order_sid: &String,
    user_sid: &String,
    stage: FinishedOrderStage,
    outcome: Outcome,
    now: String,
) -> (r: Step<FinishedOrderStage>)
    requires
        finished_order_ready(*order_sid, stage, outcome),
    ensures
        finished_order_step_ok(*order_sid, *user_sid, stage, outcome, now, r),
{
    match stage {
        FinishedOrderStage::UserLookup => match outcome {
            Outcome::NotFound => error_reply(NOT_FOUND, "user not found"),
            Outcome::Found(Record::User(u)) => {
                let k = match find_order(&u.orders, order_sid) {
                    Some(k) => k,
                    None => {
                        assert(false);
                        0
                    },
                };
                let found = &u.orders[k];
                let ghost at = now;
                let order = Order {
                    sid: found.sid.clone(),
                    product_sid: found.product_sid.clone(),
                    user_sid: found.user_sid.clone(),
                    user_address: found.user_address.clone(),
                    postal_code: found.postal_code.clone(),
                    created_at: found.created_at.clone(),
                    arrived_at: copy_text(&found.arrived_at),
                    finished_at: Some(now),
                };
                let r = Step::Next(
                    FinishedOrderStage::SellerUpdate,
                    Action::Update(
                        Collection::Sellers,
                        Filter::Sid(user_sid.clone()),
                        Change::FinishOrder { order_sid: order_sid.clone(), order },
                    ),
                );
                assert(first_order_at(u.orders@, order_sid@, k as int));
                assert(closes_order(r, *user_sid, *order_sid, u.orders@[k as int], at));
                r
            },
            _ => error_reply(INTERNAL_SERVER_ERROR, "#FO-F"),
        },
        FinishedOrderStage::SellerUpdate => match outcome {
            Outcome::Updated { modified, .. } => {
                if modified == 0 {
                    error_reply(NOT_FOUND, "order not found")
                } else {
                    Step::Next(
                        FinishedOrderStage::UserUpdate,
                        Action::Update(Collection::Users, Filter::Sid(user_sid.clone()), Change::PullOrder(order_sid.clone())),
                    )
                }
            },
            _ => error_reply(INTERNAL_SERVER_ERROR, "#FO-UPS"),
        },
        FinishedOrderStage::UserUpdate => match outcome {
            Outcome::Updated { modified, .. } => {
                if modified == 0 {
                    error_reply(NOT_FOUND, "order not found")
                } else {
                    error_reply(NOT_FOUND, "order successfully arrived")
                }
            },
            _ => error_reply(INTERNAL_SERVER_ERROR, "#FO-UPU"),
        },
    }
}

} // verus!
