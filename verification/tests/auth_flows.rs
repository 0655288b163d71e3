use koochelib::app::services::auth::{change_password_with_hash, seller_signup_with_hash, signup_with_hash, SellerSignupStage};
use koochelib::app::utils::time::timestamp;
use koochelib::app::models::dto::{
    ChangePasswordDTO, ForgotPasswordDTO, SellerSignupDTO, SigninDTO, SignupDTO, VerifyDTO, VerifyKind,
};
use koochelib::app::models::user::{Seller, User};
use koochelib::app::services::auth::{
    change_password, change_password_step, forgot_password, forgot_password_step, seller_signup,
    seller_signup_step, signin, signin_step, signup, signup_step, upload_picture, upload_picture_step,
    verify, verify_step, ChangePasswordStage, SignupStage,
};
use koochelib::app::services::flow::{Action, Body, Change, Collection, Filter, Outcome, Record, Step};
use koochelib::app::utils::jwt::JWT;
use koochelib::app::services::auth::{PictureStage, VerifyStage};

fn now() -> usize {
    timestamp()
}

fn s(x: &str) -> String {
    String::from(x)
}

fn next<S>(st: Step<S>) -> (S, Action) {
    match st {
        Step::Next(stage, a) => (stage, a),
        Step::Reply(r) => panic!("replied early with status {}", r.status),
    }
}

fn expect_error<S>(st: Step<S>, status: u16, text: &str) {
    match st {
        Step::Reply(r) => {
            assert_eq!(r.status, status);
            match r.body {
                Body::Error(e) => assert_eq!(e, text),
                _ => panic!("expected an error body"),
            }
        },
        Step::Next(..) => panic!("expected a reply"),
    }
}

fn expect_message<S>(st: Step<S>, status: u16) -> String {
    match st {
        Step::Reply(r) => {
            assert_eq!(r.status, status);
            match r.body {
                Body::Message(m) => m,
                _ => panic!("expected a message body"),
            }
        },
        Step::Next(..) => panic!("expected a reply"),
    }
}

fn user(verified: bool, password: &str) -> User {
    let mut u = User::new(s("Ali Rezaei"), s("0912"), bcrypt::hash(password, 4).unwrap());
    u.is_verified = verified;
    u
}

fn seller(verified: bool, password: &str) -> Seller {
    let mut v = Seller::new(s("Sara"), s("0935"), bcrypt::hash(password, 4).unwrap(), s("0012345679"), s("img"), 1);
    v.is_verified = verified;
    v
}

fn signup_data() -> SignupDTO {
    SignupDTO { first_name: s("Ali"), last_name: s("Rezaei"), phone_number: s("0912"), password: s("pw") }
}

#[test]
fn signup_refuses_numbers_already_held() {
    let data = signup_data();
    let (stage, a) = signup(&data);
    assert!(matches!(a, Action::FindOne(Collection::Sellers, Filter::Phone(ref p)) if p == "0912"));
    expect_error(signup_step(&data, stage, Outcome::Found(Record::Seller(seller(true, "x")))), 400, "user already exists");
    let (stage, _) = signup(&data);
    expect_error(signup_step(&data, stage, Outcome::Failed(s("db"))), 500, "#SU-CH1");
    let (stage, a) = next(signup_step(&data, SignupStage::SellerLookup, Outcome::NotFound));
    assert!(matches!(a, Action::FindOne(Collection::Users, Filter::Phone(ref p)) if p == "0912"));
    expect_error(signup_step(&data, stage, Outcome::Found(Record::User(user(true, "x")))), 400, "user already exists");
    expect_error(signup_step(&data, SignupStage::UserLookup, Outcome::Undecodable(s("bad"))), 500, "#SU-DOC1");
    expect_error(signup_step(&data, SignupStage::UserLookup, Outcome::Failed(s("db"))), 500, "#SU-CH");
}

#[test]
fn signup_reminds_unverified_users() {
    let data = signup_data();
    let (stage, a) = next(signup_step(&data, SignupStage::UserLookup, Outcome::Found(Record::User(user(false, "x")))));
    assert!(matches!(a, Action::CacheGet(ref k) if k == "0912"));
    let (stage, _) = next(signup_step(&data, stage, Outcome::NotFound));
    let (stage, _) = next(signup_step(&data, stage, Outcome::Done));
    assert_eq!(expect_message(signup_step(&data, stage, Outcome::Done), 200), "verify your account");
    let (stage, _) = next(signup_step(&data, SignupStage::UserLookup, Outcome::Found(Record::User(user(false, "x")))));
    expect_error(signup_step(&data, stage, Outcome::Text(s("111111"))), 400, "کد به تازگی ارسال شده است");
}

#[test]
fn signup_creates_an_account_after_sending_its_code() {
    let data = signup_data();
    let (stage, _) = next(signup_step(&data, SignupStage::SellerLookup, Outcome::NotFound));
    let (stage, a) = next(signup_step(&data, stage, Outcome::NotFound));
    assert!(matches!(a, Action::CacheGet(ref k) if k == "0912"));
    let (stage, a) = next(signup_step(&data, stage, Outcome::NotFound));
    assert!(matches!(a, Action::CachePut { .. }));
    let (stage, a) = next(signup_step(&data, stage, Outcome::Done));
    assert!(matches!(a, Action::SendSms { .. }));
    let (stage, a) = next(signup_step(&data, stage, Outcome::Done));
    match a {
        Action::Insert(Collection::Users, Record::User(u)) => {
            assert_eq!(u.full_name, "Ali Rezaei");
            assert_eq!(u.phone_number, "0912");
            assert!(!u.is_verified);
            assert_ne!(u.password, "pw");
            assert!(bcrypt::verify("pw", &u.password).unwrap());
        },
        _ => panic!("expected the account to be stored"),
    }
    assert_eq!(expect_message(signup_step(&data, stage, Outcome::Done), 201), "account created, now verify it");
    expect_error(signup_step(&data, SignupStage::Inserting, Outcome::Failed(s("db"))), 500, "#SU-D");
}

#[test]
fn signup_stops_when_the_code_cannot_be_sent() {
    let data = signup_data();
    let (stage, _) = next(signup_step(&data, SignupStage::UserLookup, Outcome::NotFound));
    let (stage, _) = next(signup_step(&data, stage, Outcome::NotFound));
    expect_error(signup_step(&data, stage, Outcome::Failed(s("down"))), 500, "چند دقیقه دیگر مجدد امتحان کنید");
}

fn seller_data(code: &str) -> SellerSignupDTO {
    SellerSignupDTO {
        first_name: s("Sara"),
        last_name: s("Ahmadi"),
        phone_number: s("0935"),
        password: s("pw"),
        national_code: s(code),
        national_card_image_sid: s("img1"),
        bank_card_number: 42,
    }
}

#[test]
fn seller_signup_creates_a_checked_account() {
    let data = seller_data("0012345679");
    let (stage, _) = seller_signup(&data);
    let (stage, a) = next(seller_signup_step(&data, stage, Outcome::NotFound));
    assert!(matches!(a, Action::Delete(Collection::Users, Filter::Phone(ref p)) if p == "0935"));
    let (stage, a) = next(seller_signup_step(&data, stage, Outcome::Deleted(0)));
    assert!(matches!(a, Action::FindOne(Collection::Images, Filter::Sid(ref i)) if i == "img1"));
    let (stage, _) = next(seller_signup_step(&data, stage, Outcome::Found(Record::Image(koochelib::app::models::Images {
        sid: s("img1"),
        path: s("p"),
        created_at: s("t"),
    }))));
    let (stage, _) = next(seller_signup_step(&data, stage, Outcome::NotFound));
    let (stage, a) = next(seller_signup_step(&data, stage, Outcome::Done));
    match a {
        Action::SendSms { text, .. } => assert!(text.starts_with(" ثبت نام فروشنده")),
        _ => panic!("expected the message"),
    }
    let (stage, a) = next(seller_signup_step(&data, stage, Outcome::Done));
    match a {
        Action::Insert(Collection::Sellers, Record::Seller(v)) => {
            assert_eq!(v.full_name, "Sara Ahmadi");
            assert_eq!(v.national_code, "0012345679");
            assert_eq!(v.bank_card_number, 42);
            assert!(bcrypt::verify("pw", &v.password).unwrap());
        },
        _ => panic!("expected the account to be stored"),
    }
    assert_eq!(expect_message(seller_signup_step(&data, stage, Outcome::Done), 201), "seller account created, now verify it");
}

#[test]
fn seller_signup_refusals() {
    let bad = seller_data("0012345671");
    let image = || Outcome::Found(Record::Image(koochelib::app::models::Images { sid: s("img1"), path: s("p"), created_at: s("t") }));
    expect_error(seller_signup_step(&bad, koochelib::app::services::auth::SellerSignupStage::ImageLookup, image()), 400, "make sure you send the correct information");
    let data = seller_data("0012345679");
    expect_error(seller_signup_step(&data, koochelib::app::services::auth::SellerSignupStage::ImageLookup, Outcome::NotFound), 404, "image not found");
    expect_error(seller_signup_step(&data, koochelib::app::services::auth::SellerSignupStage::ImageLookup, Outcome::Failed(s("e1"))), 500, "e1");
    expect_error(seller_signup_step(&data, koochelib::app::services::auth::SellerSignupStage::UserRemoval, Outcome::Failed(s("e2"))), 500, "e2");
    let (stage, a) = next(seller_signup_step(&data, koochelib::app::services::auth::SellerSignupStage::SellerLookup, Outcome::Found(Record::Seller(seller(true, "x")))));
    assert!(matches!(a, Action::FindOne(Collection::Sellers, Filter::NationalCode(ref c)) if c == "0012345679"));
    expect_error(seller_signup_step(&data, stage, Outcome::NotFound), 400, "user already exists");
    expect_error(seller_signup_step(&data, koochelib::app::services::auth::SellerSignupStage::SellerLookup, Outcome::Undecodable(s("x"))), 500, "#SSU-DOC1");
    expect_error(seller_signup_step(&data, koochelib::app::services::auth::SellerSignupStage::SellerLookup, Outcome::Failed(s("x"))), 500, "#SSU-CH");
    expect_error(seller_signup_step(&data, koochelib::app::services::auth::SellerSignupStage::Inserting, Outcome::Failed(s("x"))), 500, "#SSU-D");
}

#[test]
fn signin_gives_a_token_for_the_right_password() {
    let data = SigninDTO { phone_number: s("0912"), password: s("pw") };
    let u = user(true, "pw");
    let sid = u.sid.clone();
    let (stage, a) = signin(&data);
    assert!(matches!(a, Action::FindOne(Collection::Users, Filter::Phone(ref p)) if p == "0912"));
    let token = expect_message(signin_step(&data, stage, Outcome::Found(Record::User(u)), now()), 200);
    assert_eq!(JWT::verify_token(token), Ok(sid));
    let wrong = SigninDTO { phone_number: s("0912"), password: s("pW") };
    let (stage, _) = signin(&wrong);
    expect_error(signin_step(&wrong, stage, Outcome::Found(Record::User(user(true, "pw"))), now()), 400, "password or phone number is incorrect");
    let mut broken = user(true, "pw");
    broken.password = s("plain");
    let (stage, _) = signin(&data);
    expect_error(signin_step(&data, stage, Outcome::Found(Record::User(broken)), now()), 500, "#SI-P");
}

#[test]
fn signin_falls_back_to_sellers() {
    let data = SigninDTO { phone_number: s("0935"), password: s("pw") };
    let (stage, _) = signin(&data);
    let (stage, a) = next(signin_step(&data, stage, Outcome::NotFound, now()));
    assert!(matches!(a, Action::FindOne(Collection::Sellers, Filter::Phone(ref p)) if p == "0935"));
    let v = seller(true, "pw");
    let sid = v.sid.clone();
    let token = expect_message(signin_step(&data, stage, Outcome::Found(Record::Seller(v)), now()), 200);
    assert_eq!(JWT::verify_token(token), Ok(sid));
    let (stage, _) = next(signin_step(&data, koochelib::app::services::auth::SigninStage::UserLookup, Outcome::NotFound, now()));
    expect_error(signin_step(&data, stage, Outcome::NotFound, now()), 404, "user not found");
    expect_error(signin_step(&data, koochelib::app::services::auth::SigninStage::SellerLookup, Outcome::Undecodable(s("x")), now()), 500, "#SSI-SEC1DOC");
    expect_error(signin_step(&data, koochelib::app::services::auth::SigninStage::UserLookup, Outcome::Failed(s("x")), now()), 500, "#SI-F1");
    let (stage, a) = next(signin_step(&data, koochelib::app::services::auth::SigninStage::SellerLookup, Outcome::Found(Record::Seller(seller(false, "pw"))), now()));
    assert!(matches!(a, Action::CacheGet(_)));
    let (stage, _) = next(signin_step(&data, stage, Outcome::NotFound, now()));
    let (_, a) = next(signin_step(&data, stage, Outcome::Done, now()));
    match a {
        Action::SendSms { text, .. } => assert!(text.starts_with(" ثبت نام فروشنده")),
        _ => panic!("expected the message"),
    }
}

#[test]
fn verification_marks_accounts_with_the_right_code() {
    let data = VerifyDTO { phone_number: s("0912"), code: s("123456"), kind: VerifyKind::AccountVerification };
    let (stage, a) = verify(&data);
    assert!(matches!(a, Action::CacheGet(ref k) if k == "0912"));
    let (stage, a) = next(verify_step(&data, stage, Outcome::Text(s("123456"))));
    assert!(matches!(a, Action::CacheDelete(ref k) if k == "0912"));
    let (stage, a) = next(verify_step(&data, stage, Outcome::Done));
    assert!(matches!(a, Action::Update(Collection::Users, Filter::Phone(ref p), Change::Verified) if p == "0912"));
    assert_eq!(expect_message(verify_step(&data, stage, Outcome::Updated { matched: 1, modified: 1 }), 200), "your account successfully verified");
    let (stage, _) = verify(&data);
    expect_error(verify_step(&data, stage, Outcome::Text(s("654321"))), 400, "wrong");
    let (stage, _) = verify(&data);
    expect_error(verify_step(&data, stage, Outcome::Failed(s("nil"))), 404, "not found");
}

#[test]
fn verification_falls_back_to_sellers() {
    let data = VerifyDTO { phone_number: s("0935"), code: s("12345"), kind: VerifyKind::AccountVerification };
    let (stage, a) = next(verify_step(&data, VerifyStage::UserUpdate, Outcome::Updated { matched: 0, modified: 0 }));
    assert!(matches!(a, Action::Update(Collection::Sellers, Filter::Phone(_), Change::Verified)));
    expect_error(verify_step(&data, stage, Outcome::Updated { matched: 0, modified: 0 }), 404, "user not found");
    expect_error(verify_step(&data, VerifyStage::SellerUpdate, Outcome::Updated { matched: 1, modified: 0 }), 500, "#VF-MC");
    expect_error(verify_step(&data, VerifyStage::UserUpdate, Outcome::Updated { matched: 1, modified: 0 }), 500, "#VF-MC");
    expect_error(verify_step(&data, VerifyStage::UserUpdate, Outcome::Failed(s("x"))), 500, "#VF-UP");
    expect_error(verify_step(&data, VerifyStage::CodeRemoval, Outcome::Failed(s("x"))), 500, "#VF-RDD");
}

#[test]
fn verification_for_a_password_change_hands_out_a_link() {
    let data = VerifyDTO { phone_number: s("0912"), code: s("123456"), kind: VerifyKind::ChangePassword };
    let (stage, _) = verify(&data);
    let (stage, _) = next(verify_step(&data, stage, Outcome::Text(s("123456"))));
    let (stage, a) = next(verify_step(&data, stage, Outcome::Done));
    let link = match a {
        Action::CachePut { key, value, seconds } => {
            assert_eq!(key, "0912");
            assert_eq!(seconds, 120);
            assert_eq!(value.len(), 55);
            value
        },
        _ => panic!("expected the link to be stored"),
    };
    assert_eq!(expect_message(verify_step(&data, stage, Outcome::Done), 200), link);
}

#[test]
fn password_recovery_sends_the_right_code() {
    let data = ForgotPasswordDTO { phone_number: s("0912"), password: s("new") };
    let (stage, _) = forgot_password(&data);
    let (stage, _) = next(forgot_password_step(&data, stage, Outcome::Found(Record::User(user(true, "x")))));
    let (stage, _) = next(forgot_password_step(&data, stage, Outcome::NotFound));
    let (stage, a) = next(forgot_password_step(&data, stage, Outcome::Done));
    match a {
        Action::SendSms { text, .. } => assert!(text.starts_with("تغییر رمز")),
        _ => panic!("expected the message"),
    }
    assert_eq!(expect_message(forgot_password_step(&data, stage, Outcome::Done), 200), "code is sent, verify it");
    let (stage, _) = forgot_password(&data);
    let (stage, a) = next(forgot_password_step(&data, stage, Outcome::NotFound));
    assert!(matches!(a, Action::FindOne(Collection::Users, Filter::Phone(_))));
    expect_error(forgot_password_step(&data, stage, Outcome::NotFound), 404, "user not found");
    let (stage, _) = next(forgot_password_step(&data, koochelib::app::services::auth::ForgotPasswordStage::SecondLookup, Outcome::Found(Record::User(user(false, "x")))));
    let (stage, _) = next(forgot_password_step(&data, stage, Outcome::NotFound));
    let (stage, a) = next(forgot_password_step(&data, stage, Outcome::Done));
    match a {
        Action::SendSms { text, .. } => assert!(text.starts_with(" ثبت نام فروشنده")),
        _ => panic!("expected the message"),
    }
    assert_eq!(expect_message(forgot_password_step(&data, stage, Outcome::Done), 200), "verify your account");
    expect_error(forgot_password_step(&data, koochelib::app::services::auth::ForgotPasswordStage::FirstLookup, Outcome::Failed(s("x"))), 500, "#FP-F");
}

#[test]
fn password_change_needs_the_stored_link() {
    let data = ChangePasswordDTO { phone_number: s("0912"), password: s("new") };
    expect_error(change_password(&data, &s("")), 401, "UNAUTHORIZED");
    let link = s("L1");
    let (stage, a) = next(change_password(&data, &link));
    assert!(matches!(a, Action::CacheGet(ref k) if k == "0912"));
    expect_error(change_password_step(&data, &link, ChangePasswordStage::LinkLookup, Outcome::Text(s("L2"))), 401, "unauthorized");
    expect_error(change_password_step(&data, &link, ChangePasswordStage::LinkLookup, Outcome::Failed(s("nil"))), 404, "unkown sid");
    let (stage, a) = next(change_password_step(&data, &link, stage, Outcome::Text(s("L1"))));
    match a {
        Action::Update(Collection::Users, Filter::Phone(p), Change::Password(h)) => {
            assert_eq!(p, "0912");
            assert!(bcrypt::verify("new", &h).unwrap());
        },
        _ => panic!("expected the new hash"),
    }
    let (stage, a) = next(change_password_step(&data, &link, stage, Outcome::Updated { matched: 0, modified: 0 }));
    assert!(matches!(a, Action::Update(Collection::Sellers, Filter::Phone(_), Change::Password(_))));
    expect_error(change_password_step(&data, &link, stage, Outcome::Updated { matched: 0, modified: 0 }), 404, "user not found #E1");
    expect_error(change_password_step(&data, &link, ChangePasswordStage::SellerUpdate, Outcome::Updated { matched: 1, modified: 0 }), 500, "CP-MC");
    assert_eq!(
        expect_message(change_password_step(&data, &link, ChangePasswordStage::SellerUpdate, Outcome::Updated { matched: 1, modified: 1 }), 200),
        "your password successfully changed",
    );
}

#[test]
fn identity_pictures_are_recorded_then_written() {
    let (stage, a) = upload_picture();
    assert!(matches!(a, Action::NextField));
    let (stage, a) = next(upload_picture_step(stage, Outcome::Field { name: s("other"), content_type: None }));
    assert!(matches!(a, Action::NextField));
    let (stage, a) = next(upload_picture_step(stage, Outcome::Field { name: s("file"), content_type: Some(s("image/png")) }));
    assert!(matches!(a, Action::NextField));
    let (stage, a) = next(upload_picture_step(stage, Outcome::Field { name: s("file"), content_type: Some(s("image/jpeg")) }));
    assert!(matches!(a, Action::ReadField));
    let (stage, a) = next(upload_picture_step(stage, Outcome::Done));
    let sid = match a {
        Action::Insert(Collection::Images, Record::Image(img)) => {
            assert_eq!(img.sid.len(), 45);
            assert_eq!(img.path, format!("uploads/auth/{}.jpg", img.sid));
            img.sid
        },
        _ => panic!("expected the picture to be recorded"),
    };
    let (stage, a) = next(upload_picture_step(stage, Outcome::Done));
    assert!(matches!(a, Action::WriteFile(ref p) if *p == format!("uploads/auth/{}.jpg", sid)));
    assert_eq!(expect_message(upload_picture_step(stage, Outcome::Done), 200), sid);
    expect_error(upload_picture_step(PictureStage::Reading, Outcome::Field { name: s("file"), content_type: None }), 400, "unkown content type");
    expect_error(upload_picture_step(PictureStage::Reading, Outcome::NoField), 400, "#UP-NONE");
    expect_error(upload_picture_step(PictureStage::Reading, Outcome::Failed(s("x"))), 500, "#AUP-WH");
    expect_error(upload_picture_step(PictureStage::Storing { sid: s("a"), path: s("b") }, Outcome::Failed(s("x"))), 500, "#AUP-I");
}

#[test]
fn a_signed_in_token_passes_the_guard_as_its_account() {
    let data = SigninDTO { phone_number: s("0912"), password: s("pw") };
    let u = user(true, "pw");
    let sid = u.sid.clone();
    let (stage, _) = signin(&data);
    let token = expect_message(signin_step(&data, stage, Outcome::Found(Record::User(u)), now()), 200);
    match koochelib::app::middleware::auth_middleware(Some(format!("Bearer {}", token))) {
        Ok(d) => assert_eq!(d.sid, sid),
        Err(status) => panic!("refused with {}", status),
    }
}

#[test]
fn signin_tokens_expire_900_s_for_users_and_600_s_for_sellers() {
    let at: usize = 1_700_000_000;
    let data = SigninDTO { phone_number: s("0912"), password: s("pw") };
    let u = user(true, "pw");
    let sid = u.sid.clone();
    let token = expect_message(signin_step(&data, koochelib::app::services::auth::SigninStage::UserLookup, Outcome::Found(Record::User(u)), at), 200);
    assert_eq!(token, JWT::new(sid, at + 900).create_token().unwrap());
    let v = seller(true, "pw");
    let sid = v.sid.clone();
    let token = expect_message(signin_step(&data, koochelib::app::services::auth::SigninStage::SellerLookup, Outcome::Found(Record::Seller(v)), at), 200);
    assert_eq!(token, JWT::new(sid, at + 600).create_token().unwrap());
}

#[test]
fn a_session_reply_overflowing_the_clock_is_an_error() {
    let r: Step<koochelib::app::services::auth::SigninStage> =
        koochelib::app::services::auth::session_reply(s("abc"), usize::MAX - 10, 900, "#SI-T");
    expect_error(r, 500, "#SI-T");
    let r: Step<koochelib::app::services::auth::SigninStage> =
        koochelib::app::services::auth::session_reply(s("abc"), 100, 600, "#SI-T");
    assert_eq!(expect_message(r, 200), JWT::new(s("abc"), 700).create_token().unwrap());
}

#[test]
fn what_follows_the_hash_of_a_password() {
    let data = signup_data();
    expect_error(signup_with_hash(&data, Err(())), 500, "#SU-P");
    match signup_with_hash(&data, Ok(s("HASH"))) {
        Step::Next(SignupStage::Confirming(u, _), Action::CacheGet(k)) => {
            assert_eq!((u.password.as_str(), u.phone_number.as_str(), u.full_name.as_str()), ("HASH", "0912", "Ali Rezaei"));
            assert_eq!(k, "0912");
            assert!(!u.is_verified);
        },
        _ => panic!("expected the account and its code"),
    }
    let sdata = seller_data("0012345679");
    expect_error(seller_signup_with_hash(&sdata, Err(())), 500, "#SSU-P");
    match seller_signup_with_hash(&sdata, Ok(s("HASH"))) {
        Step::Next(SellerSignupStage::Confirming(v, _), Action::CacheGet(_)) => {
            assert_eq!((v.password.as_str(), v.national_code.as_str()), ("HASH", "0012345679"));
        },
        _ => panic!("expected the seller and its code"),
    }
    let cdata = ChangePasswordDTO { phone_number: s("0912"), password: s("new") };
    expect_error(change_password_with_hash(&cdata, Err(())), 500, "#CP-P");
    match change_password_with_hash(&cdata, Ok(s("HASH"))) {
        Step::Next(ChangePasswordStage::UserUpdate(h), Action::Update(Collection::Users, Filter::Phone(p), Change::Password(h2))) => {
            assert_eq!((h.as_str(), p.as_str(), h2.as_str()), ("HASH", "0912", "HASH"));
        },
        _ => panic!("expected the update"),
    }
}
