use koochelib::app::utils::time::timestamp;
use koochelib::app::models::dto::{SigninDTO, SignupDTO};
use koochelib::app::services::auth::{signin, signin_step, signup_step, SignupStage};
use koochelib::app::services::flow::{Action, Body, Collection, Outcome, Record, Step};
use koochelib::app::models::user::User;

fn now() -> usize {
    timestamp()
}

fn s(x: &str) -> String {
    String::from(x)
}

/// Runs a sign-up whose lookups find nothing and whose code goes out, up to the stored account.
fn signed_up(password: &str) -> User {
    let data = SignupDTO { first_name: s("Ali"), last_name: s("Rezaei"), phone_number: s("0912"), password: s(password) };
    let mut stage = SignupStage::SellerLookup;
    let outcomes = vec![Outcome::NotFound, Outcome::NotFound, Outcome::NotFound, Outcome::Done, Outcome::Done];
    for o in outcomes {
        match signup_step(&data, stage, o) {
            Step::Next(next, Action::Insert(Collection::Users, Record::User(u))) => {
                assert!(matches!(next, SignupStage::Inserting));
                return u;
            },
            Step::Next(next, _) => stage = next,
            Step::Reply(r) => panic!("replied with status {}", r.status),
        }
    }
    panic!("the account was not stored")
}

fn answer(password: &str, stored: &User) -> (u16, String) {
    let data = SigninDTO { phone_number: s("0912"), password: s(password) };
    let (stage, _) = signin(&data);
    let account = User {
        sid: stored.sid.clone(),
        full_name: stored.full_name.clone(),
        phone_number: stored.phone_number.clone(),
        is_verified: true,
        password: stored.password.clone(),
        created_at: stored.created_at.clone(),
        updated_at: stored.updated_at.clone(),
        restriction: Default::default(),
        system_notifications: vec![],
        orders: vec![],
    };
    match signin_step(&data, stage, Outcome::Found(Record::User(account)), now()) {
        Step::Reply(r) => match r.body {
            Body::Message(m) => (r.status, m),
            Body::Error(e) => (r.status, e),
            _ => panic!("unexpected body"),
        },
        Step::Next(..) => panic!("expected a reply"),
    }
}

#[test]
fn a_signup_hash_checks_its_password_only() {
    let u = signed_up("s3cret");
    assert_ne!(u.password, "s3cret");
    assert!(u.password.starts_with("$2b$12$"));
    let (status, _) = answer("s3cret", &u);
    assert_eq!(status, 200);
    assert_eq!(answer("s3cre", &u), (400, s("password or phone number is incorrect")));
}

#[test]
fn a_malformed_hash_is_an_error() {
    let mut u = signed_up("x");
    u.password = s("not a hash");
    assert_eq!(answer("x", &u), (500, s("#SI-P")));
}
