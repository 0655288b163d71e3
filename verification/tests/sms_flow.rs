use koochelib::app::services::flow::{Action, Outcome};
use koochelib::app::services::sms::{SMSAuthentication, SMSKind, SmsFlow, SmsStage, SmsStep};

fn start(kind: SMSKind) -> SmsFlow {
    let (f, a) = SMSAuthentication::verify_sms(&String::from("09120000000"), kind);
    match a {
        Action::CacheGet(k) => assert_eq!(k, "09120000000"),
        _ => panic!("expected a cache read"),
    }
    assert!(matches!(f.stage, SmsStage::Checking));
    f
}

fn next(s: SmsStep) -> (SmsFlow, Action) {
    match s {
        SmsStep::Next(f, a) => (f, a),
        SmsStep::Finished(_) => panic!("finished early"),
    }
}

fn finished(s: SmsStep) -> Result<(), String> {
    match s {
        SmsStep::Finished(r) => r,
        SmsStep::Next(..) => panic!("not finished"),
    }
}

#[test]
fn a_pending_code_is_not_resent() {
    let f = start(SMSKind::Signup);
    let r = finished(f.step(Outcome::Text(String::from("123456"))));
    assert_eq!(r, Err(String::from("کد به تازگی ارسال شده است")));
}

#[test]
fn the_stored_code_is_the_sent_code() {
    for kind in [SMSKind::Signup, SMSKind::SellerSignup, SMSKind::ForgotPassword, SMSKind::Signin] {
        let seller = kind == SMSKind::SellerSignup;
        let label = kind.to_string();
        let f = start(kind);
        // a failed read (no value) and the marker value both mean no code is pending
        let (f, a) = next(f.step(Outcome::Failed(String::from("nil"))));
        let code = match a {
            Action::CachePut { key, value, seconds } => {
                assert_eq!(key, "09120000000");
                assert_eq!(seconds, 120);
                value
            },
            _ => panic!("expected the code to be stored"),
        };
        let n: u32 = code.parse().unwrap();
        if seller {
            assert!((13256..65535).contains(&n));
        } else {
            assert!((132568..987984).contains(&n));
        }
        let (f, a) = next(f.step(Outcome::Done));
        match a {
            Action::SendSms { text, mobile } => {
                assert_eq!(mobile, "09120000000");
                assert_eq!(text, format!("{} \n کد تایید: {}", label, code));
            },
            _ => panic!("expected the message"),
        }
        assert_eq!(finished(f.step(Outcome::Done)), Ok(()));
    }
}

#[test]
fn the_marker_reads_as_no_code() {
    let f = start(SMSKind::Signup);
    let (_, a) = next(f.step(Outcome::Text(String::from("n115"))));
    assert!(matches!(a, Action::CachePut { .. }));
}

#[test]
fn storing_and_sending_failures() {
    let f = start(SMSKind::Signup);
    let (f, _) = next(f.step(Outcome::NotFound));
    assert_eq!(finished(f.step(Outcome::Failed(String::from("down")))), Err(String::from("چند دقیقه دیگر مجدد امتحان کنید")));
    let f = start(SMSKind::Signup);
    let (f, _) = next(f.step(Outcome::NotFound));
    let (f, _) = next(f.step(Outcome::Done));
    assert_eq!(finished(f.step(Outcome::Failed(String::from("gateway")))), Err(String::from("خطا در ارسال پیامک")));
}

#[test]
fn headings_of_the_kinds() {
    assert_eq!(SMSKind::Signup.to_string(), "ثبت نام");
    assert_eq!(SMSKind::SellerSignup.to_string(), " ثبت نام فروشنده");
    assert_eq!(SMSKind::ForgotPassword.to_string(), "تغییر رمز");
    assert_eq!(SMSKind::Signin.to_string(), "ورورد به حساب");
}

#[test]
fn a_code_whose_message_failed_stays_pending() {
    let f = start(SMSKind::Signup);
    let (f, a) = next(f.step(Outcome::Failed(String::from("nil"))));
    let stored = match a {
        Action::CachePut { value, seconds, .. } => {
            assert_eq!(seconds, 120);
            value
        },
        _ => panic!("expected the code to be stored"),
    };
    let (f, a) = next(f.step(Outcome::Done));
    assert!(matches!(a, Action::SendSms { .. }));
    assert_eq!(finished(f.step(Outcome::Failed(String::from("gateway down")))), Err(String::from("خطا در ارسال پیامک")));
    let again = start(SMSKind::Signup);
    assert_eq!(finished(again.step(Outcome::Text(stored))), Err(String::from("کد به تازگی ارسال شده است")));
}
