//! What clients send with their requests.
use vstd::prelude::*;

verus! {

pub struct SignupDTO {
    pub first_name: String,
    pub last_name: String,
    pub phone_number: String,
    pub password: String,
}

pub struct SigninDTO {
    pub phone_number: String,
    pub password: String,
}

/// What a verification code is submitted for.
#[derive(PartialEq, Eq, Structural)]
pub enum VerifyKind {
    ChangePassword,
    AccountVerification,
}

pub struct VerifyDTO {
    pub phone_number: String,
    pub code: String,
    pub kind: VerifyKind,
}

pub struct ForgotPasswordDTO {
    pub phone_number: String,
    pub password: String,
}

pub struct ChangePasswordDTO {
    pub phone_number: String,
    pub password: String,
}

#[derive(Debug)]
pub struct ChangePasswordParams {
    pub sid: String,
}

pub struct SellerSignupDTO {
    pub first_name: String,
    pub last_name: String,
    pub phone_number: String,
    pub password: String,
    pub national_code: String,
    pub national_card_image_sid: String,
    pub bank_card_number: u32,
}

pub struct AddProductDTO {
    pub title: String,
    pub description: String,
    pub price: u32,
    pub discount: Option<u32>,
    pub product_images: Option<Vec<String>>,
}

pub struct ProductParams {
    pub sid: String,
}

pub struct UpdateProductDTO {
    pub title: String,
    pub description: String,
    pub price: u32,
    pub discount: Option<u32>,
}

pub struct BuyProductDTO {
    pub address: String,
    pub postal_code: String,
}

pub struct GetProductByUserDTO {
    pub seller_sid: String,
}

pub struct ScheduleOrderDTO {
    pub arrive_at: String,
}

} // verus!
