//! Request forms: the plain values the interface layer hands to the library's
//! operations.

use vstd::prelude::*;

verus! {

pub struct GetSingleAccountForm {
    pub account_id: String,
}

pub struct CreateAccountForm {
    pub status: String,
    pub account_type: String,
}

pub struct ActivateAccountForm {
    pub account_id: String,
}

pub struct UpdateAccountForm {
    pub account_id: String,
    pub status: String,
}

pub struct SoftDeleteAccountForm {
    pub account_id: String,
}

pub struct GetManyAccountsForm {
    pub page: i64,
}

pub struct GetAccountByStellarAddressForm {
    pub stellar_address: String,
}

pub struct EstablishTrustlineForm {
    pub account_id: String,
    pub asset_code: String,
    pub asset_issuer: String,
}

pub struct SendNativePaymentForm {
    pub sender_account_id: String,
    pub receiver_public_key: String,
    pub amount: u64,
}

pub struct SendNonNativePaymentForm {
    pub sender_account_id: String,
    pub receiver_public_key: String,
    pub asset_code: String,
    pub asset_issuer: String,
    pub amount: u64,
}

} // verus!
