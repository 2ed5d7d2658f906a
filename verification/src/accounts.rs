//! Account identification and account details.

use vstd::prelude::*;

verus! {

/// An account number, wrapping its textual form.
#[derive(Debug, PartialEq, Eq, PartialOrd, Ord, Hash)]
pub struct AccountNumber(pub String);

impl View for AccountNumber {
    type V = Seq<char>;

    open spec fn view(&self) -> Seq<char> {
        self.0@
    }
}

impl Clone for AccountNumber {
    fn clone(&self) -> (r: Self)
        ensures
            r@ == self@,
    {
        AccountNumber(self.0.clone())
    }
}

/// The details of one account, as the remote API reports them.
#[derive(Debug)]
pub struct AccountDetails {
    /// The account number.
    pub account_number: AccountNumber,
    /// An optional external identifier.
    pub external_id: Option<String>,
    /// When the account was opened.
    pub opened_at: String,
    /// The account's nickname.
    pub nickname: String,
    /// The name of the account's type.
    pub account_type_name: String,
    /// Whether the account is flagged as a day trader.
    pub day_trader_status: bool,
    /// Whether the account is in a firm error state.
    pub is_firm_error: bool,
    /// Whether the account is firm proprietary.
    pub is_firm_proprietary: bool,
    /// Whether the account is a test-drive account.
    pub is_test_drive: bool,
    /// Whether the account is margin or cash.
    pub margin_or_cash: String,
    /// Whether the account is foreign.
    pub is_foreign: bool,
    /// When the account was funded, if it was.
    pub funding_date: Option<String>,
}

/// One account together with the caller's authority over it.
#[derive(Debug)]
pub struct AccountInner {
    /// The account's details.
    pub account: AccountDetails,
    /// The caller's authority level on the account.
    pub authority_level: String,
}

} // verus!
