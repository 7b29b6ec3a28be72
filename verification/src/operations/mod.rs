pub mod cancel_withdraw_request;
pub mod deposit;
pub mod liquidation;
pub mod realize_profits;
pub mod request_withdraw;
pub mod withdraw;
