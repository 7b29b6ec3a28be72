pub mod events;
pub mod fuel;
pub mod position;
pub mod vault;
pub mod vault_depositor;
pub mod vault_protocol;
pub mod withdraw_request;
pub mod withdraw_unit;

pub use events::{
    Events, FuelSeasonRecord, Record, Shares, VaultDepositorAction, VaultDepositorRecord,
    VaultDepositorV1Record,
};
pub use fuel::{FuelDistributionMode, FuelOverflow, UserStats};
pub use position::{Outcome, Position};
pub use vault::{Vault, VaultFee};
pub use vault_depositor::VaultDepositor;
pub use vault_protocol::VaultProtocol;
pub use withdraw_request::WithdrawRequest;
pub use withdraw_unit::WithdrawUnit;
