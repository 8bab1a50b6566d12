//! A dollar-cost-averaging (DCA) order book: users deposit an asset and
//! register standing orders that repeatedly swap a fixed amount into a target
//! asset; third-party bots execute the purchases and are paid from a per-user
//! tip ledger.  This crate holds the verified order-lifecycle and
//! purchase-execution engine; the host-chain plumbing around it lives outside.

mod asset;
mod contract;
mod dca;
mod error;
mod handlers;
mod helpers;
mod laws;
mod msg;
mod queries;
mod response;
mod state;
mod user_config;

pub use asset::Asset;
pub use asset::AssetInfo;
pub use asset::Coin;
pub use contract::execute;
pub use contract::instantiate;
pub use contract::migrate;
pub use contract::query;
pub use dca::DcaInfo;
pub use dca::SwapOperation;
pub use dca::TipAssetInfo;
pub use error::ContractError;
pub use handlers::add_bot_tip;
pub use handlers::add_tips;
pub use handlers::cancel_dca_order;
pub use handlers::create_dca_order;
pub use handlers::modify_dca_order;
pub use handlers::perform_dca_purchase;
pub use handlers::receive;
pub use handlers::update_config;
pub use handlers::update_user_config;
pub use handlers::withdraw;
pub use helpers::asset_transfer;
pub use laws::lemma_absent_order_not_listed;
pub use laws::lemma_divisibility_invariant;
pub use laws::lemma_ids_unique_and_fresh;
pub use laws::lemma_tip_ledger_conservation;
pub use laws::spec_tip_step;
pub use laws::sum_ints;
pub use msg::AllowanceEntry;
pub use msg::ConfigResponse;
pub use msg::Cw20HookMsg;
pub use msg::Env;
pub use msg::ExecuteMsg;
pub use msg::Externals;
pub use msg::InstantiateMsg;
pub use msg::MessageInfo;
pub use msg::MigrateMsg;
pub use msg::QueryMsg;
pub use msg::QueryResponse;
pub use msg::UserDcaInfo;
pub use queries::get_all_dca_orders;
pub use queries::get_config;
pub use queries::get_dca_order;
pub use queries::get_dca_orders;
pub use queries::get_tips;
pub use queries::get_user_asset_dca_orders;
pub use queries::get_user_config;
pub use queries::get_user_dca_orders;
pub use queries::get_user_tips;
pub use response::AttrValue;
pub use response::Attribute;
pub use response::DcaEvent;
pub use response::EventKind;
pub use response::OutMsg;
pub use response::Response;
pub use state::Config;
pub use state::State;
pub use state::TipJar;
pub use state::UserConfigEntry;
pub use user_config::UserConfig;

