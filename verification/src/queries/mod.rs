mod get_all_dca_orders;
mod get_config;
mod get_dca_order;
mod get_dca_orders;
mod get_tips;
mod get_user_asset_dca_orders;
mod get_user_config;
mod get_user_dca_orders;
mod get_user_tips;

pub use get_all_dca_orders::get_all_dca_orders;
pub use get_all_dca_orders::spec_selected_desc;
pub use get_config::get_config;
pub use get_dca_order::get_dca_order;
pub use get_dca_orders::get_dca_orders;
pub use get_dca_orders::select_orders;
pub use get_dca_orders::spec_applied_limit;
pub use get_dca_orders::spec_order_selected;
pub use get_dca_orders::spec_selected_orders;
pub use get_tips::get_tips;
pub use get_user_asset_dca_orders::get_user_asset_dca_orders;
pub use get_user_config::get_user_config;
pub use get_user_dca_orders::get_user_dca_orders;
pub use get_user_dca_orders::spec_spendable;
pub use get_user_tips::get_user_tips;
