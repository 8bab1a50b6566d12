pub mod add_bot_tip;
mod cancel_dca_order;
mod create_dca_order;
mod modify_dca_order;
mod perform_dca_purchase;
mod receive;
mod update_config;
mod update_user_config;
mod withdraw;

pub use add_bot_tip::add_bot_tip;
pub use add_bot_tip::add_tips;
pub use add_bot_tip::spec_credit_walk;
pub use add_bot_tip::spec_tip_accepted;
pub use add_bot_tip::sum_coins_matching;
pub use cancel_dca_order::cancel_dca_order;
pub use create_dca_order::create_dca_order;
pub use create_dca_order::spec_create_accepted;
pub use create_dca_order::spec_created_order;
pub use create_dca_order::spec_deposit_funded;
pub use create_dca_order::spec_start_in_past;
pub use modify_dca_order::modify_dca_order;
pub use modify_dca_order::spec_modified_order;
pub use modify_dca_order::spec_modify_funded;
pub use modify_dca_order::spec_modify_refunds;
pub use perform_dca_purchase::perform_dca_purchase;
pub use receive::receive;
pub use perform_dca_purchase::spec_pick_tip;
pub use perform_dca_purchase::spec_purchase_accepted;
pub use perform_dca_purchase::spec_too_early;
pub use update_config::update_config;
pub use update_user_config::update_user_config;
pub use withdraw::spec_withdraw_walk;
pub use withdraw::withdraw;
