//! Every kind of cached item.
pub use super::color_role::RoleColor;
pub use super::color_role::RoleName;
pub use super::custom_role::CustomRole;
pub use super::impersonate::Impersonation;
pub use super::newsinchat::NewsInChat;
pub use super::user_settings::UserSettings;
