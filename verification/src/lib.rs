pub mod text;
pub mod json;
pub mod names;
pub mod auth;
pub mod command_policy;
pub mod error;
pub mod models;
pub mod paths;
pub mod config;
pub mod backup_policy;
pub mod server_config;
pub mod frp;
pub mod saves;
pub mod save_manager;
pub mod mods;
pub mod telegram;
pub mod version;
pub mod rest_api;
pub mod tshock_rest;
pub mod item_catalog;
pub mod auto_backup;
pub mod process;
pub mod tshock_admin;
pub mod servers;
pub mod users;
pub mod ssc_config;
pub mod console;
