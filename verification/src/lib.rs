pub mod api;
pub mod app;
pub mod auth;
pub mod cli;
pub mod clock;
pub mod cloudflare;
pub mod cloudflared;
pub mod config;
pub mod doctor;
pub mod error;
pub mod launch;
pub mod metrics;
pub mod number;
pub mod output;
pub mod removal;
pub mod shell;
pub mod state;
pub mod storage;
pub mod style;
pub mod text;
pub mod tunnel_map;
pub mod types;

pub use app::run;
