//! The configuration file: the tunnels that are brought online together.

use crate::error::{Failure, Fault, PunchError};
use crate::storage::{path_text, show_path};
use crate::text::concat2;
use std::path::PathBuf;
use vstd::prelude::*;
use vstd::string::*;

verus! {

/// A tunnel in the configuration file.
#[derive(Debug, Clone)]
pub struct PunchTunnelConfig {
    pub domain: String,
    pub port: u16,
    pub https: Option<bool>,
    pub env: Option<String>,
}

/// The configuration file.
#[derive(Debug, Clone)]
pub struct PunchConfig {
    pub tunnels: Vec<PunchTunnelConfig>,
}

impl Default for PunchConfig {
    /// No tunnel.
    fn default() -> (config: PunchConfig)
        ensures
            config.tunnels@ == Seq::<PunchTunnelConfig>::empty(),
    {
        PunchConfig { tunnels: Vec::new() }
    }
}

/// What came of reading a configuration file.
#[derive(Debug)]
pub enum ConfigRead {
    /// It could not be read.
    Unreadable(Vec<String>),
    /// It was read, and is no configuration file.
    Malformed(Vec<String>),
    /// It holds this.
    Parsed(PunchConfig),
}

impl PunchConfig {
    /// The configuration in the file at `path`, from what came of reading it.
    pub fn load(read: ConfigRead, path: &PathBuf) -> (config: Result<PunchConfig, PunchError>)
        ensures
            match read {
                ConfigRead::Unreadable(causes) => config matches Err(e) && e@ == (Failure {
                    kind: Fault::Outside("读取配置文件失败: "@ + path_text(*path)),
                    causes: causes.deep_view(),
                }),
                ConfigRead::Malformed(causes) => config matches Err(e) && e@ == (Failure {
                    kind: Fault::Outside("解析配置文件失败: "@ + path_text(*path)),
                    causes: causes.deep_view(),
                }),
                ConfigRead::Parsed(parsed) => config == Ok::<PunchConfig, PunchError>(parsed),
            },
    {
        match read {
            ConfigRead::Unreadable(causes) => {
                let work = concat2("读取配置文件失败: ", show_path(path).as_str());
                Err(PunchError::outside(work.as_str(), causes))
            },
            ConfigRead::Malformed(causes) => {
                let work = concat2("解析配置文件失败: ", show_path(path).as_str());
                Err(PunchError::outside(work.as_str(), causes))
            },
            ConfigRead::Parsed(config) => Ok(config),
        }
    }
}

} // verus!
