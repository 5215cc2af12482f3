//! Where the server listens: what the command line says, else what the
//! configuration file says, else the defaults.

use vstd::prelude::*;

verus! {

/// An IP address, as the number that its bytes make in network order.
#[derive(Debug, Clone, Copy, PartialEq, Eq, Structural)]
pub enum IpAddress {
    V4(u32),
    V6(u128),
}

/// Where the server listens.
#[derive(Debug, Clone, Copy, PartialEq, Eq, Structural)]
pub struct Config {
    pub ip: IpAddress,
    pub port: u16,
}

/// What the configuration file says.
#[derive(Debug, Clone, Copy, PartialEq, Eq, Structural)]
pub struct ConfigFile {
    pub ip: IpAddress,
    pub port: u16,
}

/// What the command line says.
#[derive(Debug, Clone, Copy, PartialEq, Eq, Structural)]
pub struct CliArgs {
    /// Network ip to use
    pub ip: Option<IpAddress>,
    /// Network port to use
    pub port: Option<u16>,
}

/// The address of every interface: `0.0.0.0`.
pub fn default_ip() -> (ip: IpAddress)
    ensures
        ip == IpAddress::V4(0),
{
    IpAddress::V4(0)
}

pub fn default_port() -> (port: u16)
    ensures
        port == 3600,
{
    3600
}

impl Default for ConfigFile {
    /// What an empty file says.
    fn default() -> (file: ConfigFile)
        ensures
            file == (ConfigFile { ip: IpAddress::V4(0), port: 3600 }),
    {
        ConfigFile { ip: default_ip(), port: default_port() }
    }
}

impl ConfigFile {
    /// What a file says that gives these fields: one that it leaves out has
    /// its default.
    pub fn new(ip: Option<IpAddress>, port: Option<u16>) -> (file: ConfigFile)
        ensures
            file.ip == match ip {
                Some(ip) => ip,
                None => IpAddress::V4(0),
            },
            file.port == match port {
                Some(port) => port,
                None => 3600u16,
            },
    {
        ConfigFile {
            ip: match ip {
                Some(ip) => ip,
                None => default_ip(),
            },
            port: match port {
                Some(port) => port,
                None => default_port(),
            },
        }
    }
}

/// What `Config::parse` gives.
pub open spec fn resolved(cli: CliArgs, file: Option<ConfigFile>) -> Config {
    let file = match file {
        Some(file) => file,
        None => ConfigFile { ip: IpAddress::V4(0), port: 3600 },
    };
    Config {
        ip: match cli.ip {
            Some(ip) => ip,
            None => file.ip,
        },
        port: match cli.port {
            Some(port) => port,
            None => file.port,
        },
    }
}

impl Config {
    /// Joins the command line and the configuration file. The command line
    /// wins, field by field. A file that could not be read counts as empty.
    pub fn parse(cli: CliArgs, file: Option<ConfigFile>) -> (config: Config)
        ensures
            config == resolved(cli, file),
    {
        let file = match file {
            Some(file) => file,
            None => ConfigFile::default(),
        };
        Config {
            ip: match cli.ip {
                Some(ip) => ip,
                None => file.ip,
            },
            port: match cli.port {
                Some(port) => port,
                None => file.port,
            },
        }
    }
}

} // verus!
