//! The agent's command line: log in, bring a tunnel up, log out.

use vstd::prelude::*;

verus! {

/// What the agent was asked to do.
#[derive(Debug, Clone, PartialEq, Eq)]
pub enum Commands {
    Login(LoginArgs),
    Up(UpArgs),
    Logout,
}

/// Arguments of `login`: the client token and the server's address.
#[derive(Debug, Clone, PartialEq, Eq)]
pub struct LoginArgs {
    pub token: String,
    pub remote_path: String,
}

/// Arguments of `up`: the local port to expose and an optional address.
#[derive(Debug, Clone, PartialEq, Eq)]
pub struct UpArgs {
    pub local_port: u16,
    pub url: Option<String>,
}

/// The parsed command line.
#[derive(Debug, Clone, PartialEq, Eq)]
pub struct Cli {
    pub command: Commands,
}

} // verus!
