//! The commands that a front end hands to the wallet, as plain data.

use vstd::prelude::*;

verus! {

/// The network that a wallet lives on.
#[derive(Clone, Copy, Debug, PartialEq, Eq)]
pub enum Network {
    Mainnet,
    Testnet,
    Regtest,
}

impl Default for Network {
    /// A wallet lives on the test network unless told otherwise.
    fn default() -> (r: Network)
        ensures
            r == Network::Testnet,
    {
        Network::Testnet
    }
}

impl Network {
    /// Whether keys of this network are written with the main network's version bytes.
    pub fn is_mainnet(&self) -> (r: bool)
        ensures
            r == (*self == Network::Mainnet),
    {
        match self {
            Network::Mainnet => true,
            Network::Testnet => false,
            Network::Regtest => false,
        }
    }
}

/// One invocation.
#[derive(Debug)]
pub struct Cli {
    /// Network
    pub network: Network,
    /// Electrum URL
    pub electrum_url: Option<String>,
    /// Writes to stderr instead of the default `debug.log`
    pub stderr: bool,
    /// The sub command
    pub command: CliCommand,
}

/// What an invocation is about.
#[derive(Debug)]
pub enum CliCommand {
    /// server only
    Server(ServerArgs),
    /// signer
    Signer(SignerArgs),
    /// wallet
    Wallet(WalletArgs),
}

/// A command for the signers.
#[derive(Debug)]
pub struct SignerArgs {
    pub command: SignerCommand,
}

/// What to do with the signers.
#[derive(Debug)]
pub enum SignerCommand {
    /// Make a new software signer.
    Generate,
    /// Make the software signer of a mnemonic and keep it under a name.
    Load { mnemonic: String, name: String },
    /// List the signers.
    List,
    /// Sign a transaction.
    Sign,
}

/// A command for the wallets.
#[derive(Debug)]
pub struct WalletArgs {
    pub command: WalletCommand,
}

/// What to do with a wallet. `name` is the wallet's name throughout.
#[derive(Debug)]
pub enum WalletCommand {
    Load { name: String, descriptor: String },
    Unload { name: String },
    Address { name: String, index: Option<u32> },
    Balance { name: String },
    Tx { name: String },
    List,
}

/// A command for the server.
#[derive(Debug)]
pub struct ServerArgs {
    pub command: ServerCommand,
}

/// What to do with the server.
#[derive(Debug)]
pub enum ServerCommand {
    Start,
    Stop,
}

} // verus!
