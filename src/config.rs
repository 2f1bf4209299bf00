use vstd::prelude::*;
use crate::error::{Error, ErrorKind};

verus! {

/// The base fee per unit of transaction weight that the wallet accepts.
pub const ACCEPT_FEE_BASE: u64 = 500000;

/// The port of the foreign listener.
pub const API_LISTEN_PORT: u16 = 3415;

/// The configuration that the caller hands over when opening a wallet.
#[derive(Clone, Debug)]
pub struct Config {
    pub wallet_dir: String,
    pub check_node_api_http_addr: String,
    pub chain: String,
    pub account: Option<String>,
}

/// The networks that a wallet can run on.
#[derive(Clone, Copy, Debug, PartialEq, Eq, Structural)]
pub enum ChainType {
    Mainnet,
    Testnet,
    UserTesting,
    AutomatedTesting,
}

/// The settings of a wallet, derived from its configuration.
#[derive(Clone, Debug)]
pub struct WalletSettings {
    pub accept_fee_base: u64,
    pub chain_type: ChainType,
    pub api_listen_port: u16,
    pub node_api_secret_path: Option<String>,
    pub check_node_api_http_addr: String,
    pub data_file_dir: String,
    pub dark_background_color_scheme: bool,
}

/// The network that a chain name selects; an unknown name selects the test
/// network.
pub open spec fn chain_type_spec(name: Seq<char>) -> ChainType {
    if name == "mainnet"@ {
        ChainType::Mainnet
    } else if name == "floonet"@ {
        ChainType::Testnet
    } else if name == "usertesting"@ {
        ChainType::UserTesting
    } else if name == "automatedtesting"@ {
        ChainType::AutomatedTesting
    } else {
        ChainType::Testnet
    }
}

/// The file that holds the node's API secret, inside the wallet directory.
pub open spec fn api_secret_path_spec(wallet_dir: Seq<char>) -> Seq<char> {
    wallet_dir + "/.api_secret"@
}

/// Whether two strings hold the same characters.
pub fn str_eq(a: &str, b: &str) -> (r: bool)
    ensures
        r == (a@ == b@),
{
    let n = a.unicode_len();
    if n != b.unicode_len() {
        return false;
    }
    let mut i: usize = 0;
    while i < n
        invariant
            n == a@.len(),
            n == b@.len(),
            i <= n,
            a@.subrange(0, i as int) == b@.subrange(0, i as int),
        decreases n - i,
    {
        if a.get_char(i) != b.get_char(i) {
            assert(a@[i as int] != b@[i as int]);
            return false;
        }
        assert(a@.subrange(0, i + 1) =~= a@.subrange(0, i as int).push(a@[i as int]));
        assert(b@.subrange(0, i + 1) =~= b@.subrange(0, i as int).push(b@[i as int]));
        i = i + 1;
    }
    assert(a@ =~= a@.subrange(0, n as int));
    assert(b@ =~= b@.subrange(0, n as int));
    true
}

/// The network that a chain name selects.
pub fn chain_type_from_name(name: &str) -> (r: ChainType)
    ensures
        r == chain_type_spec(name@),
{
    if str_eq(name, "mainnet") {
        ChainType::Mainnet
    } else if str_eq(name, "floonet") {
        ChainType::Testnet
    } else if str_eq(name, "usertesting") {
        ChainType::UserTesting
    } else if str_eq(name, "automatedtesting") {
        ChainType::AutomatedTesting
    } else {
        ChainType::Testnet
    }
}

/// The path of the node's API secret for a wallet directory.
pub fn api_secret_path(wallet_dir: &str) -> (r: String)
    ensures
        r@ == api_secret_path_spec(wallet_dir@),
{
    String::from_str(wallet_dir).concat("/.api_secret")
}

/// The wallet settings for a configuration; `secret_exists` tells whether the
/// node's API secret file is present, in which case its path is used.
pub fn create_wallet_config(config: Config, secret_exists: bool) -> (r: WalletSettings)
    ensures
        r.accept_fee_base == ACCEPT_FEE_BASE,
        r.chain_type == chain_type_spec(config.chain@),
        r.api_listen_port == API_LISTEN_PORT,
        r.node_api_secret_path.is_some() == secret_exists,
        secret_exists ==> r.node_api_secret_path.unwrap()@ == api_secret_path_spec(
            config.wallet_dir@,
        ),
        r.check_node_api_http_addr@ == config.check_node_api_http_addr@,
        r.data_file_dir@ == config.wallet_dir@,
        r.dark_background_color_scheme,
{
    let chain_type = chain_type_from_name(config.chain.as_str());
    let path = api_secret_path(config.wallet_dir.as_str());
    WalletSettings {
        accept_fee_base: ACCEPT_FEE_BASE,
        chain_type,
        api_listen_port: API_LISTEN_PORT,
        node_api_secret_path: if secret_exists {
            Some(path)
        } else {
            None
        },
        check_node_api_http_addr: config.check_node_api_http_addr,
        data_file_dir: config.wallet_dir,
        dark_background_color_scheme: true,
    }
}

/// What opening a wallet does once it is known whether the wallet exists.
#[derive(Debug)]
pub enum OpenPlan {
    /// Open the wallet and select this account.
    Open { account: String },
    /// Report the error without opening anything.
    Refuse(Error),
}

/// Decides how to open a wallet: `exists` is the answer of the store, `None`
/// where it could not tell. A wallet is opened only where it exists and an
/// account is named. A wallet that is not known to exist is reported as
/// missing; an existing one without an account cannot be opened.
pub fn open_plan(exists: Option<bool>, account: Option<String>) -> (r: OpenPlan)
    ensures
        match r {
            OpenPlan::Open { account: a } => exists == Some(true) && account.is_some()
                && a@ == account.unwrap()@,
            OpenPlan::Refuse(e) => !(exists == Some(true) && account.is_some()) && if exists
                == Some(true) {
                e.inner is WalletCannotBeOpened
            } else {
                e.inner is WalletDoesntExist
            },
        },
{
    match (exists, account) {
        (Some(true), Some(a)) => OpenPlan::Open { account: a },
        (Some(true), None) => {
            let m = String::from_str("no account was selected");
            OpenPlan::Refuse(Error::new(ErrorKind::WalletCannotBeOpened(m)))
        },
        _ => OpenPlan::Refuse(Error::new(ErrorKind::WalletDoesntExist)),
    }
}

/// The local SOCKS proxy through which onion addresses are reached.
pub const TOR_SOCKS_PROXY_ADDR: &'static str = "127.0.0.1:39059";

/// The port of that proxy, as the tor configuration file writes it.
pub const TOR_SOCKS_PORT: &'static str = "39059";

/// The directory of the tor configuration under the wallet's top directory.
pub fn tor_config_dir(top_level_dir: &str) -> (r: String)
    ensures
        r@ == top_level_dir@ + "/tor"@,
{
    String::from_str(top_level_dir).concat("/tor")
}

/// The data directory of tor inside its configuration directory, joined with
/// the platform's path separator.
pub fn tor_data_dir(tor_dir: &str, separator: &str) -> (r: String)
    ensures
        r@ == tor_dir@ + separator@ + "data"@,
{
    String::from_str(tor_dir).concat(separator).concat("data")
}

} // verus!
