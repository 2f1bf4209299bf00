use vstd::prelude::*;

verus! {

/// The kinds of failure that the wallet bridge reports.
///
/// Errors that come from the ledger libraries are carried as their message.
#[derive(Clone, Debug)]
pub enum ErrorKind {
    /// The wallet backend failed.
    WalletError(String),
    /// Building a transaction failed.
    LibTX(String),
    /// The wallet library failed; the payload is its message.
    LibWallet(String),
    /// The keychain failed.
    Keychain(String),
    /// An onion address could not be derived or parsed.
    OnionV3Address(String),
    /// No wallet exists at the configured location, or no account was chosen.
    WalletDoesntExist,
    /// The wallet exists but cannot be opened (wrong password, corrupt data).
    WalletCannotBeOpened(String),
    /// The configuration document cannot be parsed.
    ConfigCannotBeParsed(String),
    /// The eligible outputs do not cover the amount and its fee.
    InsufficientFunds,
    /// The node or the incoming slate is of an incompatible version.
    Incompatible(String),
    /// The node or the counterparty could not be reached.
    NetworkUnreachable(String),
    /// The transaction with this slate id is already confirmed.
    AlreadyConfirmed(String),
    /// The transaction is already cancelled.
    AlreadyCancelled,
    /// The text is not a slate id, or no transaction has it.
    InvalidSlateId(String),
    /// Reading or writing local files failed.
    IO,
    /// Producing JSON failed.
    Format,
    /// Any other failure, with its description.
    GenericError(String),
}

/// An error of the wallet bridge: a kind with its payload.
#[derive(Clone, Debug)]
pub struct Error {
    pub inner: ErrorKind,
}

/// The human readable text of an error kind.
pub open spec fn message_of(k: ErrorKind) -> Seq<char> {
    match k {
        ErrorKind::WalletError(_) => "Wallet Error"@,
        ErrorKind::LibTX(_) => "LibTx Error"@,
        ErrorKind::LibWallet(m) => "LibWallet Error: "@ + m@,
        ErrorKind::Keychain(_) => "Keychain error"@,
        ErrorKind::OnionV3Address(_) => "Onion V3 Address Error"@,
        ErrorKind::WalletDoesntExist => "Wallet doesn't exist"@,
        ErrorKind::WalletCannotBeOpened(m) => "Wallet can not be opened: "@ + m@,
        ErrorKind::ConfigCannotBeParsed(m) => "Config can not be parsed: "@ + m@,
        ErrorKind::InsufficientFunds => "Not enough funds"@,
        ErrorKind::Incompatible(m) => "Incompatible: "@ + m@,
        ErrorKind::NetworkUnreachable(m) => "Network unreachable: "@ + m@,
        ErrorKind::AlreadyConfirmed(id) => "Transaction with id "@ + id@
            + " is already confirmed. Not posting."@,
        ErrorKind::AlreadyCancelled => "Transaction is already cancelled"@,
        ErrorKind::InvalidSlateId(m) => "Invalid slate id: "@ + m@,
        ErrorKind::IO => "IO error"@,
        ErrorKind::Format => "Serde JSON error"@,
        ErrorKind::GenericError(m) => "Generic error: "@ + m@,
    }
}

/// The message of the error that a kind wraps, where it wraps one.
pub open spec fn cause_of(k: ErrorKind) -> Option<Seq<char>> {
    match k {
        ErrorKind::WalletError(m) => Some(m@),
        ErrorKind::LibTX(m) => Some(m@),
        ErrorKind::LibWallet(m) => Some(m@),
        ErrorKind::Keychain(m) => Some(m@),
        ErrorKind::OnionV3Address(m) => Some(m@),
        _ => None,
    }
}

fn joined(prefix: &str, m: &String) -> (r: String)
    ensures
        r@ == prefix@ + m@,
{
    let s = String::from_str(prefix);
    s.concat(m.as_str())
}

impl Error {
    /// An error of the given kind.
    pub fn new(kind: ErrorKind) -> (r: Error)
        ensures
            r.inner == kind,
    {
        Error { inner: kind }
    }

    /// The kind of this error.
    pub fn kind(&self) -> (r: &ErrorKind)
        ensures
            *r == self.inner,
    {
        &self.inner
    }

    /// The message of the library error that this error wraps, if any.
    pub fn cause(&self) -> (r: Option<&String>)
        ensures
            r.is_some() == cause_of(self.inner).is_some(),
            r.is_some() ==> Some(r.unwrap()@) == cause_of(self.inner),
    {
        match &self.inner {
            ErrorKind::WalletError(m) => Some(m),
            ErrorKind::LibTX(m) => Some(m),
            ErrorKind::LibWallet(m) => Some(m),
            ErrorKind::Keychain(m) => Some(m),
            ErrorKind::OnionV3Address(m) => Some(m),
            _ => None,
        }
    }

    /// The human readable text of this error.
    pub fn message(&self) -> (r: String)
        ensures
            r@ == message_of(self.inner),
    {
        match &self.inner {
            ErrorKind::WalletError(_) => String::from_str("Wallet Error"),
            ErrorKind::LibTX(_) => String::from_str("LibTx Error"),
            ErrorKind::LibWallet(m) => joined("LibWallet Error: ", m),
            ErrorKind::Keychain(_) => String::from_str("Keychain error"),
            ErrorKind::OnionV3Address(_) => String::from_str("Onion V3 Address Error"),
            ErrorKind::WalletDoesntExist => String::from_str("Wallet doesn't exist"),
            ErrorKind::WalletCannotBeOpened(m) => joined("Wallet can not be opened: ", m),
            ErrorKind::ConfigCannotBeParsed(m) => joined("Config can not be parsed: ", m),
            ErrorKind::InsufficientFunds => String::from_str("Not enough funds"),
            ErrorKind::Incompatible(m) => joined("Incompatible: ", m),
            ErrorKind::NetworkUnreachable(m) => joined("Network unreachable: ", m),
            ErrorKind::AlreadyConfirmed(id) => {
                let s = joined("Transaction with id ", id);
                s.concat(" is already confirmed. Not posting.")
            },
            ErrorKind::AlreadyCancelled => String::from_str("Transaction is already cancelled"),
            ErrorKind::InvalidSlateId(m) => joined("Invalid slate id: ", m),
            ErrorKind::IO => String::from_str("IO error"),
            ErrorKind::Format => String::from_str("Serde JSON error"),
            ErrorKind::GenericError(m) => joined("Generic error: ", m),
        }
    }
}

impl From<ErrorKind> for Error {
    fn from(kind: ErrorKind) -> (r: Error) {
        Error { inner: kind }
    }
}

impl vstd::std_specs::convert::FromSpecImpl<ErrorKind> for Error {
    open spec fn obeys_from_spec() -> bool {
        true
    }

    open spec fn from_spec(kind: ErrorKind) -> Error {
        Error { inner: kind }
    }
}

} // verus!
