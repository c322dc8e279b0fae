//! The wallet and the endpoint as the staking workflow sees them.

use alloy::primitives::Address;
use alloy::transports::http::reqwest::Url;
use std::str::FromStr;
use vstd::prelude::*;

verus! {

/// What `Address::from_str` makes of a text: the twenty bytes it reads, or
/// `None` where it refuses the text.
pub uninterp spec fn address_from_str(text: Seq<char>) -> Option<Seq<u8>>;

/// Whether `Url::parse` accepts a text as the address of an endpoint.
pub uninterp spec fn url_parse_accepts(text: Seq<char>) -> bool;

/// The address of an account.
#[derive(Clone, Copy, Debug)]
pub struct WalletAddress {
    pub bytes: [u8; 20],
}

/// What the wallet manager reports at the time of a call.
#[derive(Debug)]
pub struct WalletContext {
    /// Whether a wallet is connected at all.
    pub connected: bool,
    /// The address of the connected wallet, as text, where it has one.
    pub address: Option<String>,
    /// Whether the connected wallet can sign.
    pub signer_ready: bool,
}

/// Why an operation was refused before any network call.
#[derive(Clone, Copy, Debug, PartialEq, Eq, Structural)]
pub enum StakingError {
    WalletNotConnected,
    WalletNotInitialized,
    AddressUnavailable,
    InvalidAddress,
    InvalidAmount,
    InvalidRpcUrl,
    UnknownService,
}

impl StakingError {
    /// The text of the message for this error.
    pub open spec fn message_text(self) -> Seq<char> {
        match self {
            StakingError::WalletNotConnected => "Wallet not connected"@,
            StakingError::WalletNotInitialized => "Wallet not initialized"@,
            StakingError::AddressUnavailable => "Wallet address not available"@,
            StakingError::InvalidAddress => "Invalid address"@,
            StakingError::InvalidAmount => "Invalid amount"@,
            StakingError::InvalidRpcUrl => "Invalid RPC URL"@,
            StakingError::UnknownService => "Unknown service"@,
        }
    }

    /// The message shown to the user.
    pub fn message(&self) -> (r: String)
        ensures
            r@ == self.message_text(),
    {
        match self {
            StakingError::WalletNotConnected => "Wallet not connected".to_owned(),
            StakingError::WalletNotInitialized => "Wallet not initialized".to_owned(),
            StakingError::AddressUnavailable => "Wallet address not available".to_owned(),
            StakingError::InvalidAddress => "Invalid address".to_owned(),
            StakingError::InvalidAmount => "Invalid amount".to_owned(),
            StakingError::InvalidRpcUrl => "Invalid RPC URL".to_owned(),
            StakingError::UnknownService => "Unknown service".to_owned(),
        }
    }
}

/// `Address::from_str`, of the `alloy` crate. The result is whatever that
/// function makes of the text, named [`address_from_str`]: `None` where it
/// refuses the text, else the bytes it read.
#[verifier::external_body]
fn address_parse(text: &str) -> (r: Option<WalletAddress>)
    ensures
        r is Some <==> address_from_str(text@) is Some,
        r matches Some(a) ==> address_from_str(text@) == Some(a.bytes@),
{
    match Address::from_str(text) {
        Ok(a) => Some(WalletAddress { bytes: a.into_array() }),
        Err(_) => None,
    }
}

/// `Url::parse`, of the `url` crate as `alloy`'s HTTP transport hands it on,
/// tried on the text of an endpoint. The result says whether that function
/// accepts the text, which is named [`url_parse_accepts`].
#[verifier::external_body]
fn url_parse_ok(text: &str) -> (r: bool)
    ensures
        r == url_parse_accepts(text@),
{
    match Url::parse(text) {
        Ok(_) => true,
        Err(_) => false,
    }
}

/// Whether the text is the address of an endpoint, as the URL parser behind
/// [`url_parse_accepts`] decides.
pub fn endpoint_is_valid(rpc_url: &str) -> (r: bool)
    ensures
        r == url_parse_accepts(rpc_url@),
{
    url_parse_ok(rpc_url)
}

/// The account to read for, given what the address parser made of the
/// wallet's address text and whether the endpoint's address is valid. A
/// disconnected wallet has none, which is no error.
pub open spec fn query_address(
    wallet: WalletContext,
    parsed: Option<Seq<u8>>,
    endpoint_ok: bool,
) -> Result<Option<Seq<u8>>, StakingError> {
    if !wallet.connected {
        Ok(None)
    } else if wallet.address is None {
        Err(StakingError::AddressUnavailable)
    } else if parsed is None {
        Err(StakingError::InvalidAddress)
    } else if !endpoint_ok {
        Err(StakingError::InvalidRpcUrl)
    } else {
        Ok(parsed)
    }
}

/// What the address parser makes of the wallet's address text.
pub open spec fn parsed_wallet_address(wallet: WalletContext) -> Option<Seq<u8>> {
    match wallet.address {
        Some(text) => address_from_str(text@),
        None => None,
    }
}

/// The view of a resolved account: its bytes.
pub open spec fn address_bytes(r: Result<Option<WalletAddress>, StakingError>) -> Result<
    Option<Seq<u8>>,
    StakingError,
> {
    match r {
        Ok(Some(a)) => Ok(Some(a.bytes@)),
        Ok(None) => Ok(None),
        Err(e) => Err(e),
    }
}

/// Decides on the account to read for, from the wallet, from the parsed
/// form of its address text and from the validity of the endpoint's address.
pub fn select_query_address(
    wallet: &WalletContext,
    parsed: Option<WalletAddress>,
    endpoint_ok: bool,
) -> (r: Result<Option<WalletAddress>, StakingError>)
    ensures
        address_bytes(r) == query_address(
            *wallet,
            match parsed {
                Some(a) => Some(a.bytes@),
                None => None,
            },
            endpoint_ok,
        ),
{
    if !wallet.connected {
        Ok(None)
    } else if wallet.address.is_none() {
        Err(StakingError::AddressUnavailable)
    } else {
        match parsed {
            Some(a) => if endpoint_ok {
                Ok(Some(a))
            } else {
                Err(StakingError::InvalidRpcUrl)
            },
            None => Err(StakingError::InvalidAddress),
        }
    }
}

/// Resolves the account to read for, at the endpoint given. A disconnected
/// wallet gives `Ok(None)`. A connected wallet without an address, or with
/// one that the address parser refuses, gives the error; so does, after
/// that, an endpoint whose address the URL parser refuses.
pub fn resolve_query_address(wallet: &WalletContext, rpc_url: &str) -> (r: Result<
    Option<WalletAddress>,
    StakingError,
>)
    ensures
        address_bytes(r) == query_address(
            *wallet,
            parsed_wallet_address(*wallet),
            url_parse_accepts(rpc_url@),
        ),
{
    let parsed = match &wallet.address {
        Some(text) => address_parse(text.as_str()),
        None => None,
    };
    select_query_address(wallet, parsed, endpoint_is_valid(rpc_url))
}

}
