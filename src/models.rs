use vstd::prelude::*;

verus! {

/// Port the node service listens on when a start request names none.
pub fn default_port() -> (r: u16)
    ensures
        r == 8080,
{
    8080
}

/// Request to start the node service.
#[derive(Debug, Clone, Copy, PartialEq, Eq)]
pub struct StartServiceRequest {
    pub port: u16,
}

/// Request to initialise a wallet from a faucet.
#[derive(Debug, Clone, PartialEq, Eq)]
pub struct InitWalletRequest {
    pub faucet_url: String,
}

/// Request to add owners to a chain.
#[derive(Debug, Clone, PartialEq, Eq)]
pub struct AddOwnerRequest {
    pub chain_id: String,
    pub public_keys: Vec<String>,
}

/// Envelope of every control-surface answer: the payload, or the error's text.
#[derive(Debug, Clone, PartialEq, Eq)]
pub struct ApiResponse<T> {
    pub success: bool,
    pub data: Option<T>,
    pub error: Option<String>,
}

impl<T> ApiResponse<T> {
    pub fn success(data: T) -> (r: Self)
        ensures
            r.success,
            r.data == Some(data),
            r.error is None,
    {
        ApiResponse { success: true, data: Some(data), error: None }
    }

    pub fn error(message: String) -> (r: Self)
        ensures
            !r.success,
            r.data is None,
            r.error == Some(message),
    {
        ApiResponse { success: false, data: None, error: Some(message) }
    }
}

/// What the supervisor knows of the service process.
#[derive(Debug, Clone, Copy, PartialEq, Eq)]
pub struct ServiceStatus {
    pub running: bool,
    pub pid: Option<u32>,
    pub port: Option<u16>,
}

/// Identity read from the wallet.
#[derive(Debug, Clone, PartialEq, Eq)]
pub struct WalletInfo {
    pub chain_id: String,
    pub public_key: String,
}

/// Outcome of a change of ownership.
#[derive(Debug, Clone, PartialEq, Eq)]
pub struct OwnerAddResult {
    pub success: bool,
    pub chain_id: String,
    pub owners: Vec<String>,
}

} // verus!
