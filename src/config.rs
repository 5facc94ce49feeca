//! The parameters that every tool takes on its command line.
use crate::address::{
    contract_id_bytes, hex32_bytes, is_contract_id_text, is_signing_key_text, ContractAddress,
    SigningKey,
};
use vstd::prelude::*;
use vstd::string::StringExecFns;

verus! {

/// Endpoint of the node used when none is given.
pub const DEFAULT_PROVIDER_URL: &'static str = "127.0.0.1:4000";

/// The resolved command-line parameters of a tool.
pub struct Args {
    /// Endpoint of the node.
    pub provider_url: String,
    /// Hexadecimal secret key of the signing wallet.
    pub signing_key: String,
    /// Identifier of the proxy contract.
    pub proxy_contract_id: String,
    /// Identifier of the target contract.
    pub target_contract_id: String,
}

/// A required parameter that was not given.
#[derive(Debug, Clone, Copy, PartialEq, Eq, Structural)]
pub enum MissingParameter {
    SigningKey,
    ProxyContractId,
    TargetContractId,
}

impl Args {
    /// Resolves the parameters as given, each `None` where it was left out:
    /// the provider endpoint falls back to `DEFAULT_PROVIDER_URL`; the first
    /// missing required parameter, in the order signing key, proxy identifier,
    /// target identifier, is reported.
    pub fn resolve(
        provider_url: Option<String>,
        signing_key: Option<String>,
        proxy_contract_id: Option<String>,
        target_contract_id: Option<String>,
    ) -> (r: Result<Args, MissingParameter>)
        ensures
            r is Ok <==> (signing_key is Some && proxy_contract_id is Some
                && target_contract_id is Some),
            signing_key is None ==> r == Err::<Args, _>(MissingParameter::SigningKey),
            signing_key is Some && proxy_contract_id is None ==> r == Err::<Args, _>(
                MissingParameter::ProxyContractId,
            ),
            signing_key is Some && proxy_contract_id is Some && target_contract_id is None ==> r
                == Err::<Args, _>(MissingParameter::TargetContractId),
            r matches Ok(a) ==> {
                &&& a.provider_url@ == (match provider_url {
                    Some(u) => u@,
                    None => DEFAULT_PROVIDER_URL@,
                })
                &&& a.signing_key@ == signing_key.unwrap()@
                &&& a.proxy_contract_id@ == proxy_contract_id.unwrap()@
                &&& a.target_contract_id@ == target_contract_id.unwrap()@
            },
    {
        let signing_key = match signing_key {
            Some(k) => k,
            None => return Err(MissingParameter::SigningKey),
        };
        let proxy_contract_id = match proxy_contract_id {
            Some(p) => p,
            None => return Err(MissingParameter::ProxyContractId),
        };
        let target_contract_id = match target_contract_id {
            Some(t) => t,
            None => return Err(MissingParameter::TargetContractId),
        };
        let provider_url = match provider_url {
            Some(u) => u,
            None => String::from_str(DEFAULT_PROVIDER_URL),
        };
        Ok(Args { provider_url, signing_key, proxy_contract_id, target_contract_id })
    }
}

/// What a tool needs before it connects: the endpoint, the signing key and
/// the two contract addresses, all decoded.
pub struct Setup {
    pub provider_url: String,
    pub signing_key: SigningKey,
    pub proxy: ContractAddress,
    pub target: ContractAddress,
}

/// A parameter that does not decode.
#[derive(Debug, Clone, Copy, PartialEq, Eq, Structural)]
pub enum SetupError {
    /// The signing key is not 64 hexadecimal digits naming a valid secret key.
    InvalidSigningKey,
    /// The proxy identifier is neither 64 hexadecimal digits nor a
    /// checksummed identifier.
    InvalidProxyContractId,
    /// The target identifier is neither 64 hexadecimal digits nor a
    /// checksummed identifier.
    InvalidTargetContractId,
}

impl Args {
    /// Decodes the signing key and both contract identifiers, in that order,
    /// reporting the first that does not decode.
    pub fn prepare(&self) -> (r: Result<Setup, SetupError>)
        ensures
            r is Ok <==> (is_signing_key_text(self.signing_key@) && is_contract_id_text(
                self.proxy_contract_id@,
            ) && is_contract_id_text(self.target_contract_id@)),
            !is_signing_key_text(self.signing_key@) ==> r == Err::<Setup, _>(
                SetupError::InvalidSigningKey,
            ),
            is_signing_key_text(self.signing_key@) && !is_contract_id_text(
                self.proxy_contract_id@,
            ) ==> r == Err::<Setup, _>(SetupError::InvalidProxyContractId),
            is_signing_key_text(self.signing_key@) && is_contract_id_text(self.proxy_contract_id@)
                && !is_contract_id_text(self.target_contract_id@) ==> r == Err::<Setup, _>(
                SetupError::InvalidTargetContractId,
            ),
            r matches Ok(s) ==> {
                &&& s.provider_url@ == self.provider_url@
                &&& s.signing_key.wf()
                &&& s.signing_key.bytes@ == hex32_bytes(self.signing_key@)
                &&& s.proxy.bytes@ == contract_id_bytes(self.proxy_contract_id@)
                &&& s.target.bytes@ == contract_id_bytes(self.target_contract_id@)
            },
    {
        let signing_key = match SigningKey::parse(self.signing_key.as_str()) {
            Some(k) => k,
            None => return Err(SetupError::InvalidSigningKey),
        };
        let proxy = match ContractAddress::parse(self.proxy_contract_id.as_str()) {
            Ok(a) => a,
            Err(_) => return Err(SetupError::InvalidProxyContractId),
        };
        let target = match ContractAddress::parse(self.target_contract_id.as_str()) {
            Ok(a) => a,
            Err(_) => return Err(SetupError::InvalidTargetContractId),
        };
        Ok(Setup { provider_url: self.provider_url.clone(), signing_key, proxy, target })
    }
}

} // verus!
