use vstd::prelude::*;
use crate::codec::{decode_hex, hex_decoded, hex_decodes};
use crate::types::{AccountAddress, LedgerInfo, RpcError, ADDRESS_LENGTH};

verus! {

/// An untyped request parameter, as the transport decoded it.
#[derive(Clone, Debug, PartialEq, Eq)]
pub enum Param {
    Null,
    Bool(bool),
    /// A number that is a non-negative integer within `u64`.
    UInt(u64),
    /// Any other number (negative, fractional or too large).
    OtherNumber,
    Str(String),
    /// An array or an object.
    Other,
}

/// A request: its positional parameters and the ledger snapshot it is pinned to.
#[derive(Clone, Debug)]
pub struct JsonRpcRequest {
    pub params: Vec<Param>,
    pub ledger_info: LedgerInfo,
}

/// The parameter at `index`, or `Null` past the end.
pub open spec fn param_at(req: JsonRpcRequest, index: int) -> Param {
    if 0 <= index < req.params@.len() {
        req.params@[index]
    } else {
        Param::Null
    }
}

/// The parameter at `index` read as an unsigned version or count.
pub open spec fn u64_param(req: JsonRpcRequest, index: int) -> Option<u64> {
    match param_at(req, index) {
        Param::UInt(n) => Some(n),
        _ => None,
    }
}

/// The parameter at `index` read as a flag.
pub open spec fn bool_param(req: JsonRpcRequest, index: int) -> Option<bool> {
    match param_at(req, index) {
        Param::Bool(b) => Some(b),
        _ => None,
    }
}

/// The parameter at `index` read as a string.
pub open spec fn str_param(req: JsonRpcRequest, index: int) -> Option<Seq<char>> {
    match param_at(req, index) {
        Param::Str(s) => Some(s@),
        _ => None,
    }
}

/// A string that names an account: hex for exactly `ADDRESS_LENGTH` bytes.
pub open spec fn is_address_text(s: Seq<char>) -> bool {
    hex_decodes(s) && hex_decoded(s).len() == ADDRESS_LENGTH
}

/// Reads the string parameter at `index` as an account address; anything but hex
/// for an address is a decode error.
pub open spec fn address_param(req: JsonRpcRequest, index: int) -> Result<Seq<u8>, RpcError> {
    match str_param(req, index) {
        None => Err(RpcError::DecodeError),
        Some(s) => if is_address_text(s) {
            Ok(hex_decoded(s))
        } else {
            Err(RpcError::DecodeError)
        },
    }
}

fn clone_param(p: &Param) -> (r: Param)
    ensures
        r == *p,
{
    match p {
        Param::Null => Param::Null,
        Param::Bool(b) => Param::Bool(*b),
        Param::UInt(n) => Param::UInt(*n),
        Param::OtherNumber => Param::OtherNumber,
        Param::Str(s) => Param::Str(s.clone()),
        Param::Other => Param::Other,
    }
}

impl JsonRpcRequest {
    /// Returns the parameter at `index`, or `Null` if `index` is out of bounds.
    pub fn get_param(&self, index: usize) -> (r: Param)
        ensures
            r == param_at(*self, index as int),
    {
        self.get_param_with_default(index, Param::Null)
    }

    /// Returns the parameter at `index`, or `default` if `index` is out of bounds.
    pub fn get_param_with_default(&self, index: usize, default: Param) -> (r: Param)
        ensures
            index < self.params@.len() ==> r == self.params@[index as int],
            index >= self.params@.len() ==> r == default,
    {
        if self.params.len() > index {
            return clone_param(&self.params[index]);
        }
        default
    }

    /// The effective version of the request: that of its ledger snapshot.
    pub fn version(&self) -> (r: u64)
        ensures
            r == self.ledger_info.version,
    {
        self.ledger_info.version
    }

    /// The parameter at `index` as an unsigned integer.
    pub fn u64_param(&self, index: usize) -> (r: Option<u64>)
        ensures
            r == u64_param(*self, index as int),
    {
        if index < self.params.len() {
            match &self.params[index] {
                Param::UInt(n) => Some(*n),
                _ => None,
            }
        } else {
            None
        }
    }

    /// The parameter at `index` as a flag.
    pub fn bool_param(&self, index: usize) -> (r: Option<bool>)
        ensures
            r == bool_param(*self, index as int),
    {
        if index < self.params.len() {
            match &self.params[index] {
                Param::Bool(b) => Some(*b),
                _ => None,
            }
        } else {
            None
        }
    }

    /// The parameter at `index` as a string.
    pub fn str_param(&self, index: usize) -> (r: Option<&String>)
        ensures
            r.is_some() == str_param(*self, index as int).is_some(),
            r.is_some() ==> r->Some_0@ == str_param(*self, index as int)->Some_0,
    {
        if index < self.params.len() {
            match &self.params[index] {
                Param::Str(s) => Some(s),
                _ => None,
            }
        } else {
            None
        }
    }

    /// The string parameter at `index` read as an account address.
    pub fn address_param(&self, index: usize) -> (r: Result<AccountAddress, RpcError>)
        ensures
            match address_param(*self, index as int) {
                Ok(b) => r is Ok && r->Ok_0.bytes@ == b,
                Err(e) => r == Err::<AccountAddress, RpcError>(e),
            },
    {
        match self.str_param(index) {
            None => Err(RpcError::DecodeError),
            Some(s) => match decode_hex(s) {
                Some(bytes) => if bytes.len() == ADDRESS_LENGTH {
                    Ok(AccountAddress { bytes })
                } else {
                    Err(RpcError::DecodeError)
                },
                None => Err(RpcError::DecodeError),
            },
        }
    }
}

} // verus!
