use vstd::prelude::*;
use crate::codec::{decode_hex, hex_decoded, hex_decodes};
use crate::request::{str_param, JsonRpcRequest};
use crate::types::{MempoolStatus, MempoolStatusCode, RpcError, VmStatus};

verus! {

/// Reads `submit(payload)`: the hex of a serialized signed transaction, whose bytes
/// go to the admission pipeline. A payload that is not a hex string is a decode error.
pub fn get_submit_payload(request: &JsonRpcRequest) -> (r: Result<Vec<u8>, RpcError>)
    ensures
        str_param(*request, 0) is None ==> r == Err::<Vec<u8>, RpcError>(RpcError::DecodeError),
        str_param(*request, 0) is Some && !hex_decodes(str_param(*request, 0)->Some_0) ==> r
            == Err::<Vec<u8>, RpcError>(RpcError::DecodeError),
        str_param(*request, 0) is Some && hex_decodes(str_param(*request, 0)->Some_0) ==> r is Ok
            && r->Ok_0@ == hex_decoded(str_param(*request, 0)->Some_0),
{
    match request.str_param(0) {
        None => Err(RpcError::DecodeError),
        Some(s) => match decode_hex(s) {
            Some(bytes) => Ok(bytes),
            None => Err(RpcError::DecodeError),
        },
    }
}

/// What a submission ends in, given the admission pipeline's answer.
pub open spec fn submit_result(status: MempoolStatus, vm_status: Option<VmStatus>) -> Result<(), RpcError> {
    match vm_status {
        Some(s) => Err(RpcError::ExecutionStatusError { status: s }),
        None => if status.code == MempoolStatusCode::Accepted {
            Ok(())
        } else {
            Err(RpcError::AdmissionRejected { code: status.code, message: status.message })
        },
    }
}

/// Maps the admission pipeline's answer to the submission's result: an attached
/// execution status is an error; otherwise only `Accepted` succeeds.
pub fn submit_outcome(status: MempoolStatus, vm_status: Option<VmStatus>) -> (r: Result<(), RpcError>)
    ensures
        r == submit_result(status, vm_status),
{
    match vm_status {
        Some(s) => Err(RpcError::ExecutionStatusError { status: s }),
        None => match status.code {
            MempoolStatusCode::Accepted => Ok(()),
            _ => Err(RpcError::AdmissionRejected { code: status.code, message: status.message }),
        },
    }
}

} // verus!
