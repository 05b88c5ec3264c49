//! How requests are answered.

use vstd::prelude::*;

use crate::block::BlockHeader;
use crate::json_rpc::ops::RpcError;

verus! {

/// The port on which the server listens, on the local host only.
pub const RPC_SERVER_PORT: u16 = 3031;

/// The server. It answers from a state, which it shares with the rest of the node.
#[derive(Clone, Debug)]
pub struct RpcServer<S> {
    pub state: S,
}

/// A request without parameters for the height of the tip.
#[derive(Clone, Copy, Debug, PartialEq, Eq, Structural)]
pub struct GetHeightRequest {}

/// The height of the tip.
#[derive(Clone, Copy, Debug, PartialEq, Eq, Structural)]
pub struct GetHeightResponse {
    pub height: u64,
}

/// What is answered: the result or an error, and the identifier of the request, if it has one.
#[derive(Debug)]
pub struct RpcResponse<I, V> {
    pub id: Option<I>,
    pub outcome: Result<V, RpcError>,
}

impl<S> RpcServer<S> {
    /// A server that answers from the given state.
    pub fn new(state: S) -> (s: RpcServer<S>)
        ensures
            s.state == state,
    {
        RpcServer { state }
    }
}

/// The answer to a request for the height, given the header of the tip.
pub fn get_height_response(tip: &BlockHeader) -> (r: GetHeightResponse)
    ensures
        r.height == tip.height.value,
{
    GetHeightResponse { height: tip.height.value }
}

impl<I, V> RpcResponse<I, V> {
    /// The answer to a request that succeeded.
    pub fn success(id: Option<I>, result: V) -> (r: RpcResponse<I, V>)
        ensures
            r == (RpcResponse { id, outcome: Ok::<V, RpcError>(result) }),
    {
        RpcResponse { id, outcome: Ok(result) }
    }

    /// The answer to a request that failed.
    pub fn error(id: Option<I>, error: RpcError) -> (r: RpcResponse<I, V>)
        ensures
            r == (RpcResponse { id, outcome: Err::<V, RpcError>(error) }),
    {
        RpcResponse { id, outcome: Err(error) }
    }
}

/// A request that was read: its identifier, if it has one, and what came of the call.
#[derive(Debug)]
pub struct HandledRequest<I, V> {
    pub id: Option<I>,
    pub outcome: Result<V, RpcError>,
}

/// What is answered: the outcome of the call under the request's identifier, or a parse error
/// without an identifier if the request could not be read.
pub fn rpc_response<I, V>(handled: Option<HandledRequest<I, V>>) -> (r: RpcResponse<I, V>)
    ensures
        match handled {
            Some(request) => r.id == request.id && r.outcome == request.outcome,
            None => r.id is None && r.outcome == Err::<V, RpcError>(RpcError::ParseError),
        },
{
    match handled {
        Some(request) => match request.outcome {
            Ok(result) => RpcResponse::success(request.id, result),
            Err(error) => RpcResponse::error(request.id, error),
        },
        None => RpcResponse::error(None, RpcError::ParseError),
    }
}

} // verus!
