//! The methods that the server offers.

use vstd::prelude::*;

verus! {

/// API version.
pub const RPC_API_VERSION: u16 = 1;

/// The groups into which methods are divided.
#[derive(Clone, Copy, Debug, PartialEq, Eq, Hash, Structural)]
pub enum Namespaces {
    Node,
    Networking,
    Chain,
    Mining,
    Archival,
    Mempool,
    Wallet,
}

/// The methods that the server offers.
#[derive(Clone, Copy, Debug, PartialEq, Eq, Hash, Structural)]
pub enum RpcMethods {
    /// Belongs to the namespace [`Namespaces::Chain`].
    GetHeight,
}

/// Why a request failed.
#[derive(Clone, Copy, Debug, PartialEq, Eq, Structural)]
pub enum RpcError {
    /// The request is not a JSON-RPC request.
    ParseError,
    /// There is no such method.
    MethodNotFound,
    /// The parameters do not fit the method.
    InvalidParams,
    /// The result cannot be represented.
    InternalError,
}

impl RpcMethods {
    /// The group to which the method belongs.
    pub open spec fn spec_namespace(self) -> Namespaces {
        match self {
            RpcMethods::GetHeight => Namespaces::Chain,
        }
    }

    /// The name by which requests ask for the method.
    pub open spec fn spec_method_name(self) -> Seq<char> {
        match self {
            RpcMethods::GetHeight => "chain_getHeight"@,
        }
    }

    /// The group to which the method belongs.
    pub fn namespace(&self) -> (n: Namespaces)
        ensures
            n == self.spec_namespace(),
    {
        match self {
            RpcMethods::GetHeight => Namespaces::Chain,
        }
    }

    /// The name by which requests ask for the method.
    pub fn method_name(&self) -> (s: String)
        ensures
            s@ == self.spec_method_name(),
    {
        match self {
            RpcMethods::GetHeight => "chain_getHeight".to_owned(),
        }
    }

    /// The method that a request asks for.
    pub fn find(method: &String) -> (r: Result<RpcMethods, RpcError>)
        ensures
            match r {
                Ok(m) => method@ == m.spec_method_name(),
                Err(e) => e == RpcError::MethodNotFound && forall|m: RpcMethods|
                    method@ != m.spec_method_name(),
            },
    {
        let get_height = RpcMethods::GetHeight;
        if *method == get_height.method_name() {
            Ok(get_height)
        } else {
            assert forall|m: RpcMethods| method@ != m.spec_method_name() by {
                assert(m == get_height);
            }
            Err(RpcError::MethodNotFound)
        }
    }

    /// The parameters of a call, given what became of reading them.
    pub fn params<Q>(parsed: Option<Q>) -> (r: Result<Q, RpcError>)
        ensures
            r == match parsed {
                Some(params) => Ok::<Q, RpcError>(params),
                None => Err(RpcError::InvalidParams),
            },
    {
        match parsed {
            Some(params) => Ok(params),
            None => Err(RpcError::InvalidParams),
        }
    }

    /// The result of a call, given what became of writing it.
    pub fn result<V>(written: Option<V>) -> (r: Result<V, RpcError>)
        ensures
            r == match written {
                Some(value) => Ok::<V, RpcError>(value),
                None => Err(RpcError::InternalError),
            },
    {
        match written {
            Some(value) => Ok(value),
            None => Err(RpcError::InternalError),
        }
    }
}

/// Whoever asks for a method by its name gets that method: no other method has that name.
pub proof fn lemma_method_names_are_unambiguous(a: RpcMethods, b: RpcMethods)
    requires
        a.spec_method_name() == b.spec_method_name(),
    ensures
        a == b,
{
}

} // verus!
