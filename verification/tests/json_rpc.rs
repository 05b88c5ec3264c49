use neptune::block::BlockHeader;
use neptune::difficulty::{Difficulty, ProofOfWork};
use neptune::digest::Digest;
use neptune::height::BlockHeight;
use neptune::json_rpc::ops::{Namespaces, RpcError, RpcMethods, RPC_API_VERSION};
use neptune::json_rpc::router::{
    find_route, namespace_of, route, route_from_names, routes, MethodVariant, NamespaceError,
    VariantAttr,
};
use neptune::json_rpc::server::{
    get_height_response, rpc_response, HandledRequest, RpcResponse, RpcServer,
};
use neptune::timestamp::Timestamp;

fn variant(name: &str, namespace: &[&str]) -> MethodVariant {
    MethodVariant {
        name: name.to_string(),
        namespace: namespace.iter().map(|s| s.to_string()).collect(),
    }
}

fn header(height: u64) -> BlockHeader {
    BlockHeader {
        version: 0,
        height: BlockHeight::new(height),
        prev_block_digest: Digest::default(),
        timestamp: Timestamp::from_millis(0),
        nonce: Digest::default(),
        cumulative_proof_of_work: ProofOfWork::zero(),
        difficulty: Difficulty::from_u32(1),
        guesser_digest: Digest::default(),
    }
}

#[test]
fn test_height_is_correct() {
    let server = RpcServer::new(header(0));
    assert_eq!(0, get_height_response(&server.state).height);
    assert_eq!(17, get_height_response(&header(17)).height);
    assert_eq!(1, RPC_API_VERSION);
}

#[test]
fn methods_are_found_by_name() {
    assert_eq!(Ok(RpcMethods::GetHeight), RpcMethods::find(&"chain_getHeight".to_string()));
    for name in ["chain_getheight", "getHeight", "chain_getHeight ", ""] {
        assert_eq!(Err(RpcError::MethodNotFound), RpcMethods::find(&name.to_string()));
    }
    assert_eq!(Namespaces::Chain, RpcMethods::GetHeight.namespace());
}

#[test]
fn generated_names_are_those_of_the_methods() {
    let r = route(&variant("GetHeight", &["Namespaces", "Chain"]));
    assert_eq!(RpcMethods::GetHeight.method_name(), r.method_name);
    assert_eq!("GetHeightRequest", r.request_type);
    assert_eq!("GetHeightResponse", r.response_type);
    assert_eq!("get_height_call", r.call_fn);
    let r = route(&variant("BlockByDigest", &["ColdStorage"]));
    assert_eq!("cold_storage_blockByDigest", r.method_name);
    assert_eq!("block_by_digest_call", r.call_fn);
    let text = |s: &str| s.to_string();
    let r = route_from_names(&text("A"), &text("b"), &text("c"), &text("d"));
    assert_eq!("b_c", r.method_name);
    assert_eq!("ARequest", r.request_type);
    assert_eq!("AResponse", r.response_type);
    assert_eq!("d_call", r.call_fn);
}

#[test]
fn requests_take_the_first_route_of_their_name() {
    let routes = routes(&vec![
        variant("GetHeight", &["Node"]),
        variant("GetHeight", &["Chain"]),
        variant("getHeight", &["Other", "Chain"]),
    ]);
    assert_eq!(3, routes.len());
    assert_eq!(Some(1), find_route(&routes, &"chain_getHeight".to_string()));
    assert_eq!(Some(0), find_route(&routes, &"node_getHeight".to_string()));
    assert_eq!(None, find_route(&routes, &"wallet_getHeight".to_string()));
}

#[test]
fn parameters_and_results_can_fail() {
    assert_eq!(Ok(1), RpcMethods::params(Some(1)));
    assert_eq!(Err(RpcError::InvalidParams), RpcMethods::params::<u8>(None));
    assert_eq!(Ok(2), RpcMethods::result(Some(2)));
    assert_eq!(Err(RpcError::InternalError), RpcMethods::result::<u8>(None));
}

#[test]
fn responses_carry_the_identifier_of_the_request() {
    let unreadable: RpcResponse<u64, u64> = rpc_response(None);
    assert_eq!(None, unreadable.id);
    assert_eq!(Err(RpcError::ParseError), unreadable.outcome);
    let success = rpc_response(Some(HandledRequest { id: Some(5), outcome: Ok(3) }));
    assert_eq!(Some(5), success.id);
    assert_eq!(Ok(3), success.outcome);
    let failure: RpcResponse<u64, u64> =
        rpc_response(Some(HandledRequest { id: Some(6), outcome: Err(RpcError::MethodNotFound) }));
    assert_eq!(Some(6), failure.id);
    assert_eq!(Err(RpcError::MethodNotFound), failure.outcome);
}

#[test]
fn first_namespace_attribute_counts() {
    let attr = |name: &str, path: Option<&[&str]>| VariantAttr {
        name: name.to_string(),
        path: path.map(|p| p.iter().map(|s| s.to_string()).collect()),
    };
    let chain: &[&str] = &["Namespaces", "Chain"];
    let node: &[&str] = &["Node"];
    assert_eq!(
        Ok(vec!["Namespaces".to_string(), "Chain".to_string()]),
        namespace_of(&vec![
            attr("doc", None),
            attr("namespace", Some(chain)),
            attr("namespace", Some(node)),
        ])
    );
    assert_eq!(Err(NamespaceError::Missing), namespace_of(&vec![]));
    assert_eq!(Err(NamespaceError::Missing), namespace_of(&vec![attr("doc", Some(chain))]));
    assert_eq!(
        Err(NamespaceError::Missing),
        namespace_of(&vec![attr("namespace", None), attr("namespace", Some(node))])
    );
    assert_eq!(Err(NamespaceError::Invalid), namespace_of(&vec![attr("namespace", Some(&[]))]));
}
