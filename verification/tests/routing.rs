use protos::router::{
    dispatch, not_ready_message, route, str_eq, unimplemented_reply, Dispatch, ServerConfig,
    CODE_UNKNOWN,
};
use protos::message::ProtoMessage;
use protos::rpc::{CreateCartItem, GetUser, Rpc};
use protos::service::{methods, Method, METHOD_COUNT, SERVICE_NAME};

#[test]
fn path_of_create_cart_item() {
    assert_eq!(Method::CreateCartItem.path(), "/grpc_services.GRPCServices/CreateCartItem");
    assert_eq!(Method::CreateCartItem.name(), "CreateCartItem");
    assert_eq!(SERVICE_NAME, "grpc_services.GRPCServices");
}

#[test]
fn every_path_routes_back_to_its_method() {
    let all = methods();
    assert_eq!(all.len(), METHOD_COUNT);
    for m in all {
        assert_eq!(route(m.path()), Some(m));
        assert_eq!(m.path(), format!("/{}/{}", SERVICE_NAME, m.name()));
    }
}

#[test]
fn paths_are_distinct() {
    let all = methods();
    for (i, a) in all.iter().enumerate() {
        for b in &all[i + 1..] {
            assert_ne!(a.path(), b.path());
        }
    }
}

#[test]
fn payment_method_route() {
    assert_eq!(
        route("/grpc_services.GRPCServices/DeletePaymentMethod"),
        Some(Method::DeletePaymentMethod)
    );
    assert_eq!(route("/grpc_services.GRPCServices/GetUserRolesMapping"), Some(Method::GetUserRolesMapping));
}

#[test]
fn unknown_paths_are_not_routed() {
    assert_eq!(route("/grpc_services.GRPCServices/Nothing"), None);
    assert_eq!(route("/grpc_services.GRPCServices/createcartitem"), None);
    assert_eq!(route(""), None);
    assert_eq!(route("/other.Service/CreateCartItem"), None);
}

#[test]
fn unknown_path_is_answered_unimplemented() {
    match dispatch("/grpc_services.GRPCServices/Missing") {
        Dispatch::Reply(h) => {
            assert_eq!(h.http_status, 200);
            assert_eq!(h.grpc_status, "12");
            assert_eq!(h.content_type, "application/grpc");
        }
        Dispatch::Call(_) => panic!("routed an unknown path"),
    }
    let h = unimplemented_reply();
    assert_eq!(h.grpc_status, "12");
}

#[test]
fn known_path_is_called() {
    match dispatch("/grpc_services.GRPCServices/SearchProduct") {
        Dispatch::Call(m) => assert_eq!(m, Method::SearchProduct),
        Dispatch::Reply(_) => panic!("answered a known path"),
    }
}

#[test]
fn str_eq_compares_characters() {
    assert!(str_eq("abc", "abc"));
    assert!(!str_eq("abc", "abd"));
    assert!(!str_eq("abc", "ab"));
    assert!(str_eq("", ""));
    assert!(str_eq("é", "é"));
}

#[test]
fn not_ready_message_text() {
    assert_eq!(not_ready_message("connection refused"), "Service was not ready: connection refused");
    assert_eq!(CODE_UNKNOWN, 2);
}

#[test]
fn server_config_limits() {
    let c = ServerConfig::new();
    assert_eq!(c.max_decoding_message_size, None);
    let c = c.max_decoding_message_size(1024).max_encoding_message_size(2048);
    assert_eq!(c.max_decoding_message_size, Some(1024));
    assert_eq!(c.max_encoding_message_size, Some(2048));
    let c = c.max_decoding_message_size(1);
    assert_eq!(c.max_decoding_message_size, Some(1));
    assert_eq!(c.max_encoding_message_size, Some(2048));
}

#[test]
fn each_rpc_names_its_method_and_messages() {
    assert_eq!(<GetUser as Rpc>::method(), Method::GetUser);
    assert_eq!(<CreateCartItem as Rpc>::method(), Method::CreateCartItem);
    let req: <GetUser as Rpc>::Request = protos::messages::GetUserRequest { user_id: 7 };
    assert_eq!(req.encode_to_vec(), vec![0x08, 0x07]);
    let _resp: <GetUser as Rpc>::Response = protos::messages::UserResponse::default();
}
