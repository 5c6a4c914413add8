use cln_extension::error::{extension_error_text, ClnExtensionError, Code, RpcError, Status};
use cln_extension::messages::PayInvoiceRequest;
use cln_extension::node::{NodeId, PayRequest, Response};
use cln_extension::service::{
    default_listen, ClnExtensionOpts, ClnRpcService, Configuration, Listen, ROUTE_HTLCS_CAPACITY,
};

const WRONG_RESPONSE: &str = "Gateway CLN Extension, CLN RPC Wrong Response";

const TRACE: &str = "\n\nStack backtrace:\n   0: main";

const UNREACHABLE: &str =
    "Gateway CLN Extension Error : Could not connect to CLN RPC socket: No such file";

fn unreachable_node() -> ClnExtensionError {
    ClnRpcService::rpc_client::<()>(Err("No such file".to_string()), "").unwrap_err()
}

fn rpc_error(code: Option<i32>, message: &str) -> RpcError {
    RpcError { code, message: message.to_string() }
}

fn started() -> Result<Option<Configuration>, String> {
    Ok(Some(Configuration {
        lightning_dir: "/lightning".to_string(),
        rpc_file: "lightning-rpc".to_string(),
    }))
}

#[test]
fn error_texts() {
    assert_eq!(
        ClnExtensionError::Error("it broke".to_string()).to_string(),
        "Gateway CLN Extension Error : it broke"
    );
    assert_eq!(extension_error_text(""), "Gateway CLN Extension Error : ");
    assert_eq!(ClnExtensionError::RpcWrongResponse.to_string(), WRONG_RESPONSE);
}

#[test]
fn rpc_error_texts() {
    assert_eq!(
        ClnExtensionError::RpcError(rpc_error(Some(-32602), "a \"b\"")).to_string(),
        "Gateway CLN Extension Error : RpcError { code: Some(-32602), message: \"a \\\"b\\\"\" }"
    );
    assert_eq!(
        ClnExtensionError::RpcError(rpc_error(None, "gone")).to_string(),
        "Gateway CLN Extension Error : RpcError { code: None, message: \"gone\" }"
    );
    assert_eq!(
        Status::of_rpc_error(&rpc_error(Some(-32602), "a \"b\"")).message,
        "Error code -32602: a \"b\""
    );
    assert_eq!(Status::of_rpc_error(&rpc_error(Some(205), "no route")).message, "Error code 205: no route");
    assert_eq!(Status::of_rpc_error(&rpc_error(None, "gone")).message, "Error: gone");
}

#[test]
fn rpc_error_converts() {
    match ClnExtensionError::from(rpc_error(Some(3), "no")) {
        ClnExtensionError::RpcError(err) => {
            assert_eq!(err.code, Some(3));
            assert_eq!(err.message, "no");
        }
        other => panic!("{other:?}"),
    }
}

#[test]
fn statuses_are_internal() {
    assert_eq!(Status::internal(String::new()).code, Code::Internal);
    let status = Status::of_extension_error(&ClnExtensionError::RpcWrongResponse);
    assert_eq!(status.code, Code::Internal);
    assert_eq!(status.message, WRONG_RESPONSE);
}

#[test]
fn service_listens_at_the_address_of_the_options() {
    let opts = Some(ClnExtensionOpts { listen: 8080u16 });
    let (service, listen) = ClnRpcService::new(started(), opts, Some("ignored".to_string()), "").unwrap();
    assert_eq!(service.lightning_dir, "/lightning");
    assert_eq!(service.rpc_file, "lightning-rpc");
    assert!(matches!(listen, Listen::Address(8080)));
}

#[test]
fn service_listens_at_the_plugin_option() {
    let option = Some("127.0.0.1:8176".to_string());
    match ClnRpcService::new::<u16>(started(), None, option, "").unwrap().1 {
        Listen::Parse(text) => assert_eq!(text, "127.0.0.1:8176"),
        _ => panic!("the option was given"),
    }
}

#[test]
fn service_needs_an_address() {
    assert_eq!(default_listen(), "default-dont-use");
    let missing = ClnRpcService::new::<u16>(started(), None, Some("default-dont-use".to_string()), "").unwrap();
    assert!(matches!(missing.1, Listen::Missing));
    let none = ClnRpcService::new::<u16>(started(), None, None, "").unwrap();
    assert!(matches!(none.1, Listen::Unreachable));
}

#[test]
fn plugin_that_does_not_start() {
    match ClnRpcService::new::<u16>(Ok(None), None, None, "") {
        Err(ClnExtensionError::Error(detail)) => assert_eq!(detail, "Failed to start cln plugin"),
        _ => panic!("there is no plugin"),
    }
    match ClnRpcService::new::<u16>(Err("bad handshake".to_string()), None, None, "") {
        Err(ClnExtensionError::Error(detail)) => assert_eq!(detail, "bad handshake"),
        _ => panic!("there is no plugin"),
    }
}

#[test]
fn backtraces_stand_behind_the_message() {
    let err = ClnRpcService::new::<u16>(Ok(None), None, None, TRACE).map(|_| ()).unwrap_err();
    assert_eq!(
        err.to_string(),
        format!("Gateway CLN Extension Error : Failed to start cln plugin{TRACE}")
    );
    // What an error shows is its message and what an error without a message shows.
    let shown = format!("{:?}", anyhow::Error::msg("it broke"));
    assert!(shown == "it broke" || shown.starts_with("it broke\n\nStack backtrace:"));
    let trace = format!("{:?}", anyhow::Error::msg(""));
    assert!(trace.is_empty() || trace.starts_with("\n\nStack backtrace:"));
}

#[test]
fn rpc_connection() {
    assert_eq!(ClnRpcService::rpc_client(Ok(5), TRACE).unwrap(), 5);
    for trace in ["", TRACE] {
        match ClnRpcService::rpc_client::<()>(Err("No such file".to_string()), trace) {
            Err(ClnExtensionError::Error(detail)) => {
                assert_eq!(detail, format!("Could not connect to CLN RPC socket: No such file{trace}"));
            }
            other => panic!("{other:?}"),
        }
    }
}

#[test]
fn node_identity() {
    let mut key = [3u8; 33];
    key[0] = 2;
    let info = ClnRpcService::info(Ok(Ok(Response::Getinfo { id: NodeId(key), alias: "alice".to_string() })));
    let response = ClnRpcService::get_node_info(info).unwrap();
    assert_eq!(response.pub_key, key.to_vec());
    assert_eq!(response.alias, "alice");
}

#[test]
fn node_identity_errors() {
    let wrong = ClnRpcService::info(Ok(Ok(Response::Other)));
    assert!(matches!(wrong, Err(ClnExtensionError::RpcWrongResponse)));
    assert_eq!(ClnRpcService::get_node_info(wrong).unwrap_err().message, WRONG_RESPONSE);
    let unreachable = ClnRpcService::info(Err(unreachable_node()));
    assert_eq!(ClnRpcService::get_node_info(unreachable).unwrap_err().message, UNREACHABLE);
    let failed = ClnRpcService::info(Ok(Err(rpc_error(Some(1), "busy"))));
    assert_eq!(
        ClnRpcService::get_node_info(failed).unwrap_err().message,
        "Gateway CLN Extension Error : RpcError { code: Some(1), message: \"busy\" }"
    );
}

#[test]
fn invoice_request() {
    let request = PayRequest::of_invoice(PayInvoiceRequest {
        invoice: "lnbc1".to_string(),
        max_delay: 144,
        max_fee_percent: 0.5f64,
    });
    assert_eq!(request.bolt11, "lnbc1");
    assert_eq!(request.maxfeepercent, Some(0.5));
    assert_eq!(request.maxdelay, Some(144));
    assert_eq!(request.amount_msat, None);
    assert_eq!(request.label, None);
    assert_eq!(request.riskfactor, None);
    assert_eq!(request.retry_for, None);
    assert_eq!(request.exemptfee, None);
    assert_eq!(request.localinvreqid, None);
    assert_eq!(request.exclude, None);
    assert_eq!(request.maxfee, None);
    assert_eq!(request.description, None);
}

#[test]
fn invoice_delay_is_cut_down() {
    for (max_delay, maxdelay) in [(65_535, 65_535), (65_536, 0), (65_540, 4), (u64::MAX, 65_535)] {
        let request = PayRequest::of_invoice(PayInvoiceRequest {
            invoice: String::new(),
            max_delay,
            max_fee_percent: (),
        });
        assert_eq!(request.maxdelay, Some(maxdelay));
    }
}

#[test]
fn invoice_payment() {
    let paid = ClnRpcService::pay_invoice(Ok(Ok(Response::Pay { payment_preimage: [9; 32] }))).unwrap();
    assert_eq!(paid.preimage, vec![9; 32]);
    let wrong = ClnRpcService::pay_invoice(Ok(Ok(Response::ListPeers(Vec::new())))).unwrap_err();
    assert_eq!(wrong.message, WRONG_RESPONSE);
    let failed = ClnRpcService::pay_invoice(Ok(Err(rpc_error(Some(210), "timeout")))).unwrap_err();
    assert_eq!(failed.message, "Error code 210: timeout");
    let unreachable = ClnRpcService::pay_invoice(Err(unreachable_node())).unwrap_err();
    assert_eq!(unreachable.message, UNREACHABLE);
}

#[test]
fn stream_capacity() {
    assert_eq!(ROUTE_HTLCS_CAPACITY, 100);
}
