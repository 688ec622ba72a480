use block_template::rpc::setup;
use bitcoincore_rpc_json::{GetBlockTemplateModes, GetBlockTemplateRules};
use block_template::{rpc_setup, template_request, zmq_setup, RpcAuth, SubscribeRequest};

#[test]
fn subscription_endpoint_and_topic() {
    let subscription = zmq_setup(String::from("127.0.0.1"), 28332);
    assert_eq!(
        subscription,
        SubscribeRequest {
            endpoint: String::from("tcp://127.0.0.1:28332"),
            topic: String::from("hashblock"),
        }
    );
}

#[test]
fn subscription_topic_does_not_depend_on_the_node() {
    for (host, port) in [("localhost", 1u16), ("node.example", 65535), ("", 0)] {
        assert_eq!(zmq_setup(String::from(host), port).topic, "hashblock");
    }
}

#[test]
fn ports_are_written_in_decimal() {
    for port in [0u16, 1, 9, 10, 11, 99, 100, 101, 255, 999, 1000, 8332, 9999, 10000, 18443, 65535] {
        assert_eq!(zmq_setup(String::from("h"), port).endpoint, format!("tcp://h:{}", port));
        assert_eq!(rpc_setup(String::from("h"), port, String::new(), String::new()).url, format!("h:{}", port));
    }
}

#[test]
fn every_port_is_written_as_the_standard_library_writes_it() {
    for port in 0..=u16::MAX {
        assert_eq!(setup(String::from("::1"), port, String::new()).url, format!("::1:{}", port));
    }
}

#[test]
fn client_endpoint_with_user_and_password() {
    let endpoint =
        rpc_setup(String::from("10.0.0.2"), 8332, String::from("alice"), String::from("s3cret"));
    assert_eq!(endpoint.url, "10.0.0.2:8332");
    assert_eq!(endpoint.auth, RpcAuth::UserPass(String::from("alice"), String::from("s3cret")));
}

#[test]
fn client_endpoint_with_cookie_file() {
    let endpoint = setup(String::from("bitcoind"), 18443, String::from("/home/u/.bitcoin/.cookie"));
    assert_eq!(endpoint.url, "bitcoind:18443");
    assert_eq!(endpoint.auth, RpcAuth::CookieFile(String::from("/home/u/.bitcoin/.cookie")));
}

#[test]
fn host_is_taken_as_given() {
    let endpoint = setup(String::from("http://node.example/wallet"), 80, String::new());
    assert_eq!(endpoint.url, "http://node.example/wallet:80");
    let endpoint = setup(String::from("nœud"), 7, String::new());
    assert_eq!(endpoint.url, "nœud:7");
}

#[test]
fn request_enables_the_four_rules() {
    let request = template_request();
    assert_eq!(request.mode, GetBlockTemplateModes::Template);
    assert_eq!(
        request.rules,
        [
            GetBlockTemplateRules::SegWit,
            GetBlockTemplateRules::Signet,
            GetBlockTemplateRules::Csv,
            GetBlockTemplateRules::Taproot,
        ]
    );
    assert_eq!(request, template_request());
}
