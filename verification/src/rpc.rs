//! The request/response side of the node: where to reach it, how to
//! authenticate, and what to ask for.

use crate::text::{append_decimal, decimal_digits};
use vstd::prelude::*;

verus! {

/// `host:port`, the port in decimal notation.
pub open spec fn host_port(host: Seq<char>, port: u16) -> Seq<char> {
    host + seq![':'] + decimal_digits(port as nat)
}

/// Appends `:` and the port to `text`.
pub fn append_port(text: &mut String, port: u16)
    ensures
        final(text)@ == old(text)@ + seq![':'] + decimal_digits(port as nat),
{
    proof {
        reveal_strlit(":");
    }
    text.append(":");
    assert(text@ =~= old(text)@ + seq![':']);
    append_decimal(text, port);
}

/// How the client authenticates to the node.
#[derive(Clone, Debug, PartialEq, Eq)]
pub enum RpcAuth {
    /// A user name and a password.
    UserPass(String, String),
    /// The path of a cookie file that the client reads when it is created.
    CookieFile(String),
}

/// Where the request/response client connects, and as whom.
#[derive(Clone, Debug, PartialEq, Eq)]
pub struct RpcEndpoint {
    /// `host:port` of the node.
    pub url: String,
    /// The authentication material, passed on unread.
    pub auth: RpcAuth,
}

/// The endpoint of a node at `bitcoin` whose client authenticates with a
/// cookie file.
pub fn setup(bitcoin: String, rpc_port: u16, rpc_cookie_file: String) -> (endpoint: RpcEndpoint)
    ensures
        endpoint.url@ == host_port(bitcoin@, rpc_port),
        endpoint.auth == RpcAuth::CookieFile(rpc_cookie_file),
{
    let mut url = bitcoin;
    append_port(&mut url, rpc_port);
    RpcEndpoint { url, auth: RpcAuth::CookieFile(rpc_cookie_file) }
}

/// The endpoint of a node at `bitcoin` whose client authenticates with a
/// user name and a password.
pub fn rpc_setup(bitcoin: String, rpc_port: u16, rpc_user: String, rpc_pass: String) -> (endpoint:
    RpcEndpoint)
    ensures
        endpoint.url@ == host_port(bitcoin@, rpc_port),
        endpoint.auth == RpcAuth::UserPass(rpc_user, rpc_pass),
{
    let mut url = bitcoin;
    append_port(&mut url, rpc_port);
    RpcEndpoint { url, auth: RpcAuth::UserPass(rpc_user, rpc_pass) }
}

/// `bitcoincore_rpc_json::GetBlockTemplateModes`: what kind of answer a
/// template request asks for.
#[verifier::external_type_specification]
pub struct ExGetBlockTemplateModes(bitcoincore_rpc_json::GetBlockTemplateModes);

/// `bitcoincore_rpc_json::GetBlockTemplateRules`: a consensus rule that a
/// requested template must support.
#[verifier::external_type_specification]
pub struct ExGetBlockTemplateRules(bitcoincore_rpc_json::GetBlockTemplateRules);

/// The arguments of the one call a fetch attempt makes. No client-side
/// capability is ever announced.
#[derive(Clone, Copy, Debug, PartialEq, Eq)]
pub struct TemplateRequest {
    pub mode: bitcoincore_rpc_json::GetBlockTemplateModes,
    /// The rules the template must support, in the order they are sent.
    pub rules: [bitcoincore_rpc_json::GetBlockTemplateRules; 4],
}

/// The rules every request enables.
pub open spec fn block_template_rules() -> Seq<bitcoincore_rpc_json::GetBlockTemplateRules> {
    seq![
        bitcoincore_rpc_json::GetBlockTemplateRules::SegWit,
        bitcoincore_rpc_json::GetBlockTemplateRules::Signet,
        bitcoincore_rpc_json::GetBlockTemplateRules::Csv,
        bitcoincore_rpc_json::GetBlockTemplateRules::Taproot,
    ]
}

/// The request of every fetch attempt: a template that supports all four
/// rules. It depends on nothing, so every attempt asks the same.
pub fn template_request() -> (request: TemplateRequest)
    ensures
        request.mode == bitcoincore_rpc_json::GetBlockTemplateModes::Template,
        request.rules@ == block_template_rules(),
{
    let rules = [
        bitcoincore_rpc_json::GetBlockTemplateRules::SegWit,
        bitcoincore_rpc_json::GetBlockTemplateRules::Signet,
        bitcoincore_rpc_json::GetBlockTemplateRules::Csv,
        bitcoincore_rpc_json::GetBlockTemplateRules::Taproot,
    ];
    assert(rules@ =~= block_template_rules());
    TemplateRequest { mode: bitcoincore_rpc_json::GetBlockTemplateModes::Template, rules }
}

} // verus!
