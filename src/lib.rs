//! Address access control for a JSON-RPC gateway: the rule lists, the
//! extraction of the parties of a call, the decoding of signed transactions,
//! and the decision whether a call may be forwarded to the node.
pub mod address;
pub mod envelope;
pub mod json;
pub mod list;
pub mod middleware;
pub mod whitelist;
