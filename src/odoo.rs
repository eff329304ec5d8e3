//! Data exchanged with the Odoo back office.
use vstd::prelude::*;

verus! {

/// What a successful Odoo login returns.
#[derive(Debug)]
pub struct OdooLoginResult {
    pub uid: i32,
    pub name: String,
    pub session_id: Option<String>,
    pub db: Option<String>,
    pub login: Option<String>,
    pub is_quanlytainguyen: Option<bool>,
}

/// The `params` envelope of an Odoo JSON-RPC request.
#[derive(Debug)]
pub struct OdooParams<T> {
    pub params: T,
}

} // verus!
