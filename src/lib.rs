//! Payment processing core: signed order verification, the payment store,
//! the charge and 3-D Secure state machine, and the gateway request builder.

pub mod money;
pub mod models;
pub mod db;
pub mod signing;
pub mod worldpay;
pub mod keycloak;
pub mod charge;
pub mod laws;
pub mod oauth;
pub mod views;
