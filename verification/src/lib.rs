//! The core of the launcher that needs no window and no network: above all
//! the login with a Microsoft account. The crate keeps the staged credential
//! record of an account, resolves it to the deepest cached token that is
//! still valid, and decides, answer by answer, how a login attempt goes on:
//! forward, back to an earlier stage, or to its end. The exchanges with the
//! providers, the redirect of the browser and the secret store stay with the
//! caller, which runs the loop and hands each answer in.
//!
//! - [`time`], [`models`]: instants and the tokens that expire at them.
//! - [`credentials`]: the credential record and its resolver.
//! - [`errors`], [`exchange`]: how exchanges fail and how answers are classed.
//! - [`login`], [`run`]: the decisions of an attempt, and the course of a
//!   whole attempt with the bound on its length.
//! - [`pkce`], [`redirect`]: the authorization through the browser.
//! - [`secret`], [`import`], [`account`]: the secret store's failures, the
//!   accounts of other launchers, and the account to play with.
//! - [`instance`], [`instance_config`]: how instances are named and set up.

pub mod account;
pub mod credentials;
pub mod errors;
pub mod exchange;
pub mod import;
pub mod instance;
pub mod instance_config;
pub mod login;
pub mod models;
pub mod pkce;
pub mod redirect;
pub mod run;
pub mod secret;
pub mod time;
