//! Client library for [signet](https://github.com/bytepunx/signet).
//!
//! Two kinds of connection match the two listeners that signet exposes:
//!   - [`dial_workload`](workload::dial_workload) is for the workload-facing
//!     `SecretsService`, with SPIFFE mTLS.
//!   - [`dial_admin`](client::dial_admin) is for the operator-facing
//!     `AdminService` and `GitOpsService`, with a bearer token over TLS, or
//!     over plaintext to the local machine.
//!
//! [`watch_bundle`](watch::watch_bundle), [`acquire_lock`](lock::acquire_lock)
//! and [`wait_for_restart`](wait::wait_for_restart) are the protocol of
//! coordinated restarts: a service watches for changes of its own bundle and
//! serializes a fleet-wide restart with signet's restart lock.
//!
//! [`encrypt_for_secret`](sops_encrypt::encrypt_for_secret) makes the
//! SOPS-encrypted values that signet stores.
//!
//! The library decides and computes; it opens no connection and keeps no
//! timer. Where a protocol alternates between decisions and the network, it
//! is a state machine that takes events and gives actions.
pub mod address;
pub mod calendar;
pub mod client;
pub mod duration;
pub mod encoding;
pub mod lock;
pub mod recipient;
pub mod restart;
pub mod sops_encrypt;
pub mod text;
pub mod wait;
pub mod watch;
pub mod workload;
pub mod yaml;

pub use client::{dial_admin, ClientError, TokenInterceptor};
pub use lock::{acquire_lock, Lock};
pub use restart::RestartError;
pub use sops_encrypt::{encrypt_for_secret, SopsEncryptError};
pub use wait::wait_for_restart;
pub use watch::watch_bundle;
pub use workload::dial_workload;
