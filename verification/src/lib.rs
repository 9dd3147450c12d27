//! Client-side logic for a solar inverter monitoring portal.
//!
//! The library builds every request the portal understands, judges every
//! reply, and maps the portal's telemetry onto a small domain model
//! (user, site, inverter, battery). Sending a request and decoding a body are
//! left to the caller, who hands each outcome back as a [`Reply`].
pub mod number;
pub mod text;
pub mod error;
pub mod transport;
pub mod models;
pub mod digest;
pub mod clock;
pub mod battery;
pub mod inverter;
pub mod site;
pub mod user;
pub mod client;

pub use battery::Battery;
pub use client::{login, Client};
pub use error::Error;
pub use inverter::Inverter;
pub use models::LoginResponse;
pub use number::{Double, Single};
pub use site::Site;
pub use transport::{Pair, Reply, Request, BASE_URL};
pub use user::User;
