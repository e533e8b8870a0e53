pub mod client;

pub use client::Client;
