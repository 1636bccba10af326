//! A local reverse proxy that mirrors the latest release of a private,
//! token-gated repository so that an auto-update client can fetch the release
//! assets without holding the token.
//!
//! The decisions of the proxy live here, with their contracts: text rewriting
//! of the update manifest, the release catalog, request routing, the port
//! search and the shutdown handle. Network transport is left to the caller.

mod port;
mod release;
mod server;
mod text;
mod updater;

pub use port::{
    base_url_of, candidate, decimal, digit, lemma_port_search, next_port, searched, Address,
    PortSearch, DEFAULT_PORT, MAX_RETRIES, PORT_WINDOW,
};
pub use release::{
    catalog_of, download_url_base, header_char, header_value_ok, latest_release_url, url_base,
    Catalog, ReleaseAsset, ReleaseRequest, ResolveError,
};
pub use server::{manifest_name, Fetched, Reply, Route, Snapshot};
pub use text::{interleaved, lemma_replace_absent_is_identity, occurs_in, replace_all, replaced};
pub use updater::{after_shutdown, lemma_shutdown_idempotent, PrivUpdater, ServeState};
