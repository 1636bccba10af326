use vstd::prelude::*;
use tokio::sync::oneshot::Sender;
use crate::port::{Address, PortSearch, base_url_of, DEFAULT_PORT};
use crate::release::{Catalog, ReleaseAsset, ResolveError, catalog_of, url_base, download_url_base};
use crate::server::Snapshot;

verus! {

/// tokio's `oneshot::Sender`, carried opaquely as the stop signal of a
/// running server.
#[verifier::external_type_specification]
#[verifier::external_body]
#[verifier::reject_recursive_types(T)]
pub struct ExSender<T>(tokio::sync::oneshot::Sender<T>);

/// Relies on tokio's `oneshot::Sender::send`: it consumes the sender and
/// delivers the unit value, or hands it back when the receiver is gone, which
/// is ignored here. It does not panic.
#[verifier::external_body]
fn fire(tx: Sender<()>) {
    let _ = tx.send(());
}

/// Where a handle stands in serving its release.
#[derive(Clone, Copy, Debug, PartialEq, Eq, Structural)]
pub enum ServeState {
    /// No server was started yet.
    Unbound,
    /// A server runs and can be told to stop.
    Serving,
    /// The server was told to stop; the handle does not serve again.
    Stopped,
}

/// Holds what it takes to serve the latest release of a private repository
/// through a local proxy.
pub struct PrivUpdater {
    server_addr: Address,
    catalog: Catalog,
    download_url_base: String,
    shutdown_signal: Option<Sender<()>>,
    stopped: bool,
}

impl PrivUpdater {
    /// The address the server binds, or tries next.
    pub closed spec fn spec_server_addr(&self) -> Address {
        self.server_addr
    }

    /// The release assets by file name.
    pub closed spec fn spec_catalog(&self) -> Map<Seq<char>, Seq<char>> {
        self.catalog@
    }

    /// The upstream prefix of the public download URLs.
    pub closed spec fn spec_download_url_base(&self) -> Seq<char> {
        self.download_url_base@
    }

    /// Where the handle stands.
    pub closed spec fn spec_state(&self) -> ServeState {
        if self.shutdown_signal is Some {
            ServeState::Serving
        } else if self.stopped {
            ServeState::Stopped
        } else {
            ServeState::Unbound
        }
    }

    /// Builds the handle from the assets of the latest release: the catalog
    /// of their names, and the download base of the first one. Fails when
    /// the release has no asset. Without an address, the server goes to the
    /// loopback address on the default port.
    pub fn new(assets: Vec<ReleaseAsset>, server_addr: Option<Address>) -> (r: Result<PrivUpdater, ResolveError>)
        ensures
            r is Err <==> assets@.len() == 0,
            r is Err ==> r->Err_0 == ResolveError::NoAssets,
            r matches Ok(u) ==> {
                &&& u.spec_catalog() == catalog_of(assets@)
                &&& u.spec_download_url_base() == url_base(assets@[0].browser_download_url@)
                &&& u.spec_state() == ServeState::Unbound
                &&& server_addr matches Some(a) ==> u.spec_server_addr() == a
                &&& server_addr is None ==> u.spec_server_addr().ip@ == seq![127u8, 0, 0, 1]
                    && u.spec_server_addr().port == DEFAULT_PORT
            },
    {
        if assets.len() == 0 {
            return Err(ResolveError::NoAssets);
        }
        let base = download_url_base(assets[0].browser_download_url.as_str());
        let addr = match server_addr {
            Some(a) => a,
            None => Address::local_default(),
        };
        Ok(PrivUpdater {
            server_addr: addr,
            catalog: Catalog::from_assets(assets),
            download_url_base: base,
            shutdown_signal: None,
            stopped: false,
        })
    }

    /// The snapshot that a server bound at the current address hands to
    /// each request.
    pub fn snapshot(&self) -> (r: Snapshot)
        ensures
            r.catalog@ == self.spec_catalog(),
            r.download_url_base@ == self.spec_download_url_base(),
            r.local_base_url@ == base_url_of(self.spec_server_addr()),
    {
        Snapshot {
            catalog: self.catalog.duplicate(),
            download_url_base: self.download_url_base.clone(),
            local_base_url: self.server_addr.base_url(),
        }
    }

    /// Records that binding the current address failed: moves to the port
    /// the search offers next and says so, or says that the search gave up,
    /// leaving the address as it was.
    pub fn after_bind_failure(&mut self, search: &mut PortSearch) -> (r: bool)
        ensures
            *final(search) == old(search).after_failure(),
            r == !final(search).gave_up(),
            r ==> final(self).spec_server_addr().port == final(search).port
                && final(self).spec_server_addr().ip == old(self).spec_server_addr().ip,
            !r ==> final(self).spec_server_addr() == old(self).spec_server_addr(),
            final(self).spec_state() == old(self).spec_state(),
            final(self).spec_catalog() == old(self).spec_catalog(),
            final(self).spec_download_url_base() == old(self).spec_download_url_base(),
    {
        match search.record_failure() {
            Some(port) => {
                self.server_addr.port = port;
                true
            },
            None => false,
        }
    }

    /// The address the server binds, or tries next.
    pub fn server_addr(&self) -> (r: Address)
        ensures
            r == self.spec_server_addr(),
    {
        self.server_addr
    }

    /// Where the handle stands.
    pub fn state(&self) -> (r: ServeState)
        ensures
            r == self.spec_state(),
    {
        if self.shutdown_signal.is_some() {
            ServeState::Serving
        } else if self.stopped {
            ServeState::Stopped
        } else {
            ServeState::Unbound
        }
    }

    /// Records that the server was started and keeps its stop signal. A
    /// handle that serves, or has stopped, refuses and hands the signal back.
    pub fn start_serving(&mut self, tx: Sender<()>) -> (r: Result<(), Sender<()>>)
        ensures
            r is Ok <==> old(self).spec_state() == ServeState::Unbound,
            final(self).spec_state() == (if r is Ok {
                ServeState::Serving
            } else {
                old(self).spec_state()
            }),
            final(self).spec_server_addr() == old(self).spec_server_addr(),
            final(self).spec_catalog() == old(self).spec_catalog(),
            final(self).spec_download_url_base() == old(self).spec_download_url_base(),
    {
        if self.shutdown_signal.is_some() || self.stopped {
            return Err(tx);
        }
        self.shutdown_signal = Some(tx);
        Ok(())
    }

    /// Stops the server, if one runs; otherwise does nothing.
    pub fn shutdown(&mut self)
        ensures
            final(self).spec_state() == after_shutdown(old(self).spec_state()),
            final(self).spec_server_addr() == old(self).spec_server_addr(),
            final(self).spec_catalog() == old(self).spec_catalog(),
            final(self).spec_download_url_base() == old(self).spec_download_url_base(),
    {
        if let Some(sender) = self.shutdown_signal.take() {
            fire(sender);
            self.stopped = true;
        }
    }
}

/// Where a handle stands after a shutdown: a running server stops, any
/// other state stays.
pub open spec fn after_shutdown(s: ServeState) -> ServeState {
    if s == ServeState::Serving {
        ServeState::Stopped
    } else {
        s
    }
}

/// A second shutdown changes nothing, and a shutdown of a handle that never
/// served leaves it as it was.
pub proof fn lemma_shutdown_idempotent(s: ServeState)
    ensures
        after_shutdown(after_shutdown(s)) == after_shutdown(s),
        s == ServeState::Unbound ==> after_shutdown(s) == s,
{
}

} // verus!
