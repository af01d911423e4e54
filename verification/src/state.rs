//! The long-lived state of the broker.

use vstd::prelude::*;
use crate::control_link::ControlLink;
use crate::manifest::{Manifest, ManifestEntryView};
use crate::transport::TransportType;

verus! {

/// What every request handler and the log drain share: the kind of
/// transport, the control link, and the manifest of loadable applications.
#[derive(Debug)]
pub struct DugongState<C> {
    transport_type: TransportType,
    trichechus_client: ControlLink<C>,
    supported_apps: Manifest,
}

impl<C> DugongState<C> {
    /// The kind of transport the broker was set up with.
    pub closed spec fn transport(&self) -> TransportType {
        self.transport_type
    }

    /// The slot of the control link.
    pub closed spec fn link(&self) -> ControlLink<C> {
        self.trichechus_client
    }

    /// The manifest in force.
    pub closed spec fn apps(&self) -> Map<Seq<char>, ManifestEntryView> {
        self.supported_apps@
    }

    /// A broker that owns `trichechus_client` and knows no application
    /// yet.
    pub fn new(trichechus_client: C, transport_type: TransportType) -> (state: DugongState<C>)
        ensures
            state.transport() == transport_type,
            state.link().client() == Some(trichechus_client),
            state.apps() == Map::<Seq<char>, ManifestEntryView>::empty(),
    {
        DugongState {
            transport_type,
            trichechus_client: ControlLink::new(trichechus_client),
            supported_apps: Manifest::new(),
        }
    }

    /// Puts `manifest` in force in place of the current one, as a whole.
    pub fn register_supported_apps(&mut self, manifest: Manifest)
        ensures
            final(self).apps() == manifest@,
            final(self).transport() == old(self).transport(),
            final(self).link() == old(self).link(),
    {
        self.supported_apps.replace(manifest);
    }

    /// The kind of transport the broker was set up with.
    pub fn transport_type(&self) -> (transport_type: &TransportType)
        ensures
            *transport_type == self.transport(),
    {
        &self.transport_type
    }

    /// The slot of the control link.
    pub fn trichechus_client(&self) -> (link: &ControlLink<C>)
        ensures
            *link == self.link(),
    {
        &self.trichechus_client
    }

    /// The manifest in force.
    pub fn supported_apps(&self) -> (manifest: &Manifest)
        ensures
            manifest@ == self.apps(),
    {
        &self.supported_apps
    }

    /// Takes the client of the control link for one exchange with the
    /// peer. Answers `None`, and changes nothing, while somebody else
    /// holds it.
    pub fn acquire_link(&mut self) -> (client: Option<C>)
        ensures
            client == old(self).link().client(),
            final(self).link().held(),
            final(self).transport() == old(self).transport(),
            final(self).apps() == old(self).apps(),
    {
        self.trichechus_client.acquire()
    }

    /// Puts the client of the control link back after an exchange. A slot
    /// that is not empty keeps what it has, and `client` is handed back.
    pub fn release_link(&mut self, client: C) -> (rejected: Option<C>)
        ensures
            old(self).link().held() ==> rejected is None && final(self).link().client() == Some(client),
            !old(self).link().held() ==> rejected == Some(client) && final(self).link().client() == old(
                self,
            ).link().client(),
            final(self).transport() == old(self).transport(),
            final(self).apps() == old(self).apps(),
    {
        self.trichechus_client.release(client)
    }
}

} // verus!
