use vstd::prelude::*;
use crate::format::{CrasClientType, CrasSocketType, CrasStreamType};
use crate::session::{ClientView, CrasClient};

verus! {

/// The settings with which new sessions are opened and configured.
#[derive(Clone, Copy, Debug, PartialEq, Eq, Structural)]
pub struct CrasStreamSourceGenerator {
    pub capture: bool,
    pub client_type: CrasClientType,
    pub socket_type: CrasSocketType,
    pub stream_type: CrasStreamType,
}

impl CrasStreamSourceGenerator {
    /// Settings whose sessions use the default stream type.
    pub fn new(capture: bool, client_type: CrasClientType, socket_type: CrasSocketType) -> (r:
        CrasStreamSourceGenerator)
        ensures
            r == (CrasStreamSourceGenerator {
                capture,
                client_type,
                socket_type,
                stream_type: CrasStreamType::Default,
            }),
    {
        Self::with_stream_type(capture, client_type, socket_type, CrasStreamType::Default)
    }

    pub fn with_stream_type(
        capture: bool,
        client_type: CrasClientType,
        socket_type: CrasSocketType,
        stream_type: CrasStreamType,
    ) -> (r: CrasStreamSourceGenerator)
        ensures
            r == (CrasStreamSourceGenerator { capture, client_type, socket_type, stream_type }),
    {
        CrasStreamSourceGenerator { capture, client_type, socket_type, stream_type }
    }

    /// Applies these settings to a session that was just opened on
    /// `socket_type`.
    pub fn configure(&self, client: &mut CrasClient)
        ensures
            final(client)@ == (ClientView {
                cras_capture: old(client)@.cras_capture || self.capture,
                client_type: self.client_type,
                stream_type: self.stream_type,
                ..old(client)@
            }),
    {
        if self.capture {
            client.enable_cras_capture();
        }
        client.set_client_type(self.client_type);
        client.set_stream_type(self.stream_type);
    }
}

} // verus!
