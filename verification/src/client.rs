//! The page's side: where the built artifact connects to, and which message
//! makes it reload.

use crate::pump::{reload_message, reload_text};
use crate::text::same_text;
use vstd::prelude::*;

verus! {

/// The scheme of the socket for a page that was loaded over `page_protocol`:
/// a page served securely connects securely.
pub open spec fn scheme_for(page_protocol: Seq<char>) -> Seq<char> {
    if page_protocol == "https:"@ {
        "wss"@
    } else {
        "ws"@
    }
}

/// The address of the socket: scheme, host and port, and the root path.
pub open spec fn socket_address(page_protocol: Seq<char>, hostname: Seq<char>, port: Seq<char>) -> Seq<
    char,
> {
    scheme_for(page_protocol) + "://"@ + hostname + ":"@ + port + "/"@
}

/// A listener that knows which port the service listens on.
#[derive(Debug)]
pub struct ReloadListener {
    port: String,
}

impl View for ReloadListener {
    type V = Seq<char>;

    closed spec fn view(&self) -> Seq<char> {
        self.port@
    }
}

/// Starts the listener if the artifact was built with a port to connect back
/// to. Without one there is nothing to listen to, and no listener.
pub fn start_reload_listener(port: Option<&str>) -> (listener: Option<ReloadListener>)
    ensures
        match port {
            Some(port) => listener matches Some(started) && started@ == port@,
            None => listener is None,
        },
{
    match port {
        Some(port) => Some(ReloadListener { port: String::from_str(port) }),
        None => None,
    }
}

/// What the listener reports when the page has no window to take the
/// location from.
pub fn missing_window_message() -> (message: &'static str)
    ensures
        message@ == "Could not access `window`"@,
{
    "Could not access `window`"
}

/// The scheme of the socket for a page that was loaded over `page_protocol`.
pub fn websocket_scheme(page_protocol: &str) -> (scheme: &'static str)
    ensures
        scheme@ == scheme_for(page_protocol@),
{
    if same_text(page_protocol, "https:") {
        "wss"
    } else {
        "ws"
    }
}

impl ReloadListener {
    /// The port that the listener connects to.
    pub fn port(&self) -> (port: &str)
        ensures
            port@ == self@,
    {
        self.port.as_str()
    }

    /// The address of the socket to open, for a page at `hostname` that was
    /// loaded over `page_protocol`.
    pub fn socket_url(&self, page_protocol: &str, hostname: &str) -> (url: String)
        ensures
            url@ == socket_address(page_protocol@, hostname@, self@),
    {
        let mut url: String = String::from_str(websocket_scheme(page_protocol));
        url.append("://");
        url.append(hostname);
        url.append(":");
        url.append(self.port.as_str());
        url.append("/");
        url
    }

    /// Whether a message from the service asks the page to reload: only the
    /// reload notification does.
    pub fn should_reload(&self, message: &str) -> (reload: bool)
        ensures
            reload == (message@ == reload_text()),
    {
        same_text(message, reload_message())
    }
}

} // verus!
