//! Shared wire-level vocabulary: request plans handed to the transport,
//! cycle phases, fetch actions and the error taxonomy of a poll cycle.

use vstd::prelude::*;

verus! {

/// HTTP method of a planned request.  Only these two are ever issued.
#[derive(Clone, Copy, Debug, PartialEq, Eq, Structural)]
pub enum HttpMethod {
    Get,
    Post,
}

/// Tells the transport how the response body of a planned request should be
/// decoded before it is handed back to the driver.
#[derive(Clone, Copy, Debug, PartialEq, Eq, Structural)]
pub enum ParseHint {
    /// Only the response status and headers matter (cookie handshake).
    CookieHeader,
    /// A JSON array of fragment objects.
    FragmentList,
    /// A JSON envelope with a success flag and a result object.
    Envelope,
    /// A JSON envelope whose result is an array of port objects.
    SwitchList,
    /// A plain text document, streamed until a sentinel line is seen.
    Document,
}

/// Everything the transport needs to issue one request.
pub struct HttpRequestPlan {
    pub method: HttpMethod,
    pub path: String,
    pub headers: Vec<(String, String)>,
    pub body: Option<String>,
    pub hint: ParseHint,
}

/// Mathematical image of a request plan.
pub ghost struct PlanView {
    pub method: HttpMethod,
    pub path: Seq<char>,
    pub headers: Seq<(Seq<char>, Seq<char>)>,
    pub body: Option<Seq<char>>,
    pub hint: ParseHint,
}

impl View for HttpRequestPlan {
    type V = PlanView;

    open spec fn view(&self) -> PlanView {
        PlanView {
            method: self.method,
            path: self.path@,
            headers: self.headers@.map_values(|h: (String, String)| (h.0@, h.1@)),
            body: match self.body {
                Some(b) => Some(b@),
                None => None,
            },
            hint: self.hint,
        }
    }
}

/// Where a driver stands inside one poll cycle.
#[derive(Clone, Copy, Debug, PartialEq, Eq, Structural)]
pub enum CyclePhase {
    /// No cycle is running.
    Idle,
    /// The handshake sub-sequence is in progress.
    Authenticating,
    /// Data steps are in progress.
    Fetching,
    /// The cycle completed and its snapshot was published.
    Done,
    /// The cycle was aborted by an error; nothing was published.
    Failed,
}

/// What the driver asks the transport to do next.
#[derive(Clone, Copy, Debug, PartialEq, Eq, Structural)]
pub enum FetchAction {
    /// Build and send the next request.
    Http,
    /// The cycle is over; nothing more to send.
    Done,
}

/// A required handshake field that was absent, or a missing credential.
#[derive(Clone, Copy, Debug, PartialEq, Eq, Structural)]
pub enum AuthFailure {
    /// No credential is configured for the remote.
    MissingCredential,
    /// The challenge field was absent from the handshake response.
    MissingChallenge,
    /// The session token field was absent from the handshake response.
    MissingToken,
    /// No session cookie could be found in the handshake response.
    MissingCookie,
}

/// The six line-oriented assignments scraped from the inverter document.
#[derive(Clone, Copy, Debug, PartialEq, Eq, Structural)]
pub enum ScrapedField {
    SerialNumber,
    CurrentPower,
    YieldToday,
    TotalYield,
    RouterSsid,
    SignalQuality,
}

/// A malformed or rejected response body.
#[derive(Clone, Copy, Debug, PartialEq, Eq, Structural)]
pub enum DataFailure {
    /// The body could not be decoded at all.
    Malformed,
    /// The document ended before a required assignment was seen.
    MissingField(ScrapedField),
    /// The envelope carried an explicit failure flag.
    Rejected,
    /// A request was asked for although the chain is complete.
    NoPendingCall,
}

/// Why a poll cycle aborted.  A canceled transport is not an error: it ends
/// the cycle quietly and never appears here.
#[derive(Clone, Copy, Debug, PartialEq, Eq, Structural)]
pub enum FetchError {
    /// Network or connection level failure (other than cancellation).
    Transport,
    /// An HTTP status that is neither success nor the recognized
    /// authorization-failure status.
    Protocol(u16),
    /// A handshake field or credential was unavailable.
    Auth(AuthFailure),
    /// A malformed body or a required field absent after a full parse.
    Data(DataFailure),
}

} // verus!
