//! Dynamic-tail profile: a router logged into by challenge/response.  The
//! handshake retrieves a challenge, exchanges an HMAC-derived proof for a
//! session token, and every data call carries that token in a header.  The
//! data chain has a fixed prefix ending in the switch-status discovery step,
//! whose response determines how many per-port calls follow, walked in
//! descending order.  Responses are JSON envelopes with an explicit success
//! flag: a false flag is a data-level failure that aborts the cycle without
//! publishing.

use vstd::prelude::*;

use crate::protocol::AuthFailure;
use crate::protocol::CyclePhase;
use crate::protocol::DataFailure;
use crate::protocol::FetchAction;
use crate::protocol::FetchError;
use crate::protocol::HttpMethod;
use crate::protocol::HttpRequestPlan;
use crate::protocol::ParseHint;
use crate::protocol::PlanView;
use crate::publisher::SnapshotPublisher;
use crate::sequencer::spec_freebox_call;
use crate::sequencer::spec_freebox_next;
use crate::sequencer::FreeboxFetchState;
use crate::session::hmac_sha1_of;
use crate::session::spec_hex;
use crate::session::AuthSession;
use crate::session::HandshakeStep;
use crate::table::opt_table_map;
use crate::table::spec_keyed_entry;
use crate::table::spec_u64_of;
use crate::table::AssocTable;
use crate::table::FieldTable;
use crate::table::FieldValue;
use crate::table::KeyedTable;
use crate::table::ValueView;
use crate::text::u64_to_dec;
use vstd::string::StrSliceExecFns;
use vstd::string::StringExecFns;
use vstd::utf8::encode_utf8;

verus! {

// ---------------------------------------------------------------------------
// The response envelope
// ---------------------------------------------------------------------------

/// The JSON envelope of this profile: an explicit success flag and a result
/// object of named values.
pub struct FreeboxApiResponse {
    pub success: bool,
    pub result: Option<FieldTable>,
}

#[verifier::ext_equal]
pub ghost struct FreeboxEnvelopeView {
    pub success: bool,
    pub result: Map<Seq<char>, ValueView>,
}

impl View for FreeboxApiResponse {
    type V = FreeboxEnvelopeView;

    open spec fn view(&self) -> FreeboxEnvelopeView {
        FreeboxEnvelopeView { success: self.success, result: opt_table_map(self.result) }
    }
}

/// The string stored under `key` in the envelope's result, if one is.
pub open spec fn spec_env_string(env: FreeboxEnvelopeView, key: Seq<char>) -> Option<Seq<char>> {
    if env.result.contains_key(key) && env.result[key] is Text {
        Some(env.result[key]->Text_0)
    } else {
        None
    }
}

/// The numeric reading stored under `key` in the envelope's result, if any.
pub open spec fn spec_env_u64(env: FreeboxEnvelopeView, key: Seq<char>) -> Option<u64> {
    if env.result.contains_key(key) {
        spec_u64_of(env.result[key])
    } else {
        None
    }
}

impl FreeboxApiResponse {
    pub open spec fn wf(&self) -> bool {
        self.result matches Some(t) ==> t.wf()
    }

    /// An empty, unsuccessful envelope.
    pub fn new() -> (r: FreeboxApiResponse)
        ensures
            r.wf(),
            !r@.success,
            r@.result == Map::<Seq<char>, ValueView>::empty(),
    {
        FreeboxApiResponse { success: false, result: None }
    }

    /// The string under `key` in the result object, if one is.
    pub fn get_string(&self, key: &str) -> (r: Option<String>)
        requires
            self.wf(),
        ensures
            match r {
                Some(s) => spec_env_string(self@, key@) == Some(s@),
                None => spec_env_string(self@, key@) is None,
            },
    {
        match &self.result {
            Some(t) => match t.get(key) {
                Some(FieldValue::Text(s)) => Some(s.clone()),
                _ => None,
            },
            None => None,
        }
    }

    /// The numeric reading under `key` in the result object, if any: a
    /// number as it stands, a string by its plain decimal digits.
    pub fn get_u64(&self, key: &str) -> (r: Option<u64>)
        requires
            self.wf(),
        ensures
            r == spec_env_u64(self@, key@),
    {
        match &self.result {
            Some(t) => match t.get(key) {
                Some(v) => crate::bbox::BBoxApiResponse::parse_u64(v),
                None => None,
            },
            None => None,
        }
    }
}

// ---------------------------------------------------------------------------
// The snapshot
// ---------------------------------------------------------------------------

/// The cumulative snapshot of one cycle: connection and system under
/// union-overwrite; the switch-status ports keyed by their identifier
/// field; the per-port statistics keyed by the port index of the call.
pub struct FreeboxSnapshot {
    connection: FieldTable,
    system: FieldTable,
    switch: KeyedTable,
    ports: KeyedTable,
}

#[verifier::ext_equal]
pub ghost struct FreeboxSnapView {
    pub connection: Map<Seq<char>, ValueView>,
    pub system: Map<Seq<char>, ValueView>,
    pub switch: Map<Seq<char>, Map<Seq<char>, ValueView>>,
    pub ports: Map<Seq<char>, Map<Seq<char>, ValueView>>,
}

impl View for FreeboxSnapshot {
    type V = FreeboxSnapView;

    closed spec fn view(&self) -> FreeboxSnapView {
        FreeboxSnapView {
            connection: self.connection@,
            system: self.system@,
            switch: self.switch@,
            ports: self.ports@,
        }
    }
}

pub open spec fn spec_empty_freebox_snap() -> FreeboxSnapView {
    FreeboxSnapView {
        connection: Map::empty(),
        system: Map::empty(),
        switch: Map::empty(),
        ports: Map::empty(),
    }
}

impl FreeboxSnapshot {
    pub closed spec fn wf(&self) -> bool {
        self.connection.wf() && self.system.wf() && self.switch.wf() && self.ports.wf()
    }

    /// An empty snapshot: no category holds anything yet.
    pub fn new() -> (r: FreeboxSnapshot)
        ensures
            r.wf(),
            r@ == spec_empty_freebox_snap(),
    {
        let r = FreeboxSnapshot {
            connection: AssocTable::new(),
            system: AssocTable::new(),
            switch: AssocTable::new(),
            ports: AssocTable::new(),
        };
        proof {
            assert(r@ =~= spec_empty_freebox_snap());
        }
        r
    }

    /// Hands the accumulated snapshot out, leaving this one empty.
    pub fn take(&mut self) -> (r: FreeboxSnapshot)
        requires
            old(self).wf(),
        ensures
            r == *old(self),
            final(self).wf(),
            final(self)@ == spec_empty_freebox_snap(),
    {
        let mut fresh = FreeboxSnapshot::new();
        core::mem::swap(self, &mut fresh);
        fresh
    }

    /// The connection category.
    pub fn connection(&self) -> (r: &FieldTable)
        ensures
            r@ == self@.connection,
            self.wf() ==> r.wf(),
    {
        &self.connection
    }

    /// The system category.
    pub fn system(&self) -> (r: &FieldTable)
        ensures
            r@ == self@.system,
            self.wf() ==> r.wf(),
    {
        &self.system
    }

    /// The switch-status category: one port object per identifier.
    pub fn switch(&self) -> (r: &KeyedTable)
        ensures
            r@ == self@.switch,
            self.wf() ==> r.wf(),
    {
        &self.switch
    }

    /// The per-port statistics, keyed by the port index of the call.
    pub fn ports(&self) -> (r: &KeyedTable)
        ensures
            r@ == self@.ports,
            self.wf() ==> r.wf(),
    {
        &self.ports
    }
}

/// The switch-status port objects merged one by one: each is stored under
/// its identifier field, and one without an identifier is dropped.
pub open spec fn spec_switch_merge(
    m: Map<Seq<char>, Map<Seq<char>, ValueView>>,
    list: Seq<Map<Seq<char>, ValueView>>,
) -> Map<Seq<char>, Map<Seq<char>, ValueView>>
    decreases list.len(),
{
    if list.len() == 0 {
        m
    } else {
        let m1 = match spec_keyed_entry(list.first()) {
            Some(e) => m.insert(e.0, e.1),
            None => m,
        };
        spec_switch_merge(m1, list.drop_first())
    }
}

/// One successful envelope applied to the snapshot at the given tag.
pub open spec fn spec_apply_env(
    snap: FreeboxSnapView,
    tag: FreeboxFetchState,
    m: Map<Seq<char>, ValueView>,
) -> FreeboxSnapView {
    match tag {
        FreeboxFetchState::Connection => FreeboxSnapView {
            connection: snap.connection.union_prefer_right(m),
            ..snap
        },
        FreeboxFetchState::System => FreeboxSnapView {
            system: snap.system.union_prefer_right(m),
            ..snap
        },
        FreeboxFetchState::SwitchPort(p) => FreeboxSnapView {
            ports: snap.ports.insert(crate::text::spec_dec_str(p as nat), m),
            ..snap
        },
        _ => snap,
    }
}

// ---------------------------------------------------------------------------
// The cycle driver
// ---------------------------------------------------------------------------

/// The decoded body of one response of this profile.
pub enum FreeboxBody {
    /// The body could not be decoded.
    Malformed,
    /// The usual envelope.
    Envelope(FreeboxApiResponse),
    /// The discovery step's envelope: its result is an array of port
    /// objects, each flattened to its named values.
    SwitchList(Vec<FieldTable>),
}

/// What the transport reports back for one request of this profile.
pub enum FreeboxResponse {
    /// The request was canceled at the transport level: a soft stop.
    Canceled,
    /// Any other transport-level failure.
    Failed,
    /// A response arrived.
    Status { code: u16, body: FreeboxBody },
}

pub ghost enum FreeboxBodyView {
    Malformed,
    Envelope(FreeboxEnvelopeView),
    SwitchList(Seq<Map<Seq<char>, ValueView>>),
}

pub ghost enum FreeboxResponseView {
    Canceled,
    Failed,
    Status { code: u16, body: FreeboxBodyView },
}

impl View for FreeboxBody {
    type V = FreeboxBodyView;

    open spec fn view(&self) -> FreeboxBodyView {
        match self {
            FreeboxBody::Malformed => FreeboxBodyView::Malformed,
            FreeboxBody::Envelope(env) => FreeboxBodyView::Envelope(env@),
            FreeboxBody::SwitchList(list) => FreeboxBodyView::SwitchList(
                list@.map_values(|t: FieldTable| t@),
            ),
        }
    }
}

impl View for FreeboxResponse {
    type V = FreeboxResponseView;

    open spec fn view(&self) -> FreeboxResponseView {
        match self {
            FreeboxResponse::Canceled => FreeboxResponseView::Canceled,
            FreeboxResponse::Failed => FreeboxResponseView::Failed,
            FreeboxResponse::Status { code, body } => FreeboxResponseView::Status {
                code: *code,
                body: body@,
            },
        }
    }
}

pub open spec fn spec_freebox_response_wf(r: FreeboxResponse) -> bool {
    match r {
        FreeboxResponse::Status { body: FreeboxBody::Envelope(env), .. } => env.wf(),
        FreeboxResponse::Status { body: FreeboxBody::SwitchList(list), .. } => forall|i: int|
            0 <= i < list@.len() ==> (#[trigger] list@[i]).wf(),
        _ => true,
    }
}

/// Everything one poll cycle of this profile knows.
#[verifier::ext_equal]
pub ghost struct FreeboxCycleView {
    pub app_id: Option<Seq<char>>,
    pub secret: Option<Seq<char>>,
    pub challenge: Option<Seq<char>>,
    pub token: Option<Seq<char>>,
    pub tag: FreeboxFetchState,
    pub ports_count: u8,
    pub snap: FreeboxSnapView,
    pub phase: CyclePhase,
    pub published: Option<FreeboxSnapView>,
}

/// One response digested: the next cycle state and what to do.
pub open spec fn spec_freebox_step(s: FreeboxCycleView, r: FreeboxResponseView) -> (
    FreeboxCycleView,
    Result<FetchAction, FetchError>,
) {
    match r {
        FreeboxResponseView::Canceled => (
            FreeboxCycleView { phase: CyclePhase::Idle, ..s },
            Ok(FetchAction::Done),
        ),
        FreeboxResponseView::Failed => (
            FreeboxCycleView { phase: CyclePhase::Failed, ..s },
            Err(FetchError::Transport),
        ),
        FreeboxResponseView::Status { code, body } => {
            if code == 401 {
                (
                    FreeboxCycleView {
                        challenge: None,
                        token: None,
                        phase: CyclePhase::Authenticating,
                        ..s
                    },
                    Ok(FetchAction::Http),
                )
            } else if code != 200 {
                (
                    FreeboxCycleView { phase: CyclePhase::Failed, ..s },
                    Err(FetchError::Protocol(code)),
                )
            } else if s.phase is Authenticating {
                if s.challenge is None {
                    match body {
                        FreeboxBodyView::Envelope(env) => match spec_env_string(
                            env,
                            "challenge"@,
                        ) {
                            Some(c) => (
                                FreeboxCycleView { challenge: Some(c), ..s },
                                Ok(FetchAction::Http),
                            ),
                            None => (
                                FreeboxCycleView { phase: CyclePhase::Failed, ..s },
                                Err(FetchError::Auth(AuthFailure::MissingChallenge)),
                            ),
                        },
                        _ => (
                            FreeboxCycleView { phase: CyclePhase::Failed, ..s },
                            Err(FetchError::Data(DataFailure::Malformed)),
                        ),
                    }
                } else {
                    match body {
                        FreeboxBodyView::Envelope(env) => match spec_env_string(
                            env,
                            "session_token"@,
                        ) {
                            Some(t) => (
                                FreeboxCycleView {
                                    token: Some(t),
                                    phase: CyclePhase::Fetching,
                                    ..s
                                },
                                Ok(FetchAction::Http),
                            ),
                            None => (
                                FreeboxCycleView { phase: CyclePhase::Failed, ..s },
                                Err(FetchError::Auth(AuthFailure::MissingToken)),
                            ),
                        },
                        _ => (
                            FreeboxCycleView { phase: CyclePhase::Failed, ..s },
                            Err(FetchError::Data(DataFailure::Malformed)),
                        ),
                    }
                }
            } else if s.tag is SwitchStatus {
                match body {
                    FreeboxBodyView::SwitchList(list) => {
                        let count: u8 = if list.len() > 255 {
                            255
                        } else {
                            list.len() as u8
                        };
                        let snap1 = FreeboxSnapView {
                            switch: spec_switch_merge(s.snap.switch, list),
                            ..s.snap
                        };
                        let tag1 = spec_freebox_next(s.tag, count);
                        if tag1 is End {
                            (
                                FreeboxCycleView {
                                    snap: spec_empty_freebox_snap(),
                                    tag: tag1,
                                    ports_count: count,
                                    phase: CyclePhase::Done,
                                    published: Some(snap1),
                                    ..s
                                },
                                Ok(FetchAction::Done),
                            )
                        } else {
                            (
                                FreeboxCycleView { snap: snap1, tag: tag1, ports_count: count, ..s },
                                Ok(FetchAction::Http),
                            )
                        }
                    },
                    _ => (
                        FreeboxCycleView { phase: CyclePhase::Failed, ..s },
                        Err(FetchError::Data(DataFailure::Malformed)),
                    ),
                }
            } else {
                match body {
                    FreeboxBodyView::Envelope(env) => {
                        if !env.success {
                            (
                                FreeboxCycleView { phase: CyclePhase::Failed, ..s },
                                Err(FetchError::Data(DataFailure::Rejected)),
                            )
                        } else {
                            let snap1 = spec_apply_env(s.snap, s.tag, env.result);
                            let tag1 = spec_freebox_next(s.tag, s.ports_count);
                            if tag1 is End {
                                (
                                    FreeboxCycleView {
                                        snap: spec_empty_freebox_snap(),
                                        tag: tag1,
                                        phase: CyclePhase::Done,
                                        published: Some(snap1),
                                        ..s
                                    },
                                    Ok(FetchAction::Done),
                                )
                            } else {
                                (
                                    FreeboxCycleView { snap: snap1, tag: tag1, ..s },
                                    Ok(FetchAction::Http),
                                )
                            }
                        }
                    },
                    _ => (
                        FreeboxCycleView { phase: CyclePhase::Failed, ..s },
                        Err(FetchError::Data(DataFailure::Malformed)),
                    ),
                }
            }
        },
    }
}

/// The session-exchange body: the configured application id and the proof
/// derived from challenge and secret.
pub open spec fn spec_exchange_body(app: Seq<char>, proof_hex: Seq<char>) -> Seq<char> {
    "{\"app_id\":\""@ + app + "\",\"password\":\""@ + proof_hex + "\"}"@
}

/// The request to build for the current cycle state: the two handshake
/// calls while challenge or token are missing, else the data call of the
/// current tag.
pub open spec fn spec_freebox_plan(s: FreeboxCycleView) -> Result<PlanView, FetchError> {
    if s.challenge is None {
        Ok(
            PlanView {
                method: HttpMethod::Get,
                path: "/api/v4/login/"@,
                headers: seq![("Connection"@, "keep-alive"@), ("Accept"@, "application/json"@)],
                body: None,
                hint: ParseHint::Envelope,
            },
        )
    } else if s.token is None {
        if s.app_id is Some && s.secret is Some {
            let proof_hex = spec_hex(
                hmac_sha1_of(encode_utf8(s.secret->0), encode_utf8(s.challenge->0)),
            );
            let body = spec_exchange_body(s.app_id->0, proof_hex);
            Ok(
                PlanView {
                    method: HttpMethod::Post,
                    path: "/api/v4/login/session/"@,
                    headers: seq![
                        ("Connection"@, "keep-alive"@),
                        ("Accept"@, "application/json"@),
                        ("Content-Type"@, "application/json"@),
                        (
                            "Content-Length"@,
                            crate::text::spec_dec_str((encode_utf8(body).len() as usize) as nat),
                        ),
                    ],
                    body: Some(body),
                    hint: ParseHint::Envelope,
                },
            )
        } else {
            Err(FetchError::Auth(AuthFailure::MissingCredential))
        }
    } else {
        match spec_freebox_call(s.tag) {
            Some(c) => Ok(
                PlanView {
                    method: c.0,
                    path: c.1,
                    headers: seq![
                        ("Connection"@, "keep-alive"@),
                        ("Accept"@, "application/json"@),
                        ("X-Fbx-App-Auth"@, s.token->0),
                    ],
                    body: None,
                    hint: if s.tag is SwitchStatus {
                        ParseHint::SwitchList
                    } else {
                        ParseHint::Envelope
                    },
                },
            ),
            None => Err(FetchError::Data(DataFailure::NoPendingCall)),
        }
    }
}

/// Driver for the dynamic-tail profile.
pub struct FreeboxCycle {
    app_id: Option<String>,
    secret: Option<String>,
    session: AuthSession,
    state: FreeboxFetchState,
    number_ports: u8,
    snapshot: FreeboxSnapshot,
    phase: CyclePhase,
    publisher: SnapshotPublisher<FreeboxSnapshot>,
}

impl FreeboxCycle {
    pub closed spec fn view(&self) -> FreeboxCycleView {
        FreeboxCycleView {
            app_id: match self.app_id {
                Some(a) => Some(a@),
                None => None,
            },
            secret: match self.secret {
                Some(s) => Some(s@),
                None => None,
            },
            challenge: self.session.spec_challenge(),
            token: self.session.spec_token(),
            tag: self.state,
            ports_count: self.number_ports,
            snap: self.snapshot@,
            phase: self.phase,
            published: match self.publisher.spec_latest() {
                Some(s) => Some(s@),
                None => None,
            },
        }
    }

    pub closed spec fn wf(&self) -> bool {
        &&& self.session.spec_uses_challenge()
        &&& self.snapshot.wf()
        &&& (self.phase is Fetching ==> self.session.spec_authenticated())
        &&& (self.phase is Fetching || self.phase is Authenticating ==> !(self.state is End))
    }

    /// A fresh driver holding the configured credentials; no cycle runs
    /// yet.
    pub fn new(app_id: Option<String>, secret: Option<String>) -> (r: FreeboxCycle)
        ensures
            r.wf(),
            r.view().app_id == match app_id {
                Some(a) => Some(a@),
                None => None::<Seq<char>>,
            },
            r.view().secret == match secret {
                Some(s) => Some(s@),
                None => None::<Seq<char>>,
            },
            r.view().challenge is None,
            r.view().token is None,
            r.view().phase == CyclePhase::Idle,
            r.view().published is None,
    {
        FreeboxCycle {
            app_id,
            secret,
            session: AuthSession::new(true),
            state: FreeboxFetchState::End,
            number_ports: 0,
            snapshot: FreeboxSnapshot::new(),
            phase: CyclePhase::Idle,
            publisher: SnapshotPublisher::new(),
        }
    }

    /// Starts a cycle: resets the snapshot and the chain position, and goes
    /// to the handshake unless a session is already held.
    pub fn fetch(&mut self) -> (r: FetchAction)
        requires
            old(self).wf(),
        ensures
            final(self).wf(),
            final(self)@ == (FreeboxCycleView {
                tag: FreeboxFetchState::Connection,
                snap: spec_empty_freebox_snap(),
                phase: if old(self)@.challenge is Some && old(self)@.token is Some {
                    CyclePhase::Fetching
                } else {
                    CyclePhase::Authenticating
                },
                ..old(self)@
            }),
            r == FetchAction::Http,
    {
        self.state = FreeboxFetchState::Connection;
        let mut fresh = FreeboxSnapshot::new();
        core::mem::swap(&mut self.snapshot, &mut fresh);
        if self.session.needs_handshake_step().is_some() {
            self.phase = CyclePhase::Authenticating;
        } else {
            self.phase = CyclePhase::Fetching;
        }
        proof {
            assert(self@ =~= (FreeboxCycleView {
                tag: FreeboxFetchState::Connection,
                snap: spec_empty_freebox_snap(),
                phase: if old(self)@.challenge is Some && old(self)@.token is Some {
                    CyclePhase::Fetching
                } else {
                    CyclePhase::Authenticating
                },
                ..old(self)@
            }));
        }
        FetchAction::Http
    }

    /// Builds the next request from the cycle state.
    pub fn create_http_request(&self) -> (r: Result<HttpRequestPlan, FetchError>)
        requires
            self.wf(),
        ensures
            match r {
                Ok(p) => spec_freebox_plan(self@) == Ok::<PlanView, FetchError>(p@),
                Err(e) => spec_freebox_plan(self@) == Err::<PlanView, FetchError>(e),
            },
    {
        match self.session.needs_handshake_step() {
            Some(HandshakeStep::Challenge) => {
                let mut headers: Vec<(String, String)> = Vec::new();
                headers.push(("Connection".to_owned(), "keep-alive".to_owned()));
                headers.push(("Accept".to_owned(), "application/json".to_owned()));
                let plan = HttpRequestPlan {
                    method: HttpMethod::Get,
                    path: "/api/v4/login/".to_owned(),
                    headers,
                    body: None,
                    hint: ParseHint::Envelope,
                };
                proof {
                    assert(plan@.headers =~= spec_freebox_plan(self@)->Ok_0.headers);
                    assert(plan@ =~= spec_freebox_plan(self@)->Ok_0);
                }
                Ok(plan)
            },
            Some(HandshakeStep::Exchange) => {
                let app = match &self.app_id {
                    Some(a) => a,
                    None => {
                        return Err(FetchError::Auth(AuthFailure::MissingCredential));
                    },
                };
                let secret = match &self.secret {
                    Some(s) => s,
                    None => {
                        return Err(FetchError::Auth(AuthFailure::MissingCredential));
                    },
                };
                let proof_hex = match self.session.compute_session_proof(
                    secret.as_str().as_bytes(),
                ) {
                    Ok(p) => p,
                    Err(e) => {
                        return Err(e);
                    },
                };
                let mut body = "{\"app_id\":\"".to_owned();
                body.append(app.as_str());
                body.append("\",\"password\":\"");
                body.append(proof_hex.as_str());
                body.append("\"}");
                let content_length = u64_to_dec(body.as_str().len() as u64);
                let mut headers: Vec<(String, String)> = Vec::new();
                headers.push(("Connection".to_owned(), "keep-alive".to_owned()));
                headers.push(("Accept".to_owned(), "application/json".to_owned()));
                headers.push(("Content-Type".to_owned(), "application/json".to_owned()));
                headers.push(("Content-Length".to_owned(), content_length));
                let plan = HttpRequestPlan {
                    method: HttpMethod::Post,
                    path: "/api/v4/login/session/".to_owned(),
                    headers,
                    body: Some(body),
                    hint: ParseHint::Envelope,
                };
                proof {
                    assert(plan@.body->0 =~= spec_exchange_body(
                        self@.app_id->0,
                        spec_hex(
                            hmac_sha1_of(
                                encode_utf8(self@.secret->0),
                                encode_utf8(self@.challenge->0),
                            ),
                        ),
                    ));
                    assert(plan@.headers =~= spec_freebox_plan(self@)->Ok_0.headers);
                    assert(plan@ =~= spec_freebox_plan(self@)->Ok_0);
                }
                Ok(plan)
            },
            None => {
                let token = match self.session.token() {
                    Some(t) => t,
                    None => {
                        return Err(FetchError::Auth(AuthFailure::MissingCredential));
                    },
                };
                match self.state.call() {
                    Some((method, path)) => {
                        let hint = if self.state == FreeboxFetchState::SwitchStatus {
                            ParseHint::SwitchList
                        } else {
                            ParseHint::Envelope
                        };
                        let mut headers: Vec<(String, String)> = Vec::new();
                        headers.push(("Connection".to_owned(), "keep-alive".to_owned()));
                        headers.push(("Accept".to_owned(), "application/json".to_owned()));
                        headers.push(("X-Fbx-App-Auth".to_owned(), token.clone()));
                        let plan = HttpRequestPlan { method, path, headers, body: None, hint };
                        proof {
                            assert(plan@.headers =~= spec_freebox_plan(self@)->Ok_0.headers);
                            assert(plan@ =~= spec_freebox_plan(self@)->Ok_0);
                        }
                        Ok(plan)
                    },
                    None => Err(FetchError::Data(DataFailure::NoPendingCall)),
                }
            },
        }
    }

    /// Digests one response: the two handshake steps, re-authentication on
    /// an authorization failure with the chain position kept, the discovery
    /// step that sizes the dynamic tail, per-tag merging, and the single
    /// publish at the terminal tag.
    pub fn process_http_response(&mut self, r: FreeboxResponse) -> (res: Result<
        FetchAction,
        FetchError,
    >)
        requires
            old(self).wf(),
            old(self)@.phase is Authenticating || old(self)@.phase is Fetching,
            spec_freebox_response_wf(r),
        ensures
            final(self).wf(),
            final(self)@ == spec_freebox_step(old(self)@, r@).0,
            res == spec_freebox_step(old(self)@, r@).1,
    {
        let ghost pre = self@;
        match r {
            FreeboxResponse::Canceled => {
                self.phase = CyclePhase::Idle;
                proof {
                    assert(self@ =~= spec_freebox_step(pre, r@).0);
                }
                Ok(FetchAction::Done)
            },
            FreeboxResponse::Failed => {
                self.phase = CyclePhase::Failed;
                proof {
                    assert(self@ =~= spec_freebox_step(pre, r@).0);
                }
                Err(FetchError::Transport)
            },
            FreeboxResponse::Status { code, body } => {
                if code == 401 {
                    self.session.invalidate();
                    self.phase = CyclePhase::Authenticating;
                    proof {
                        assert(self@ =~= spec_freebox_step(pre, r@).0);
                    }
                    Ok(FetchAction::Http)
                } else if code != 200 {
                    self.phase = CyclePhase::Failed;
                    proof {
                        assert(self@ =~= spec_freebox_step(pre, r@).0);
                    }
                    Err(FetchError::Protocol(code))
                } else if self.phase == CyclePhase::Authenticating {
                    let waiting_for_challenge = match self.session.needs_handshake_step() {
                        Some(HandshakeStep::Challenge) => true,
                        _ => false,
                    };
                    if waiting_for_challenge {
                        match body {
                            FreeboxBody::Envelope(env) => {
                                let raw = env.get_string("challenge");
                                match self.session.consume_challenge(raw) {
                                    Ok(()) => {
                                        proof {
                                            assert(self@ =~= spec_freebox_step(pre, r@).0);
                                        }
                                        Ok(FetchAction::Http)
                                    },
                                    Err(e) => {
                                        self.phase = CyclePhase::Failed;
                                        proof {
                                            assert(self@ =~= spec_freebox_step(pre, r@).0);
                                        }
                                        Err(e)
                                    },
                                }
                            },
                            _ => {
                                self.phase = CyclePhase::Failed;
                                proof {
                                    assert(self@ =~= spec_freebox_step(pre, r@).0);
                                }
                                Err(FetchError::Data(DataFailure::Malformed))
                            },
                        }
                    } else {
                        match body {
                            FreeboxBody::Envelope(env) => {
                                let raw = env.get_string("session_token");
                                match self.session.consume_token(raw) {
                                    Ok(()) => {
                                        self.phase = CyclePhase::Fetching;
                                        proof {
                                            assert(self@ =~= spec_freebox_step(pre, r@).0);
                                        }
                                        Ok(FetchAction::Http)
                                    },
                                    Err(e) => {
                                        self.phase = CyclePhase::Failed;
                                        proof {
                                            assert(self@ =~= spec_freebox_step(pre, r@).0);
                                        }
                                        Err(e)
                                    },
                                }
                            },
                            _ => {
                                self.phase = CyclePhase::Failed;
                                proof {
                                    assert(self@ =~= spec_freebox_step(pre, r@).0);
                                }
                                Err(FetchError::Data(DataFailure::Malformed))
                            },
                        }
                    }
                } else if self.state == FreeboxFetchState::SwitchStatus {
                    match body {
                        FreeboxBody::SwitchList(list) => {
                            let mut rest = list;
                            let ghost lv = rest@.map_values(|t: FieldTable| t@);
                            let count: u8 = if rest.len() > 255 {
                                255
                            } else {
                                rest.len() as u8
                            };
                            let ghost k: int = 0;
                            proof {
                                assert(lv.skip(0) =~= lv);
                            }
                            while rest.len() > 0
                                invariant
                                    0 <= k <= lv.len(),
                                    rest@.map_values(|t: FieldTable| t@) =~= lv.skip(k),
                                    forall|i: int|
                                        0 <= i < rest@.len() ==> (#[trigger] rest@[i]).wf(),
                                    self.snapshot.wf(),
                                    spec_switch_merge(pre.snap.switch, lv) == spec_switch_merge(
                                        self.snapshot@.switch,
                                        lv.skip(k),
                                    ),
                                    self.snapshot@.connection == pre.snap.connection,
                                    self.snapshot@.system == pre.snap.system,
                                    self.snapshot@.ports == pre.snap.ports,
                                    self@.app_id == pre.app_id,
                                    self@.secret == pre.secret,
                                    self@.challenge == pre.challenge,
                                    self@.token == pre.token,
                                    self@.tag == pre.tag,
                                    self@.ports_count == pre.ports_count,
                                    self@.phase == pre.phase,
                                    self@.published == pre.published,
                                    self.session.spec_uses_challenge(),
                                    self.session.spec_authenticated(),
                                decreases lv.len() - k,
                            {
                                let port = rest.remove(0);
                                proof {
                                    assert(rest@.map_values(|t: FieldTable| t@) =~= lv.skip(
                                        k,
                                    ).drop_first());
                                    assert(lv.skip(k).drop_first() =~= lv.skip(k + 1));
                                    assert(port@ == lv.skip(k).first());
                                }
                                let key: Option<String> = match port.get("id") {
                                    Some(FieldValue::Unsigned(n)) => Some(u64_to_dec(*n)),
                                    _ => None,
                                };
                                match key {
                                    Some(id) => {
                                        self.snapshot.switch_insert(id, port);
                                    },
                                    None => {},
                                }
                                proof {
                                    k = k + 1;
                                }
                            }
                            proof {
                                assert(lv.skip(k) =~= Seq::<Map<Seq<char>, ValueView>>::empty());
                            }
                            self.number_ports = count;
                            self.state = self.state.next_state(count);
                            if self.state == FreeboxFetchState::End {
                                let snap = self.snapshot.take();
                                self.publisher.publish(snap);
                                self.phase = CyclePhase::Done;
                                proof {
                                    assert(self@ =~= spec_freebox_step(pre, r@).0);
                                }
                                Ok(FetchAction::Done)
                            } else {
                                proof {
                                    assert(self@ =~= spec_freebox_step(pre, r@).0);
                                }
                                Ok(FetchAction::Http)
                            }
                        },
                        _ => {
                            self.phase = CyclePhase::Failed;
                            proof {
                                assert(self@ =~= spec_freebox_step(pre, r@).0);
                            }
                            Err(FetchError::Data(DataFailure::Malformed))
                        },
                    }
                } else {
                    match body {
                        FreeboxBody::Envelope(env) => {
                            if !env.success {
                                self.phase = CyclePhase::Failed;
                                proof {
                                    assert(self@ =~= spec_freebox_step(pre, r@).0);
                                }
                                Err(FetchError::Data(DataFailure::Rejected))
                            } else {
                                let ghost envv = env@;
                                let table = match env.result {
                                    Some(t) => t,
                                    None => AssocTable::new(),
                                };
                                match self.state {
                                    FreeboxFetchState::Connection => {
                                        self.snapshot.connection_merge(table);
                                    },
                                    FreeboxFetchState::System => {
                                        self.snapshot.system_merge(table);
                                    },
                                    FreeboxFetchState::SwitchPort(p) => {
                                        let id = u64_to_dec(p as u64);
                                        self.snapshot.port_insert(id, table);
                                    },
                                    _ => {
                                        // The discovery tag took the branch
                                        // above, and a running cycle never
                                        // stands at the terminal tag.
                                        proof {
                                            assert(false);
                                        }
                                    },
                                }
                                proof {
                                    assert(self.snapshot@ =~= spec_apply_env(
                                        pre.snap,
                                        pre.tag,
                                        envv.result,
                                    ));
                                }
                                self.state = self.state.next_state(self.number_ports);
                                if self.state == FreeboxFetchState::End {
                                    let snap = self.snapshot.take();
                                    self.publisher.publish(snap);
                                    self.phase = CyclePhase::Done;
                                    proof {
                                        assert(self@ =~= spec_freebox_step(pre, r@).0);
                                    }
                                    Ok(FetchAction::Done)
                                } else {
                                    proof {
                                        assert(self@ =~= spec_freebox_step(pre, r@).0);
                                    }
                                    Ok(FetchAction::Http)
                                }
                            }
                        },
                        _ => {
                            self.phase = CyclePhase::Failed;
                            proof {
                                assert(self@ =~= spec_freebox_step(pre, r@).0);
                            }
                            Err(FetchError::Data(DataFailure::Malformed))
                        },
                    }
                }
            },
        }
    }

    /// Read-only access to the last complete snapshot.
    pub fn latest(&self) -> (r: Option<&FreeboxSnapshot>)
        ensures
            match r {
                Some(s) => self@.published == Some(s@),
                None => self@.published is None,
            },
    {
        self.publisher.latest()
    }
}

impl FreeboxSnapshot {
    fn connection_merge(&mut self, t: FieldTable)
        requires
            old(self).wf(),
        ensures
            final(self).wf(),
            final(self)@ == (FreeboxSnapView {
                connection: old(self)@.connection.union_prefer_right(t@),
                ..old(self)@
            }),
    {
        self.connection.merge_from(t);
        proof {
            assert(self@ =~= (FreeboxSnapView {
                connection: old(self)@.connection.union_prefer_right(t@),
                ..old(self)@
            }));
        }
    }

    fn system_merge(&mut self, t: FieldTable)
        requires
            old(self).wf(),
        ensures
            final(self).wf(),
            final(self)@ == (FreeboxSnapView {
                system: old(self)@.system.union_prefer_right(t@),
                ..old(self)@
            }),
    {
        self.system.merge_from(t);
        proof {
            assert(self@ =~= (FreeboxSnapView {
                system: old(self)@.system.union_prefer_right(t@),
                ..old(self)@
            }));
        }
    }

    fn switch_insert(&mut self, id: String, t: FieldTable)
        requires
            old(self).wf(),
        ensures
            final(self).wf(),
            final(self)@ == (FreeboxSnapView {
                switch: old(self)@.switch.insert(id@, t@),
                ..old(self)@
            }),
    {
        self.switch.insert(id, t);
        proof {
            assert(self@ =~= (FreeboxSnapView {
                switch: old(self)@.switch.insert(id@, t@),
                ..old(self)@
            }));
        }
    }

    fn port_insert(&mut self, id: String, t: FieldTable)
        requires
            old(self).wf(),
        ensures
            final(self).wf(),
            final(self)@ == (FreeboxSnapView {
                ports: old(self)@.ports.insert(id@, t@),
                ..old(self)@
            }),
    {
        self.ports.insert(id, t);
        proof {
            assert(self@ =~= (FreeboxSnapView {
                ports: old(self)@.ports.insert(id@, t@),
                ..old(self)@
            }));
        }
    }
}

// ---------------------------------------------------------------------------
// Laws of the driver
// ---------------------------------------------------------------------------

/// Authorization failure mid-cycle: if the cycle stands at some tag when
/// the failure arrives, the position is kept through the full re-handshake
/// — challenge, then token — and the first request built afterwards is
/// again the data call of that very tag: the sequence resumes, it does not
/// restart.
pub proof fn lemma_freebox_auth_failure_resumes(
    s: FreeboxCycleView,
    b0: FreeboxBodyView,
    challenge_env: FreeboxEnvelopeView,
    token_env: FreeboxEnvelopeView,
)
    requires
        s.phase is Fetching,
        !(s.tag is End),
        spec_env_string(challenge_env, "challenge"@) is Some,
        spec_env_string(token_env, "session_token"@) is Some,
    ensures
        ({
            let s1 = spec_freebox_step(s, FreeboxResponseView::Status { code: 401, body: b0 }).0;
            let s2 = spec_freebox_step(
                s1,
                FreeboxResponseView::Status {
                    code: 200,
                    body: FreeboxBodyView::Envelope(challenge_env),
                },
            ).0;
            let s3 = spec_freebox_step(
                s2,
                FreeboxResponseView::Status {
                    code: 200,
                    body: FreeboxBodyView::Envelope(token_env),
                },
            ).0;
            s1.tag == s.tag && s1.phase is Authenticating && s2.tag == s.tag && s3.tag == s.tag
                && s3.phase is Fetching && (spec_freebox_plan(s3) matches Ok(p) && p.method == (
            spec_freebox_call(s.tag)->0).0 && p.path == (spec_freebox_call(s.tag)->0).1)
        }),
{
    match s.tag {
        FreeboxFetchState::Connection => {},
        FreeboxFetchState::System => {},
        FreeboxFetchState::SwitchStatus => {},
        FreeboxFetchState::SwitchPort(_) => {},
        FreeboxFetchState::End => {
            assert(false);
        },
    }
}

/// No publish on failure: whatever error a step reports, the published
/// snapshot stays what it was before the step — a failed cycle never
/// overwrites a good prior snapshot.
pub proof fn lemma_freebox_no_publish_on_failure(s: FreeboxCycleView, r: FreeboxResponseView)
    ensures
        spec_freebox_step(s, r).1 is Err ==> spec_freebox_step(s, r).0.published == s.published,
{
}

} // verus!
