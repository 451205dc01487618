//! Static-chain profile: a router logged into by echoing a stored password,
//! answering with a session cookie; data steps then walk a fixed chain of
//! calls.  Responses carry arrays of fragment objects, merged in array
//! order: the flat categories under union-overwrite, the wireless category
//! under keyed partition (one radio band reported at a time).

use vstd::prelude::*;

use crate::protocol::AuthFailure;
use crate::protocol::CyclePhase;
use crate::protocol::DataFailure;
use crate::protocol::FetchAction;
use crate::protocol::FetchError;
use crate::protocol::HttpMethod;
use crate::protocol::HttpRequestPlan;
use crate::protocol::ParseHint;
use crate::protocol::PlanView;
use crate::publisher::SnapshotPublisher;
use crate::sequencer::spec_bbox_call;
use crate::sequencer::spec_bbox_next;
use crate::sequencer::BBoxFetchState;
use crate::session::AuthSession;
use crate::table::opt_table_map;
use crate::table::spec_keyed_entry;
use crate::table::spec_u64_of;
use crate::table::AssocTable;
use crate::table::FieldTable;
use crate::table::FieldValue;
use crate::table::KeyedTable;
use crate::table::ValueView;
use crate::text::parse_u64_digits;
use crate::text::spec_find;
use crate::text::spec_starts_with;
use crate::text::str_starts_with;
use crate::text::u64_to_dec;
use crate::text::find_char;
use vstd::string::StrSliceExecFns;
use vstd::string::StringExecFns;

verus! {

// ---------------------------------------------------------------------------
// Fragments and the snapshot
// ---------------------------------------------------------------------------

/// The typed result of parsing one response object: up to four category
/// sub-objects.  The wireless part is the flattened radio-band object,
/// identifier field included.
pub struct BBoxFragment {
    pub device: Option<FieldTable>,
    pub wan: Option<FieldTable>,
    pub lan: Option<FieldTable>,
    pub wireless: Option<FieldTable>,
}

#[verifier::ext_equal]
pub ghost struct BBoxFragmentView {
    pub device: Map<Seq<char>, ValueView>,
    pub wan: Map<Seq<char>, ValueView>,
    pub lan: Map<Seq<char>, ValueView>,
    pub wireless: Map<Seq<char>, ValueView>,
}

impl View for BBoxFragment {
    type V = BBoxFragmentView;

    open spec fn view(&self) -> BBoxFragmentView {
        BBoxFragmentView {
            device: opt_table_map(self.device),
            wan: opt_table_map(self.wan),
            lan: opt_table_map(self.lan),
            wireless: opt_table_map(self.wireless),
        }
    }
}

impl BBoxFragment {
    pub open spec fn wf(&self) -> bool {
        &&& (self.device matches Some(t) ==> t.wf())
        &&& (self.wan matches Some(t) ==> t.wf())
        &&& (self.lan matches Some(t) ==> t.wf())
        &&& (self.wireless matches Some(t) ==> t.wf())
    }

    /// A fragment that carries nothing.
    pub fn empty() -> (r: BBoxFragment)
        ensures
            r.wf(),
            r@ == spec_empty_fragment(),
    {
        BBoxFragment { device: None, wan: None, lan: None, wireless: None }
    }
}

pub open spec fn spec_empty_fragment() -> BBoxFragmentView {
    BBoxFragmentView {
        device: Map::empty(),
        wan: Map::empty(),
        lan: Map::empty(),
        wireless: Map::empty(),
    }
}

/// The cumulative snapshot of one cycle: three flat categories under
/// union-overwrite and the wireless category under keyed partition.
pub struct BBoxApiResponse {
    device: FieldTable,
    wan: FieldTable,
    lan: FieldTable,
    wireless: KeyedTable,
}

#[verifier::ext_equal]
pub ghost struct BBoxSnapView {
    pub device: Map<Seq<char>, ValueView>,
    pub wan: Map<Seq<char>, ValueView>,
    pub lan: Map<Seq<char>, ValueView>,
    pub wireless: Map<Seq<char>, Map<Seq<char>, ValueView>>,
}

impl View for BBoxApiResponse {
    type V = BBoxSnapView;

    closed spec fn view(&self) -> BBoxSnapView {
        BBoxSnapView {
            device: self.device@,
            wan: self.wan@,
            lan: self.lan@,
            wireless: self.wireless@,
        }
    }
}

pub open spec fn spec_empty_snap() -> BBoxSnapView {
    BBoxSnapView {
        device: Map::empty(),
        wan: Map::empty(),
        lan: Map::empty(),
        wireless: Map::empty(),
    }
}

/// One fragment merged into the snapshot: union-overwrite for the flat
/// categories, keyed partition for the wireless category.
pub open spec fn spec_merge(s: BBoxSnapView, f: BBoxFragmentView) -> BBoxSnapView {
    BBoxSnapView {
        device: s.device.union_prefer_right(f.device),
        wan: s.wan.union_prefer_right(f.wan),
        lan: s.lan.union_prefer_right(f.lan),
        wireless: match spec_keyed_entry(f.wireless) {
            Some(e) => s.wireless.insert(e.0, e.1),
            None => s.wireless,
        },
    }
}

/// The fragments of one response body merged in array order.
pub open spec fn spec_merge_all(s: BBoxSnapView, fs: Seq<BBoxFragmentView>) -> BBoxSnapView
    decreases fs.len(),
{
    if fs.len() == 0 {
        s
    } else {
        spec_merge_all(spec_merge(s, fs.first()), fs.drop_first())
    }
}

impl BBoxApiResponse {
    pub closed spec fn wf(&self) -> bool {
        self.device.wf() && self.wan.wf() && self.lan.wf() && self.wireless.wf()
    }

    /// An empty snapshot: no category holds anything yet.
    pub fn new() -> (r: BBoxApiResponse)
        ensures
            r.wf(),
            r@ == spec_empty_snap(),
    {
        let r = BBoxApiResponse {
            device: AssocTable::new(),
            wan: AssocTable::new(),
            lan: AssocTable::new(),
            wireless: AssocTable::new(),
        };
        proof {
            assert(r@ =~= spec_empty_snap());
        }
        r
    }

    /// Merges one fragment: present flat parts are unioned key by key, a
    /// wireless part is stored whole under its identifier — or silently
    /// dropped if the identifier is missing, since it cannot be placed.
    pub fn merge(&mut self, other: BBoxFragment)
        requires
            old(self).wf(),
            other.wf(),
        ensures
            final(self).wf(),
            final(self)@ == spec_merge(old(self)@, other@),
    {
        let ghost fv = other@;
        let BBoxFragment { device, wan, lan, wireless } = other;
        match device {
            Some(t) => self.device.merge_from(t),
            None => {
                proof {
                    assert(self.device@.union_prefer_right(Map::empty()) =~= self.device@);
                }
            },
        }
        match wan {
            Some(t) => self.wan.merge_from(t),
            None => {
                proof {
                    assert(self.wan@.union_prefer_right(Map::empty()) =~= self.wan@);
                }
            },
        }
        match lan {
            Some(t) => self.lan.merge_from(t),
            None => {
                proof {
                    assert(self.lan@.union_prefer_right(Map::empty()) =~= self.lan@);
                }
            },
        }
        match wireless {
            Some(t) => {
                let key: Option<String> = match t.get("id") {
                    Some(FieldValue::Unsigned(n)) => Some(u64_to_dec(*n)),
                    _ => None,
                };
                match key {
                    Some(k) => {
                        self.wireless.insert(k, t);
                    },
                    None => {},
                }
            },
            None => {},
        }
        proof {
            assert(self@ =~= spec_merge(old(self)@, fv));
        }
    }

    /// Hands the accumulated snapshot out, leaving this one empty.
    pub fn take(&mut self) -> (r: BBoxApiResponse)
        requires
            old(self).wf(),
        ensures
            r == *old(self),
            final(self).wf(),
            final(self)@ == spec_empty_snap(),
    {
        let mut fresh = BBoxApiResponse::new();
        core::mem::swap(self, &mut fresh);
        fresh
    }

    /// The wan category of the snapshot.
    pub fn get_wan_stats(&self) -> (r: &FieldTable)
        ensures
            r@ == self@.wan,
            self.wf() ==> r.wf(),
    {
        &self.wan
    }

    /// The lan category of the snapshot.
    pub fn get_lan_stats(&self) -> (r: &FieldTable)
        ensures
            r@ == self@.lan,
            self.wf() ==> r.wf(),
    {
        &self.lan
    }

    /// The device category of the snapshot.
    pub fn get_device_stats(&self) -> (r: &FieldTable)
        ensures
            r@ == self@.device,
            self.wf() ==> r.wf(),
    {
        &self.device
    }

    /// The wireless category: one fragment per radio band identifier.
    pub fn get_wifi_stats(&self) -> (r: &KeyedTable)
        ensures
            r@ == self@.wireless,
            self.wf() ==> r.wf(),
    {
        &self.wireless
    }

    /// Numeric reading of a field value: a number as it stands, a string by
    /// its plain decimal digits.
    pub fn parse_u64(v: &FieldValue) -> (r: Option<u64>)
        ensures
            r == spec_u64_of(v@),
    {
        match v {
            FieldValue::Unsigned(n) => Some(*n),
            FieldValue::Text(s) => parse_u64_digits(s.as_str()),
        }
    }
}

// ---------------------------------------------------------------------------
// Session cookie extraction
// ---------------------------------------------------------------------------

/// The session identifier carried by one set-cookie header value, if that
/// header sets it: the text after the cookie name, up to the first `;`.
pub open spec fn spec_cookie_value(h: Seq<char>) -> Option<Seq<char>> {
    if spec_starts_with(h, "BBOX_ID="@) {
        let rest = h.skip("BBOX_ID="@.len() as int);
        match spec_find(rest, ';', 0) {
            Some(i) => Some(rest.take(i)),
            None => Some(rest),
        }
    } else {
        None
    }
}

/// The session identifier among all set-cookie headers; the last one that
/// sets it wins.
pub open spec fn spec_scan_cookies(hs: Seq<Seq<char>>) -> Option<Seq<char>>
    decreases hs.len(),
{
    if hs.len() == 0 {
        None
    } else {
        match spec_cookie_value(hs.last()) {
            Some(v) => Some(v),
            None => spec_scan_cookies(hs.drop_last()),
        }
    }
}

fn cookie_value(h: &str) -> (r: Option<String>)
    ensures
        match r {
            Some(v) => spec_cookie_value(h@) == Some(v@),
            None => spec_cookie_value(h@) is None,
        },
{
    if !str_starts_with(h, "BBOX_ID=") {
        return None;
    }
    let pre_len = "BBOX_ID=".unicode_len();
    let h_len = h.unicode_len();
    let rest = h.substring_char(pre_len, h_len);
    proof {
        assert(rest@ =~= h@.skip("BBOX_ID="@.len() as int));
    }
    let end = match find_char(rest, ';', 0) {
        Some(i) => i,
        None => rest.unicode_len(),
    };
    let value = rest.substring_char(0, end);
    proof {
        if spec_find(rest@, ';', 0) is None {
            assert(rest@.subrange(0, rest@.len() as int) =~= rest@);
        }
    }
    Some(value.to_owned())
}

fn extract_cookie(headers: &Vec<String>) -> (r: Option<String>)
    ensures
        ({
            let hv = headers@.map_values(|h: String| h@);
            match r {
                Some(v) => spec_scan_cookies(hv) == Some(v@),
                None => spec_scan_cookies(hv) is None,
            }
        }),
{
    let ghost hv = headers@.map_values(|h: String| h@);
    let mut found: Option<String> = None;
    let mut k: usize = 0;
    proof {
        assert(hv.take(0) =~= Seq::<Seq<char>>::empty());
    }
    while k < headers.len()
        invariant
            k <= headers@.len(),
            hv == headers@.map_values(|h: String| h@),
            match found {
                Some(v) => spec_scan_cookies(hv.take(k as int)) == Some(v@),
                None => spec_scan_cookies(hv.take(k as int)) is None,
            },
        decreases headers@.len() - k,
    {
        proof {
            assert(hv.take(k + 1).drop_last() =~= hv.take(k as int));
            assert(hv.take(k + 1).last() == headers@[k as int]@);
        }
        if let Some(v) = cookie_value(headers[k].as_str()) {
            found = Some(v);
        }
        k += 1;
    }
    proof {
        assert(hv.take(headers@.len() as int) =~= hv);
    }
    found
}

// ---------------------------------------------------------------------------
// The cycle driver
// ---------------------------------------------------------------------------

/// What the transport reports back for one request of this profile.
pub enum BBoxResponse {
    /// The request was canceled at the transport level: a soft stop.
    Canceled,
    /// Any other transport-level failure.
    Failed,
    /// A response arrived.  `set_cookies` holds every set-cookie header
    /// value; `body` holds the decoded fragment array, or nothing if the
    /// body could not be decoded.
    Status { code: u16, set_cookies: Vec<String>, body: Option<Vec<BBoxFragment>> },
}

pub ghost enum BBoxResponseView {
    Canceled,
    Failed,
    Status { code: u16, set_cookies: Seq<Seq<char>>, body: Option<Seq<BBoxFragmentView>> },
}

impl View for BBoxResponse {
    type V = BBoxResponseView;

    open spec fn view(&self) -> BBoxResponseView {
        match self {
            BBoxResponse::Canceled => BBoxResponseView::Canceled,
            BBoxResponse::Failed => BBoxResponseView::Failed,
            BBoxResponse::Status { code, set_cookies, body } => BBoxResponseView::Status {
                code: *code,
                set_cookies: set_cookies@.map_values(|h: String| h@),
                body: match body {
                    Some(fs) => Some(fs@.map_values(|f: BBoxFragment| f@)),
                    None => None,
                },
            },
        }
    }
}

pub open spec fn spec_bbox_response_wf(r: BBoxResponse) -> bool {
    match r {
        BBoxResponse::Status { body: Some(fs), .. } => forall|i: int|
            0 <= i < fs@.len() ==> (#[trigger] fs@[i]).wf(),
        _ => true,
    }
}

/// Everything one poll cycle of this profile knows.
#[verifier::ext_equal]
pub ghost struct BBoxCycleView {
    pub password: Option<Seq<char>>,
    pub cookie: Option<Seq<char>>,
    pub tag: BBoxFetchState,
    pub stats: BBoxSnapView,
    pub phase: CyclePhase,
    pub published: Option<BBoxSnapView>,
}

/// One response digested: the next cycle state and what to do.
pub open spec fn spec_bbox_step(s: BBoxCycleView, r: BBoxResponseView) -> (
    BBoxCycleView,
    Result<FetchAction, FetchError>,
) {
    match r {
        BBoxResponseView::Canceled => (
            BBoxCycleView { phase: CyclePhase::Idle, ..s },
            Ok(FetchAction::Done),
        ),
        BBoxResponseView::Failed => (
            BBoxCycleView { phase: CyclePhase::Failed, ..s },
            Err(FetchError::Transport),
        ),
        BBoxResponseView::Status { code, set_cookies, body } => {
            if code == 401 {
                (
                    BBoxCycleView { cookie: None, phase: CyclePhase::Authenticating, ..s },
                    Ok(FetchAction::Http),
                )
            } else if code != 200 {
                (BBoxCycleView { phase: CyclePhase::Failed, ..s }, Err(FetchError::Protocol(code)))
            } else if s.phase is Authenticating {
                match spec_scan_cookies(set_cookies) {
                    Some(c) => (
                        BBoxCycleView { cookie: Some(c), phase: CyclePhase::Fetching, ..s },
                        Ok(FetchAction::Http),
                    ),
                    None => (
                        BBoxCycleView { phase: CyclePhase::Failed, ..s },
                        Err(FetchError::Auth(AuthFailure::MissingCookie)),
                    ),
                }
            } else {
                match body {
                    Some(fs) => {
                        let stats1 = spec_merge_all(s.stats, fs);
                        let tag1 = spec_bbox_next(s.tag);
                        if tag1 is End {
                            (
                                BBoxCycleView {
                                    stats: spec_empty_snap(),
                                    tag: tag1,
                                    phase: CyclePhase::Done,
                                    published: Some(stats1),
                                    ..s
                                },
                                Ok(FetchAction::Done),
                            )
                        } else {
                            (
                                BBoxCycleView { stats: stats1, tag: tag1, ..s },
                                Ok(FetchAction::Http),
                            )
                        }
                    },
                    None => (
                        BBoxCycleView { phase: CyclePhase::Failed, ..s },
                        Err(FetchError::Data(DataFailure::Malformed)),
                    ),
                }
            }
        },
    }
}

/// The request to build for the current cycle state: the password login
/// while no cookie is held, else the data call of the current tag.
pub open spec fn spec_bbox_plan(s: BBoxCycleView) -> Result<PlanView, FetchError> {
    if s.cookie is None {
        match s.password {
            Some(pw) => Ok(
                PlanView {
                    method: HttpMethod::Post,
                    path: "/api/v1/login"@,
                    headers: seq![("Connection"@, "keep-alive"@)],
                    body: Some("password="@ + pw),
                    hint: ParseHint::CookieHeader,
                },
            ),
            None => Err(FetchError::Auth(AuthFailure::MissingCredential)),
        }
    } else {
        match spec_bbox_call(s.tag) {
            Some(c) => Ok(
                PlanView {
                    method: c.0,
                    path: c.1,
                    headers: seq![
                        ("Connection"@, "keep-alive"@),
                        ("Accept"@, "application/json"@),
                        ("Cookie"@, "BBOX_ID="@ + s.cookie->0),
                    ],
                    body: None,
                    hint: ParseHint::FragmentList,
                },
            ),
            None => Err(FetchError::Data(DataFailure::NoPendingCall)),
        }
    }
}

/// Driver for the static-chain profile.
pub struct BBoxCycle {
    password: Option<String>,
    session: AuthSession,
    state: BBoxFetchState,
    stats: BBoxApiResponse,
    phase: CyclePhase,
    publisher: SnapshotPublisher<BBoxApiResponse>,
}

impl BBoxCycle {
    pub closed spec fn view(&self) -> BBoxCycleView {
        BBoxCycleView {
            password: match self.password {
                Some(p) => Some(p@),
                None => None,
            },
            cookie: self.session.spec_token(),
            tag: self.state,
            stats: self.stats@,
            phase: self.phase,
            published: match self.publisher.spec_latest() {
                Some(s) => Some(s@),
                None => None,
            },
        }
    }

    pub closed spec fn wf(&self) -> bool {
        &&& !self.session.spec_uses_challenge()
        &&& self.stats.wf()
        &&& (self.phase is Fetching ==> self.view().cookie is Some)
        &&& (self.phase is Fetching || self.phase is Authenticating ==> !(self.state is End))
    }

    /// A fresh driver holding the configured password; no cycle runs yet.
    pub fn new(password: Option<String>) -> (r: BBoxCycle)
        ensures
            r.wf(),
            r.view().password == match password {
                Some(p) => Some(p@),
                None => None::<Seq<char>>,
            },
            r.view().cookie is None,
            r.view().phase == CyclePhase::Idle,
            r.view().published is None,
    {
        BBoxCycle {
            password,
            session: AuthSession::new(false),
            state: BBoxFetchState::End,
            stats: BBoxApiResponse::new(),
            phase: CyclePhase::Idle,
            publisher: SnapshotPublisher::new(),
        }
    }

    /// Starts a cycle: resets the snapshot and the chain position, and goes
    /// to the handshake unless a session is already held.
    pub fn fetch(&mut self) -> (r: FetchAction)
        requires
            old(self).wf(),
        ensures
            final(self).wf(),
            final(self)@ == (BBoxCycleView {
                tag: BBoxFetchState::Cpu,
                stats: spec_empty_snap(),
                phase: if old(self)@.cookie is Some {
                    CyclePhase::Fetching
                } else {
                    CyclePhase::Authenticating
                },
                ..old(self)@
            }),
            r == FetchAction::Http,
    {
        self.state = BBoxFetchState::Cpu;
        let mut fresh = BBoxApiResponse::new();
        core::mem::swap(&mut self.stats, &mut fresh);
        if self.session.needs_handshake_step().is_some() {
            self.phase = CyclePhase::Authenticating;
        } else {
            self.phase = CyclePhase::Fetching;
        }
        proof {
            assert(self@ =~= (BBoxCycleView {
                tag: BBoxFetchState::Cpu,
                stats: spec_empty_snap(),
                phase: if old(self)@.cookie is Some {
                    CyclePhase::Fetching
                } else {
                    CyclePhase::Authenticating
                },
                ..old(self)@
            }));
        }
        FetchAction::Http
    }

    /// Builds the next request from the cycle state.
    pub fn create_http_request(&self) -> (r: Result<HttpRequestPlan, FetchError>)
        ensures
            match r {
                Ok(p) => spec_bbox_plan(self@) == Ok::<PlanView, FetchError>(p@),
                Err(e) => spec_bbox_plan(self@) == Err::<PlanView, FetchError>(e),
            },
    {
        match self.session.token() {
            None => {
                match &self.password {
                    Some(pw) => {
                        let mut body = "password=".to_owned();
                        body.append(pw.as_str());
                        let mut headers: Vec<(String, String)> = Vec::new();
                        headers.push(("Connection".to_owned(), "keep-alive".to_owned()));
                        let plan = HttpRequestPlan {
                            method: HttpMethod::Post,
                            path: "/api/v1/login".to_owned(),
                            headers,
                            body: Some(body),
                            hint: ParseHint::CookieHeader,
                        };
                        proof {
                            assert(plan@.headers =~= spec_bbox_plan(self@)->Ok_0.headers);
                            assert(plan@ =~= spec_bbox_plan(self@)->Ok_0);
                        }
                        Ok(plan)
                    },
                    None => Err(FetchError::Auth(AuthFailure::MissingCredential)),
                }
            },
            Some(token) => {
                match self.state.call() {
                    Some((method, path)) => {
                        let mut cookie = "BBOX_ID=".to_owned();
                        cookie.append(token.as_str());
                        let mut headers: Vec<(String, String)> = Vec::new();
                        headers.push(("Connection".to_owned(), "keep-alive".to_owned()));
                        headers.push(("Accept".to_owned(), "application/json".to_owned()));
                        headers.push(("Cookie".to_owned(), cookie));
                        let plan = HttpRequestPlan {
                            method,
                            path,
                            headers,
                            body: None,
                            hint: ParseHint::FragmentList,
                        };
                        proof {
                            assert(plan@.headers =~= spec_bbox_plan(self@)->Ok_0.headers);
                            assert(plan@ =~= spec_bbox_plan(self@)->Ok_0);
                        }
                        Ok(plan)
                    },
                    None => Err(FetchError::Data(DataFailure::NoPendingCall)),
                }
            },
        }
    }

    /// Digests one response: cookie handshake, re-authentication on an
    /// authorization failure with the chain position kept, fragment merging
    /// on data steps, and the single publish at the terminal tag.
    pub fn process_http_response(&mut self, r: BBoxResponse) -> (res: Result<
        FetchAction,
        FetchError,
    >)
        requires
            old(self).wf(),
            old(self)@.phase is Authenticating || old(self)@.phase is Fetching,
            spec_bbox_response_wf(r),
        ensures
            final(self).wf(),
            final(self)@ == spec_bbox_step(old(self)@, r@).0,
            res == spec_bbox_step(old(self)@, r@).1,
    {
        let ghost pre = self@;
        match r {
            BBoxResponse::Canceled => {
                self.phase = CyclePhase::Idle;
                proof {
                    assert(self@ =~= spec_bbox_step(pre, r@).0);
                }
                Ok(FetchAction::Done)
            },
            BBoxResponse::Failed => {
                self.phase = CyclePhase::Failed;
                proof {
                    assert(self@ =~= spec_bbox_step(pre, r@).0);
                }
                Err(FetchError::Transport)
            },
            BBoxResponse::Status { code, set_cookies, body } => {
                if code == 401 {
                    self.session.invalidate();
                    self.phase = CyclePhase::Authenticating;
                    proof {
                        assert(self@ =~= spec_bbox_step(pre, r@).0);
                    }
                    Ok(FetchAction::Http)
                } else if code != 200 {
                    self.phase = CyclePhase::Failed;
                    proof {
                        assert(self@ =~= spec_bbox_step(pre, r@).0);
                    }
                    Err(FetchError::Protocol(code))
                } else if self.phase == CyclePhase::Authenticating {
                    match extract_cookie(&set_cookies) {
                        Some(c) => {
                            let consumed = self.session.consume_cookie(Some(c));
                            proof {
                                assert(consumed is Ok);
                            }
                            self.phase = CyclePhase::Fetching;
                            proof {
                                assert(self@ =~= spec_bbox_step(pre, r@).0);
                            }
                            Ok(FetchAction::Http)
                        },
                        None => {
                            self.phase = CyclePhase::Failed;
                            proof {
                                assert(self@ =~= spec_bbox_step(pre, r@).0);
                            }
                            Err(FetchError::Auth(AuthFailure::MissingCookie))
                        },
                    }
                } else {
                    match body {
                        Some(frags) => {
                            let mut rest = frags;
                            let ghost fv = rest@.map_values(|f: BBoxFragment| f@);
                            let ghost k: int = 0;
                            proof {
                                assert(fv.skip(0) =~= fv);
                            }
                            while rest.len() > 0
                                invariant
                                    0 <= k <= fv.len(),
                                    rest@.map_values(|f: BBoxFragment| f@) =~= fv.skip(k),
                                    forall|i: int| 0 <= i < rest@.len() ==> (#[trigger] rest@[i]).wf(),
                                    self.stats.wf(),
                                    spec_merge_all(pre.stats, fv) == spec_merge_all(
                                        self.stats@,
                                        fv.skip(k),
                                    ),
                                    self@.password == pre.password,
                                    self@.cookie == pre.cookie,
                                    self@.tag == pre.tag,
                                    self@.phase == pre.phase,
                                    self@.published == pre.published,
                                    !self.session.spec_uses_challenge(),
                                decreases fv.len() - k,
                            {
                                let frag = rest.remove(0);
                                proof {
                                    assert(rest@.map_values(|f: BBoxFragment| f@) =~= fv.skip(
                                        k,
                                    ).drop_first());
                                    assert(fv.skip(k).drop_first() =~= fv.skip(k + 1));
                                    assert(frag@ == fv.skip(k).first());
                                }
                                self.stats.merge(frag);
                                proof {
                                    k = k + 1;
                                }
                            }
                            proof {
                                assert(fv.skip(k).len() == 0);
                                assert(fv.skip(k) =~= Seq::<BBoxFragmentView>::empty());
                                assert(spec_merge_all(self.stats@, fv.skip(k)) == self.stats@);
                            }
                            self.state = self.state.next_state();
                            if self.state == BBoxFetchState::End {
                                let snap = self.stats.take();
                                self.publisher.publish(snap);
                                self.phase = CyclePhase::Done;
                                proof {
                                    assert(self@ =~= spec_bbox_step(pre, r@).0);
                                }
                                Ok(FetchAction::Done)
                            } else {
                                proof {
                                    assert(self@ =~= spec_bbox_step(pre, r@).0);
                                }
                                Ok(FetchAction::Http)
                            }
                        },
                        None => {
                            self.phase = CyclePhase::Failed;
                            proof {
                                assert(self@ =~= spec_bbox_step(pre, r@).0);
                            }
                            Err(FetchError::Data(DataFailure::Malformed))
                        },
                    }
                }
            },
        }
    }

    /// Read-only access to the last complete snapshot.
    pub fn latest(&self) -> (r: Option<&BBoxApiResponse>)
        ensures
            match r {
                Some(s) => self@.published == Some(s@),
                None => self@.published is None,
            },
    {
        self.publisher.latest()
    }
}

// ---------------------------------------------------------------------------
// Laws of the driver
// ---------------------------------------------------------------------------

/// Authorization failure mid-cycle: if the cycle stands at some tag when
/// the failure arrives, the position is kept through the re-handshake, and
/// the first request built afterwards is again the data call of that very
/// tag — the sequence resumes, it does not restart.
pub proof fn lemma_bbox_auth_failure_resumes(
    s: BBoxCycleView,
    cs0: Seq<Seq<char>>,
    b0: Option<Seq<BBoxFragmentView>>,
    login_cookies: Seq<Seq<char>>,
    b1: Option<Seq<BBoxFragmentView>>,
)
    requires
        s.phase is Fetching,
        !(s.tag is End),
        spec_scan_cookies(login_cookies) is Some,
    ensures
        ({
            let s1 = spec_bbox_step(
                s,
                BBoxResponseView::Status { code: 401, set_cookies: cs0, body: b0 },
            ).0;
            let s2 = spec_bbox_step(
                s1,
                BBoxResponseView::Status { code: 200, set_cookies: login_cookies, body: b1 },
            ).0;
            s1.tag == s.tag && s1.phase is Authenticating && s2.tag == s.tag && s2.phase
                is Fetching && spec_bbox_plan(s2) == Ok::<PlanView, FetchError>(
                PlanView {
                    method: (spec_bbox_call(s.tag)->0).0,
                    path: (spec_bbox_call(s.tag)->0).1,
                    headers: seq![
                        ("Connection"@, "keep-alive"@),
                        ("Accept"@, "application/json"@),
                        ("Cookie"@, "BBOX_ID="@ + spec_scan_cookies(login_cookies)->0),
                    ],
                    body: None,
                    hint: ParseHint::FragmentList,
                },
            )
        }),
{
    match s.tag {
        BBoxFetchState::Cpu => {},
        BBoxFetchState::Mem => {},
        BBoxFetchState::Wan => {},
        BBoxFetchState::Lan => {},
        BBoxFetchState::Wifi(_) => {},
        BBoxFetchState::End => {
            assert(false);
        },
    }
}

/// The chain position never depends on response content: two successful
/// data responses, whatever fragments they carry, advance the cycle to the
/// same tag.  Together with the fixed tag sequence this makes the calls of
/// a full cycle deterministic.
pub proof fn lemma_bbox_tags_independent_of_content(
    s: BBoxCycleView,
    cs1: Seq<Seq<char>>,
    fs1: Seq<BBoxFragmentView>,
    cs2: Seq<Seq<char>>,
    fs2: Seq<BBoxFragmentView>,
)
    requires
        s.phase is Fetching,
    ensures
        spec_bbox_step(
            s,
            BBoxResponseView::Status { code: 200, set_cookies: cs1, body: Some(fs1) },
        ).0.tag == spec_bbox_step(
            s,
            BBoxResponseView::Status { code: 200, set_cookies: cs2, body: Some(fs2) },
        ).0.tag,
{
}

/// No publish on failure: whatever error a step reports, the published
/// snapshot stays what it was before the step — a failed cycle never
/// overwrites a good prior snapshot.
pub proof fn lemma_bbox_no_publish_on_failure(s: BBoxCycleView, r: BBoxResponseView)
    ensures
        spec_bbox_step(s, r).1 is Err ==> spec_bbox_step(s, r).0.published == s.published,
{
}

/// Merging a fragment that carries nothing never changes the snapshot.
pub proof fn lemma_bbox_merge_empty(s: BBoxSnapView)
    ensures
        spec_merge(s, spec_empty_fragment()) == s,
{
    assert(spec_merge(s, spec_empty_fragment()) =~~= s);
}

} // verus!
