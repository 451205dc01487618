//! Text-scrape profile: the inverter reports through an HTML document whose
//! variable block holds line-oriented assignment statements.  The scraper
//! recognizes the assignment prefixes, strips quoting and terminator syntax
//! and fails naming the first required assignment that was never seen.  The
//! cycle of this profile is a single call: fetch the document, parse it,
//! publish the fragment.

use vstd::prelude::*;

use crate::protocol::CyclePhase;
use crate::protocol::DataFailure;
use crate::protocol::FetchAction;
use crate::protocol::FetchError;
use crate::protocol::HttpMethod;
use crate::protocol::HttpRequestPlan;
use crate::protocol::ParseHint;
use crate::protocol::PlanView;
use crate::protocol::ScrapedField;
use crate::publisher::SnapshotPublisher;
use crate::text::parse_u64_digits;
use crate::text::spec_all_digits;
use crate::text::spec_contains_str;
use crate::text::spec_dec_val;
use crate::text::spec_ends_with;
use crate::text::spec_lines;
use crate::text::spec_starts_with;
use crate::text::spec_trim_end;
use crate::text::split_lines;
use crate::text::str_ends_with;
use crate::text::str_starts_with;
use crate::text::trim_end;
use vstd::string::StrSliceExecFns;

verus! {

// ---------------------------------------------------------------------------
// Scanning assignment lines
// ---------------------------------------------------------------------------

/// What an assignment line yields once its prefix matched: the text between
/// prefix and terminator, or nothing if the terminator is absent.
pub open spec fn spec_strip_between(l: Seq<char>, pre: Seq<char>, suf: Seq<char>) -> Option<
    Seq<char>,
> {
    if spec_ends_with(l.skip(pre.len() as int), suf) {
        Some(l.subrange(pre.len() as int, l.len() - suf.len()))
    } else {
        None
    }
}

/// The value of the last line matching `pre`, if any line does; a matching
/// line without the terminator yields nothing, overriding earlier matches.
pub open spec fn spec_scan_field(lines: Seq<Seq<char>>, pre: Seq<char>, suf: Seq<char>) -> Option<
    Seq<char>,
>
    decreases lines.len(),
{
    if lines.len() == 0 {
        None
    } else if spec_starts_with(lines.last(), pre) {
        spec_strip_between(lines.last(), pre, suf)
    } else {
        spec_scan_field(lines.drop_last(), pre, suf)
    }
}

/// The assignment prefix that announces `f`.
pub open spec fn spec_field_pre(f: ScrapedField) -> Seq<char> {
    match f {
        ScrapedField::SerialNumber => "var webdata_sn = \""@,
        ScrapedField::CurrentPower => "var webdata_now_p = \""@,
        ScrapedField::YieldToday => "var webdata_today_e = \""@,
        ScrapedField::TotalYield => "var webdata_total_e = \""@,
        ScrapedField::RouterSsid => "var cover_sta_ssid = \""@,
        ScrapedField::SignalQuality => "var cover_sta_rssi = \""@,
    }
}

/// The terminator that closes the assignment of `f`.
pub open spec fn spec_field_suf(f: ScrapedField) -> Seq<char> {
    match f {
        ScrapedField::SignalQuality => "%\";"@,
        _ => "\";"@,
    }
}

pub open spec fn spec_scan(doc: Seq<char>, f: ScrapedField) -> Option<Seq<char>> {
    spec_scan_field(spec_lines(doc), spec_field_pre(f), spec_field_suf(f))
}

/// The first required assignment missing from the document, in reporting
/// order, if any.
pub open spec fn spec_missing(doc: Seq<char>) -> Option<ScrapedField> {
    if spec_scan(doc, ScrapedField::SerialNumber) is None {
        Some(ScrapedField::SerialNumber)
    } else if spec_scan(doc, ScrapedField::CurrentPower) is None {
        Some(ScrapedField::CurrentPower)
    } else if spec_scan(doc, ScrapedField::YieldToday) is None {
        Some(ScrapedField::YieldToday)
    } else if spec_scan(doc, ScrapedField::TotalYield) is None {
        Some(ScrapedField::TotalYield)
    } else if spec_scan(doc, ScrapedField::RouterSsid) is None {
        Some(ScrapedField::RouterSsid)
    } else if spec_scan(doc, ScrapedField::SignalQuality) is None {
        Some(ScrapedField::SignalQuality)
    } else {
        None
    }
}

/// A scraped numeric value: the plain decimal reading, or zero when the
/// text is not a plain decimal in range.
pub open spec fn spec_power_of(v: Seq<char>) -> u64 {
    if v.len() > 0 && spec_all_digits(v) && spec_dec_val(v) <= u64::MAX {
        spec_dec_val(v) as u64
    } else {
        0
    }
}

pub open spec fn spec_quality_of(v: Seq<char>) -> u8 {
    if v.len() > 0 && spec_all_digits(v) && spec_dec_val(v) <= u8::MAX {
        spec_dec_val(v) as u8
    } else {
        0
    }
}

// ---------------------------------------------------------------------------
// The parsed fragment
// ---------------------------------------------------------------------------

/// The fragment scraped from one inverter document.  The two yield figures
/// keep the decimal text of the document: the library holds no floating
/// point, consumers convert on their side of the boundary.
#[derive(Debug, PartialEq)]
pub struct DeyeSolarData {
    pub serial_number: String,
    pub current_power: u64,
    pub yield_today: String,
    pub total_yield: String,
    pub wireless_router_ssid: String,
    pub wireless_signal_quality: u8,
}

pub ghost struct DeyeDataView {
    pub serial_number: Seq<char>,
    pub current_power: u64,
    pub yield_today: Seq<char>,
    pub total_yield: Seq<char>,
    pub wireless_router_ssid: Seq<char>,
    pub wireless_signal_quality: u8,
}

impl View for DeyeSolarData {
    type V = DeyeDataView;

    open spec fn view(&self) -> DeyeDataView {
        DeyeDataView {
            serial_number: self.serial_number@,
            current_power: self.current_power,
            yield_today: self.yield_today@,
            total_yield: self.total_yield@,
            wireless_router_ssid: self.wireless_router_ssid@,
            wireless_signal_quality: self.wireless_signal_quality,
        }
    }
}

/// What parsing a whole document yields.
pub open spec fn spec_parse(doc: Seq<char>) -> Result<DeyeDataView, ScrapedField> {
    match spec_missing(doc) {
        Some(f) => Err(f),
        None => Ok(
            DeyeDataView {
                serial_number: spec_trim_end(spec_scan(doc, ScrapedField::SerialNumber)->0),
                current_power: spec_power_of(spec_scan(doc, ScrapedField::CurrentPower)->0),
                yield_today: spec_scan(doc, ScrapedField::YieldToday)->0,
                total_yield: spec_scan(doc, ScrapedField::TotalYield)->0,
                wireless_router_ssid: spec_scan(doc, ScrapedField::RouterSsid)->0,
                wireless_signal_quality: spec_quality_of(
                    spec_scan(doc, ScrapedField::SignalQuality)->0,
                ),
            },
        ),
    }
}

/// Value of one line under one assignment rule: outer `None` when the
/// prefix does not match at all.
fn match_assignment(line: &str, pre: &str, suf: &str) -> (r: Option<Option<String>>)
    ensures
        match r {
            None => !spec_starts_with(line@, pre@),
            Some(v) => spec_starts_with(line@, pre@) && match v {
                Some(s) => spec_strip_between(line@, pre@, suf@) == Some(s@),
                None => spec_strip_between(line@, pre@, suf@) is None,
            },
        },
{
    if !str_starts_with(line, pre) {
        return None;
    }
    let pre_len = pre.unicode_len();
    let line_len = line.unicode_len();
    let rest = line.substring_char(pre_len, line_len);
    assert(rest@ =~= line@.skip(pre@.len() as int));
    if !str_ends_with(rest, suf) {
        return Some(None);
    }
    let suf_len = suf.unicode_len();
    let value = rest.substring_char(0, rest.unicode_len() - suf_len);
    assert(value@ =~= line@.subrange(pre@.len() as int, line@.len() - suf@.len()));
    Some(Some(value.to_owned()))
}

pub open spec fn spec_opt_text(o: Option<String>) -> Option<Seq<char>> {
    match o {
        Some(s) => Some(s@),
        None => None,
    }
}

impl DeyeSolarData {
    /// Scans the document line by line for the recognized assignments; the
    /// last occurrence of an assignment wins.  Fails with the first field,
    /// in reporting order, whose assignment was never completed.
    pub fn parse(doc: &str) -> (r: Result<DeyeSolarData, ScrapedField>)
        ensures
            match r {
                Ok(d) => spec_parse(doc@) == Ok::<DeyeDataView, ScrapedField>(d@),
                Err(f) => spec_parse(doc@) == Err::<DeyeDataView, ScrapedField>(f),
            },
    {
        let lines = split_lines(doc);
        let ghost lv = spec_lines(doc@);
        let n = lines.len();
        let mut sn: Option<String> = None;
        let mut now_p: Option<String> = None;
        let mut today_e: Option<String> = None;
        let mut total_e: Option<String> = None;
        let mut ssid: Option<String> = None;
        let mut rssi: Option<String> = None;
        let mut k: usize = 0;
        proof {
            assert(lv.take(0) =~= Seq::<Seq<char>>::empty());
        }
        while k < n
            invariant
                k <= n,
                n == lines@.len(),
                lines@.map_values(|l: String| l@) == lv,
                spec_opt_text(sn) == spec_scan_field(
                    lv.take(k as int),
                    spec_field_pre(ScrapedField::SerialNumber),
                    spec_field_suf(ScrapedField::SerialNumber),
                ),
                spec_opt_text(now_p) == spec_scan_field(
                    lv.take(k as int),
                    spec_field_pre(ScrapedField::CurrentPower),
                    spec_field_suf(ScrapedField::CurrentPower),
                ),
                spec_opt_text(today_e) == spec_scan_field(
                    lv.take(k as int),
                    spec_field_pre(ScrapedField::YieldToday),
                    spec_field_suf(ScrapedField::YieldToday),
                ),
                spec_opt_text(total_e) == spec_scan_field(
                    lv.take(k as int),
                    spec_field_pre(ScrapedField::TotalYield),
                    spec_field_suf(ScrapedField::TotalYield),
                ),
                spec_opt_text(ssid) == spec_scan_field(
                    lv.take(k as int),
                    spec_field_pre(ScrapedField::RouterSsid),
                    spec_field_suf(ScrapedField::RouterSsid),
                ),
                spec_opt_text(rssi) == spec_scan_field(
                    lv.take(k as int),
                    spec_field_pre(ScrapedField::SignalQuality),
                    spec_field_suf(ScrapedField::SignalQuality),
                ),
            decreases n - k,
        {
            let line = &lines[k];
            proof {
                assert(lines@.map_values(|l: String| l@)[k as int] == line@);
                assert(lv.take(k + 1).drop_last() =~= lv.take(k as int));
                assert(lv.take(k + 1).last() == line@);
            }
            if let Some(v) = match_assignment(line.as_str(), "var webdata_sn = \"", "\";") {
                sn = v;
            }
            if let Some(v) = match_assignment(line.as_str(), "var webdata_now_p = \"", "\";") {
                now_p = v;
            }
            if let Some(v) = match_assignment(line.as_str(), "var webdata_today_e = \"", "\";") {
                today_e = v;
            }
            if let Some(v) = match_assignment(line.as_str(), "var webdata_total_e = \"", "\";") {
                total_e = v;
            }
            if let Some(v) = match_assignment(line.as_str(), "var cover_sta_ssid = \"", "\";") {
                ssid = v;
            }
            if let Some(v) = match_assignment(line.as_str(), "var cover_sta_rssi = \"", "%\";") {
                rssi = v;
            }
            k += 1;
        }
        proof {
            assert(lv.take(n as int) =~= lv);
        }
        let serial_raw = match sn {
            Some(v) => v,
            None => {
                return Err(ScrapedField::SerialNumber);
            },
        };
        let power_raw = match now_p {
            Some(v) => v,
            None => {
                return Err(ScrapedField::CurrentPower);
            },
        };
        let yield_today = match today_e {
            Some(v) => v,
            None => {
                return Err(ScrapedField::YieldToday);
            },
        };
        let total_yield = match total_e {
            Some(v) => v,
            None => {
                return Err(ScrapedField::TotalYield);
            },
        };
        let wireless_router_ssid = match ssid {
            Some(v) => v,
            None => {
                return Err(ScrapedField::RouterSsid);
            },
        };
        let quality_raw = match rssi {
            Some(v) => v,
            None => {
                return Err(ScrapedField::SignalQuality);
            },
        };
        let serial_number = trim_end(serial_raw.as_str());
        let current_power = match parse_u64_digits(power_raw.as_str()) {
            Some(v) => v,
            None => 0,
        };
        let wireless_signal_quality: u8 = match parse_u64_digits(quality_raw.as_str()) {
            Some(v) => if v <= 255 {
                v as u8
            } else {
                0
            },
            None => 0,
        };
        Ok(
            DeyeSolarData {
                serial_number,
                current_power,
                yield_today,
                total_yield,
                wireless_router_ssid,
                wireless_signal_quality,
            },
        )
    }
}

/// The assignment that closes the variable block: once it has been seen the
/// transport may stop reading the streamed body.
pub fn has_sentinel(data: &str) -> (r: bool)
    ensures
        r == spec_contains_str(data@, "var status_c = "@),
{
    crate::text::str_contains(data, "var status_c = ")
}

// ---------------------------------------------------------------------------
// The cycle driver
// ---------------------------------------------------------------------------

/// What the transport reports back for the document request.
pub enum DeyeResponse {
    /// The request was canceled at the transport level: a soft stop.
    Canceled,
    /// Any other transport-level failure.
    Failed,
    /// A response arrived; the body is the decoded document, or nothing if
    /// it could not be decoded as text.
    Status { code: u16, www_authenticate: bool, body: Option<String> },
}

pub ghost enum DeyeResponseView {
    Canceled,
    Failed,
    Status { code: u16, www_authenticate: bool, body: Option<Seq<char>> },
}

impl View for DeyeResponse {
    type V = DeyeResponseView;

    open spec fn view(&self) -> DeyeResponseView {
        match self {
            DeyeResponse::Canceled => DeyeResponseView::Canceled,
            DeyeResponse::Failed => DeyeResponseView::Failed,
            DeyeResponse::Status { code, www_authenticate, body } => DeyeResponseView::Status {
                code: *code,
                www_authenticate: *www_authenticate,
                body: match body {
                    Some(b) => Some(b@),
                    None => None,
                },
            },
        }
    }
}

/// One step of the cycle: next phase, published snapshot, and what to do.
pub open spec fn spec_deye_step(
    published: Option<DeyeDataView>,
    r: DeyeResponseView,
) -> (CyclePhase, Option<DeyeDataView>, Result<FetchAction, FetchError>) {
    match r {
        DeyeResponseView::Canceled => (CyclePhase::Idle, published, Ok(FetchAction::Done)),
        DeyeResponseView::Failed => (CyclePhase::Failed, published, Err(FetchError::Transport)),
        DeyeResponseView::Status { code, www_authenticate, body } => {
            if code == 200 {
                match body {
                    Some(doc) => match spec_parse(doc) {
                        Ok(d) => (CyclePhase::Done, Some(d), Ok(FetchAction::Done)),
                        Err(f) => (
                            CyclePhase::Failed,
                            published,
                            Err(FetchError::Data(DataFailure::MissingField(f))),
                        ),
                    },
                    None => (
                        CyclePhase::Failed,
                        published,
                        Err(FetchError::Data(DataFailure::Malformed)),
                    ),
                }
            } else if code == 401 && www_authenticate {
                (CyclePhase::Fetching, published, Ok(FetchAction::Http))
            } else {
                (CyclePhase::Failed, published, Err(FetchError::Protocol(code)))
            }
        },
    }
}

/// Driver for the text-scrape profile: one document request per cycle.
pub struct DeyeCycle {
    phase: CyclePhase,
    publisher: SnapshotPublisher<DeyeSolarData>,
}

impl DeyeCycle {
    pub closed spec fn spec_phase(&self) -> CyclePhase {
        self.phase
    }

    pub closed spec fn spec_published(&self) -> Option<DeyeDataView> {
        match self.publisher.spec_latest() {
            Some(d) => Some(d@),
            None => None,
        }
    }

    pub fn new() -> (r: DeyeCycle)
        ensures
            r.spec_phase() == CyclePhase::Idle,
            r.spec_published() is None,
    {
        DeyeCycle { phase: CyclePhase::Idle, publisher: SnapshotPublisher::new() }
    }

    /// Starts a cycle: the single document call is pending.
    pub fn fetch(&mut self) -> (r: FetchAction)
        ensures
            final(self).spec_phase() == CyclePhase::Fetching,
            final(self).spec_published() == old(self).spec_published(),
            r == FetchAction::Http,
    {
        self.phase = CyclePhase::Fetching;
        FetchAction::Http
    }

    /// The plan of the document request.
    pub fn create_http_request(&self) -> (r: HttpRequestPlan)
        ensures
            r@ == spec_deye_plan(),
    {
        let mut headers: Vec<(String, String)> = Vec::new();
        headers.push(("Connection".to_owned(), "keep-alive".to_owned()));
        headers.push(("Accept".to_owned(), "text/html".to_owned()));
        let plan = HttpRequestPlan {
            method: HttpMethod::Get,
            path: "/status.html".to_owned(),
            headers,
            body: None,
            hint: ParseHint::Document,
        };
        proof {
            assert(plan@.headers =~= spec_deye_plan().headers);
        }
        plan
    }

    /// Digests the document response: parse, then publish on the terminal
    /// step; a failed parse aborts the cycle and publishes nothing.
    pub fn process_http_response(&mut self, r: DeyeResponse) -> (res: Result<
        FetchAction,
        FetchError,
    >)
        requires
            old(self).spec_phase() == CyclePhase::Fetching,
        ensures
            ({
                let step = spec_deye_step(old(self).spec_published(), r@);
                final(self).spec_phase() == step.0 && final(self).spec_published() == step.1 && res
                    == step.2
            }),
    {
        match r {
            DeyeResponse::Canceled => {
                self.phase = CyclePhase::Idle;
                Ok(FetchAction::Done)
            },
            DeyeResponse::Failed => {
                self.phase = CyclePhase::Failed;
                Err(FetchError::Transport)
            },
            DeyeResponse::Status { code, www_authenticate, body } => {
                if code == 200 {
                    match body {
                        Some(doc) => match DeyeSolarData::parse(doc.as_str()) {
                            Ok(d) => {
                                self.publisher.publish(d);
                                self.phase = CyclePhase::Done;
                                Ok(FetchAction::Done)
                            },
                            Err(f) => {
                                self.phase = CyclePhase::Failed;
                                Err(FetchError::Data(DataFailure::MissingField(f)))
                            },
                        },
                        None => {
                            self.phase = CyclePhase::Failed;
                            Err(FetchError::Data(DataFailure::Malformed))
                        },
                    }
                } else if code == 401 && www_authenticate {
                    Ok(FetchAction::Http)
                } else {
                    self.phase = CyclePhase::Failed;
                    Err(FetchError::Protocol(code))
                }
            },
        }
    }

    /// Read-only access to the last complete fragment.
    pub fn latest(&self) -> (r: Option<&DeyeSolarData>)
        ensures
            match r {
                Some(d) => self.spec_published() == Some(d@),
                None => self.spec_published() is None,
            },
    {
        self.publisher.latest()
    }
}

/// The fixed plan of the document request.
pub open spec fn spec_deye_plan() -> PlanView {
    PlanView {
        method: HttpMethod::Get,
        path: "/status.html"@,
        headers: seq![
            ("Connection"@, "keep-alive"@),
            ("Accept"@, "text/html"@),
        ],
        body: None,
        hint: ParseHint::Document,
    }
}

/// An aborted cycle never touches the published snapshot: whatever error a
/// step reports, the held value stays what it was before the step.
pub proof fn lemma_deye_no_publish_on_failure(published: Option<DeyeDataView>, r: DeyeResponseView)
    ensures
        spec_deye_step(published, r).2 is Err ==> spec_deye_step(published, r).1 == published,
{
}

} // verus!
