//! HTTP REST interface and event streaming logic.
//!
//! The hub mirrors a slice of the receiver's state, answers HTTP requests
//! about it, and frames radio activity as server-sent events. Everything
//! here is decision and formatting logic: the sockets, the readiness poll,
//! and the actual writes live outside.

use vstd::prelude::*;

use crate::recv::{LinkControl, Tsbk};
use crate::stats::Stats;
use crate::talkgroups::CryptoAlgorithm;

verus! {

/// State update events.
#[derive(Copy, Clone, PartialEq, Eq, Structural, Debug)]
pub enum StateEvent {
    /// Control channel frequency has been committed.
    UpdateCtlFreq(u32),
    /// Channel parameters have been modified.
    UpdateChannelParams(Tsbk),
    /// Encrypted talkgroup encountered.
    UpdateEncrypted(u16, CryptoAlgorithm),
}

/// Events for the hub.
#[derive(Copy, Clone, PartialEq, Eq, Structural, Debug)]
pub enum HubEvent {
    /// Some state update.
    State(StateEvent),
    /// Center frequency was changed.
    UpdateCurFreq(u32),
    /// Current talkgroup has changed.
    UpdateTalkGroup(u16),
    /// Power of received signal, in hundredths of a dBm.
    UpdateSignalPower(i32),
    /// Trunking control packet was received.
    TrunkingControl(Tsbk),
    /// Link control packet was received.
    LinkControl(LinkControl),
    /// Updated stat counters.
    UpdateStats(Stats),
}

/// Token tag for the listening socket.
pub const TOK_CONNS: u32 = 0x8000_0000;

/// Token tag for the cross-task event channel.
pub const TOK_EVENTS: u32 = 0x4000_0000;

/// Token tag for an accepted request socket.
pub const TOK_REQUEST: u32 = 0x2000_0000;

/// Mask of the bits a file descriptor may use inside a token.
pub const FD_MASK: u32 = 0x00ff_ffff;

/// Mask of the token's tag bits.
pub const TAG_MASK: u32 = 0xff00_0000;

/// Async event sources, packed into small tokens.
///
/// A token packs a class tag into the upper bits and a 24-bit file
/// descriptor into the lower bits, which keeps it within 32 bits even on
/// platforms with a 32-bit token type.
#[derive(Copy, Clone, PartialEq, Eq, Structural, Debug)]
pub enum HubToken {
    /// Socket connection.
    Conns,
    /// Channel events.
    Events,
    /// Request stream with contained file descriptor.
    Request(u32),
}

/// The packed form of a token.
pub open spec fn spec_token_encode(t: HubToken) -> u32 {
    match t {
        HubToken::Conns => TOK_CONNS,
        HubToken::Events => TOK_EVENTS,
        HubToken::Request(fd) => TOK_REQUEST | fd,
    }
}

/// The token a packed value decodes to, when its tag is known.
pub open spec fn spec_token_decode(v: u32) -> Option<HubToken> {
    if v & TAG_MASK == TOK_CONNS {
        Some(HubToken::Conns)
    } else if v & TAG_MASK == TOK_EVENTS {
        Some(HubToken::Events)
    } else if v & TAG_MASK == TOK_REQUEST {
        Some(HubToken::Request(v & FD_MASK))
    } else {
        None
    }
}

impl HubToken {
    /// A token fits its packing when any file descriptor stays within its
    /// 24 bits.
    pub open spec fn wf(self) -> bool {
        match self {
            HubToken::Request(fd) => fd <= FD_MASK,
            _ => true,
        }
    }

    /// The token for an accepted request socket.
    pub fn for_request(fd: u32) -> (r: HubToken)
        requires
            fd <= FD_MASK,
        ensures
            r == HubToken::Request(fd),
            r.wf(),
    {
        HubToken::Request(fd)
    }

    /// Pack the token into its numeric form.
    pub fn encode(self) -> (r: u32)
        requires
            self.wf(),
        ensures
            r == spec_token_encode(self),
    {
        match self {
            HubToken::Conns => TOK_CONNS,
            HubToken::Events => TOK_EVENTS,
            HubToken::Request(fd) => TOK_REQUEST | fd,
        }
    }

    /// Unpack a numeric token; values with an unknown tag are refused.
    pub fn decode(v: u32) -> (r: Option<HubToken>)
        ensures
            r == spec_token_decode(v),
    {
        let tag = v & TAG_MASK;
        if tag == TOK_CONNS {
            Some(HubToken::Conns)
        } else if tag == TOK_EVENTS {
            Some(HubToken::Events)
        } else if tag == TOK_REQUEST {
            Some(HubToken::Request(v & FD_MASK))
        } else {
            None
        }
    }
}

/// Packing then unpacking gives the token back: the tags occupy disjoint
/// bits from any 24-bit file descriptor.
pub proof fn lemma_token_round_trip(t: HubToken)
    requires
        t.wf(),
    ensures
        spec_token_decode(spec_token_encode(t)) == Some(t),
{
    match t {
        HubToken::Conns => {
            assert(0x8000_0000u32 & 0xff00_0000u32 == 0x8000_0000u32) by (bit_vector);
        },
        HubToken::Events => {
            assert(0x4000_0000u32 & 0xff00_0000u32 == 0x4000_0000u32) by (bit_vector);
        },
        HubToken::Request(fd) => {
            assert((0x2000_0000u32 | fd) & 0xff00_0000u32 == 0x2000_0000u32 && (0x2000_0000u32
                | fd) & 0x00ff_ffffu32 == fd) by (bit_vector)
                requires
                    fd <= 0x00ff_ffffu32,
            ;
        },
    }
}

/// Available routes.
#[derive(Copy, Clone, PartialEq, Eq, Structural, Debug)]
pub enum Route {
    /// Subscribe to SSE stream.
    Subscribe,
    /// Get/Set control channel frequency.
    CtlFreq,
    /// Get current known encrypted talkgroups.
    Encrypted,
    /// Reset stat counters.
    ResetStats,
}

/// HTTP request methods the hub distinguishes.
#[derive(Copy, Clone, PartialEq, Eq, Structural, Debug)]
pub enum HttpMethod {
    /// Read a resource.
    Get,
    /// Replace a resource.
    Put,
    /// Ask for the allowed methods.
    Options,
    /// Any other valid method token.
    Other,
}

/// Response statuses the hub can answer with.
#[derive(Copy, Clone, PartialEq, Eq, Structural, Debug)]
pub enum Status {
    /// The request succeeded.
    Okay,
    /// The request was malformed.
    BadRequest,
    /// No route matches the path.
    NotFound,
    /// The route exists but not for this method.
    MethodNotAllowed,
    /// The subscriber table is full.
    TooManyRequests,
    /// An internal failure.
    InternalServerError,
    /// The protocol version is unsupported.
    NotImplemented,
}

impl Status {
    /// The status' numeric code.
    pub fn code(&self) -> (r: u16)
        ensures
            r == match *self {
                Status::Okay => 200u16,
                Status::BadRequest => 400u16,
                Status::NotFound => 404u16,
                Status::MethodNotAllowed => 405u16,
                Status::TooManyRequests => 429u16,
                Status::InternalServerError => 500u16,
                Status::NotImplemented => 501u16,
            },
    {
        match *self {
            Status::Okay => 200,
            Status::BadRequest => 400,
            Status::NotFound => 404,
            Status::MethodNotAllowed => 405,
            Status::TooManyRequests => 429,
            Status::InternalServerError => 500,
            Status::NotImplemented => 501,
        }
    }
}

/// The route a path names.
pub open spec fn spec_route(path: Seq<u8>) -> Option<Route> {
    if path == crate::lit::spec_subscribe() {
        Some(Route::Subscribe)
    } else if path == crate::lit::spec_ctlfreq_path() {
        Some(Route::CtlFreq)
    } else if path == crate::lit::spec_encrypted_path() {
        Some(Route::Encrypted)
    } else if path == crate::lit::spec_stats_reset_path() {
        Some(Route::ResetStats)
    } else {
        None
    }
}

/// Match a path against the hub's routes.
pub fn route_from_path(path: &[u8]) -> (r: Option<Route>)
    ensures
        r == spec_route(path@),
{
    let mut lit: Vec<u8> = Vec::new();
    crate::lit::push_subscribe(&mut lit);
    if crate::fmt::bytes_eq(path, lit.as_slice()) {
        return Some(Route::Subscribe);
    }
    let mut lit: Vec<u8> = Vec::new();
    crate::lit::push_ctlfreq_path(&mut lit);
    if crate::fmt::bytes_eq(path, lit.as_slice()) {
        return Some(Route::CtlFreq);
    }
    let mut lit: Vec<u8> = Vec::new();
    crate::lit::push_encrypted_path(&mut lit);
    if crate::fmt::bytes_eq(path, lit.as_slice()) {
        return Some(Route::Encrypted);
    }
    let mut lit: Vec<u8> = Vec::new();
    crate::lit::push_stats_reset_path(&mut lit);
    if crate::fmt::bytes_eq(path, lit.as_slice()) {
        return Some(Route::ResetStats);
    }
    None
}

/// The method a request token names: the three the hub answers, a marker
/// for any other valid token, and nothing for an empty or malformed one.
pub open spec fn spec_parse_method(s: Seq<u8>) -> Option<HttpMethod> {
    if s == crate::lit::spec_get() {
        Some(HttpMethod::Get)
    } else if s == crate::lit::spec_put() {
        Some(HttpMethod::Put)
    } else if s == crate::lit::spec_options() {
        Some(HttpMethod::Options)
    } else if s.len() == 0 || !vstd::utf8::valid_utf8(s) {
        None
    } else {
        Some(HttpMethod::Other)
    }
}

/// Relies on uhttp_method's `Method` parser: the standard tokens map to
/// their variants, any other non-empty string is an extension, and the
/// empty string is refused.
#[verifier::external_body]
fn parse_method_token(token: &[u8]) -> (r: Option<HttpMethod>)
    ensures
        r == spec_parse_method(token@),
{
    let s = match core::str::from_utf8(token) {
        Ok(s) => s,
        Err(_) => return None,
    };
    match s.parse::<uhttp_method::Method>() {
        Ok(uhttp_method::Method::Get) => Some(HttpMethod::Get),
        Ok(uhttp_method::Method::Put) => Some(HttpMethod::Put),
        Ok(uhttp_method::Method::Options) => Some(HttpMethod::Options),
        Ok(_) => Some(HttpMethod::Other),
        Err(()) => None,
    }
}

/// Position of the first path delimiter — a query or fragment marker — or
/// the end of the target.
pub open spec fn spec_path_end(s: Seq<u8>) -> int
    decreases s.len(),
{
    if s.len() == 0 {
        0
    } else if s[0] == 63 || s[0] == 35 {
        0
    } else {
        1 + spec_path_end(s.drop_first())
    }
}

/// The path of a request target: everything before the first query or
/// fragment marker, or a bare slash when that is empty.
pub open spec fn spec_path_of(s: Seq<u8>) -> Seq<u8> {
    let p = s.subrange(0, spec_path_end(s));
    if p.len() == 0 {
        seq![47u8]
    } else {
        p
    }
}

/// The delimiter position stays within the target.
pub proof fn lemma_path_end_bounds(s: Seq<u8>)
    ensures
        0 <= spec_path_end(s) <= s.len(),
    decreases s.len(),
{
    if s.len() > 0 && !(s[0] == 63 || s[0] == 35) {
        lemma_path_end_bounds(s.drop_first());
    }
}

/// Relies on uhttp_uri's `HttpResource` splitter: the path is everything
/// before the first query or fragment marker — both are ASCII, so byte and
/// character positions agree — and an empty path becomes a bare slash.
/// A target that is not UTF-8 is refused.
#[verifier::external_body]
fn resource_path(target: &[u8]) -> (r: Option<Vec<u8>>)
    ensures
        r is Some <==> vstd::utf8::valid_utf8(target@),
        r matches Some(p) ==> p@ == spec_path_of(target@),
{
    let s = match core::str::from_utf8(target) {
        Ok(s) => s,
        Err(_) => return None,
    };
    Some(uhttp_uri::HttpResource::new(s).path.as_bytes().to_vec())
}

/// Position of the first space, or the end of the line.
pub open spec fn spec_space_end(s: Seq<u8>) -> int
    decreases s.len(),
{
    if s.len() == 0 {
        0
    } else if s[0] == 32 {
        0
    } else {
        1 + spec_space_end(s.drop_first())
    }
}

/// The space position stays within the line.
pub proof fn lemma_space_end_bounds(s: Seq<u8>)
    ensures
        0 <= spec_space_end(s) <= s.len(),
        spec_space_end(s) < s.len() ==> s[spec_space_end(s)] == 32,
        forall|j: int| 0 <= j < spec_space_end(s) ==> s[j] != 32,
    decreases s.len(),
{
    if s.len() > 0 && s[0] != 32 {
        lemma_space_end_bounds(s.drop_first());
        assert forall|j: int| 0 <= j < spec_space_end(s) implies s[j] != 32 by {
            if j > 0 {
                assert(s.drop_first()[j - 1] != 32);
            }
        }
    }
}

/// How a version token fails: not HTTP syntax at all, or a version other
/// than 1.1.
pub open spec fn spec_check_version(v: Seq<u8>) -> Option<Status> {
    if v == crate::lit::spec_http11() {
        None
    } else if v.len() == 8 && v.subrange(0, 5) == crate::lit::spec_http11().subrange(0, 5)
        && crate::json::is_digit(v[5]) && v[6] == 46 && crate::json::is_digit(v[7]) {
        Some(Status::NotImplemented)
    } else {
        Some(Status::BadRequest)
    }
}

/// Check a version token; a well-formed version other than 1.1 is
/// unsupported, anything else is malformed.
fn check_version(v: &[u8]) -> (r: Option<Status>)
    ensures
        r == spec_check_version(v@),
{
    let mut lit: Vec<u8> = Vec::new();
    crate::lit::push_http11(&mut lit);
    if crate::fmt::bytes_eq(v, lit.as_slice()) {
        return None;
    }
    if v.len() == 8 && v[0] == 72 && v[1] == 84 && v[2] == 84 && v[3] == 80 && v[4] == 47 && 48
        <= v[5] && v[5] <= 57 && v[6] == 46 && 48 <= v[7] && v[7] <= 57 {
        proof {
            assert(v@.subrange(0, 5) =~= crate::lit::spec_http11().subrange(0, 5));
        }
        return Some(Status::NotImplemented);
    }
    proof {
        if v@.len() == 8 && v@.subrange(0, 5) == crate::lit::spec_http11().subrange(0, 5) {
            assert forall|i: int| 0 <= i < 5 implies v@[i] == crate::lit::spec_http11()[i] by {
                assert(v@.subrange(0, 5)[i] == v@[i]);
                assert(crate::lit::spec_http11().subrange(0, 5)[i]
                    == crate::lit::spec_http11()[i]);
            }
        }
    }
    Some(Status::BadRequest)
}

/// What a request line resolves to: the method and route it names, or the
/// status to fail with. The line is split at single spaces into method,
/// target, and version; the version must be 1.1; the target's path must
/// name a route.
pub open spec fn spec_route_request(line: Seq<u8>) -> Result<(HttpMethod, Route), Status> {
    let a = spec_space_end(line);
    if a >= line.len() {
        Err(Status::BadRequest)
    } else {
        let rest = line.subrange(a + 1, line.len() as int);
        let b = spec_space_end(rest);
        if b >= rest.len() {
            Err(Status::BadRequest)
        } else {
            let mtok = line.subrange(0, a);
            let target = rest.subrange(0, b);
            let vtok = rest.subrange(b + 1, rest.len() as int);
            match spec_parse_method(mtok) {
                None => Err(Status::BadRequest),
                Some(m) => match spec_check_version(vtok) {
                    Some(st) => Err(st),
                    None => if !vstd::utf8::valid_utf8(target) {
                        Err(Status::BadRequest)
                    } else {
                        match spec_route(spec_path_of(target)) {
                            Some(rt) => Ok((m, rt)),
                            None => Err(Status::NotFound),
                        }
                    },
                },
            }
        }
    }
}

/// Resolve a request line to its method and route, or to the status it
/// fails with.
pub fn route_request(line: &[u8]) -> (r: Result<(HttpMethod, Route), Status>)
    ensures
        r == spec_route_request(line@),
{
    let a = find_space(line);
    if a >= line.len() {
        return Err(Status::BadRequest);
    }
    let rest = vstd::slice::slice_subrange(line, a + 1, line.len());
    let b = find_space(rest);
    if b >= rest.len() {
        return Err(Status::BadRequest);
    }
    let mtok = vstd::slice::slice_subrange(line, 0, a);
    let target = vstd::slice::slice_subrange(rest, 0, b);
    let vtok = vstd::slice::slice_subrange(rest, b + 1, rest.len());
    let m = match parse_method_token(mtok) {
        Some(m) => m,
        None => {
            return Err(Status::BadRequest);
        },
    };
    match check_version(vtok) {
        Some(st) => {
            return Err(st);
        },
        None => {},
    }
    let path = match resource_path(target) {
        Some(p) => p,
        None => {
            return Err(Status::BadRequest);
        },
    };
    match route_from_path(path.as_slice()) {
        Some(rt) => Ok((m, rt)),
        None => Err(Status::NotFound),
    }
}

/// What the hub does with one request.
#[derive(Copy, Clone, PartialEq, Eq, Structural, Debug)]
pub enum RequestAction {
    /// Send the SSE header and keep the socket as a subscriber.
    StartStream,
    /// Answer with the control frequency as a JSON body.
    SendCtlFreq(u32),
    /// Forward the new control frequency to the receiver and answer `200`.
    SetCtlFreq(u32),
    /// Answer with the known encrypted talkgroups as a JSON body.
    SendEncrypted,
    /// Forward a statistics reset to the receiver and answer `200`.
    ResetStats,
    /// Answer a CORS preflight.
    Cors,
    /// Answer with a failure status and close.
    Fail(Status),
}

/// The hub's answer to one request: the routed method decides, a full
/// subscriber table refuses new streams, and a frequency update must carry
/// a well-formed body.
pub open spec fn spec_request_action(
    line: Seq<u8>,
    body: Seq<u8>,
    streamers_full: bool,
    ctlfreq: u32,
) -> RequestAction {
    match spec_route_request(line) {
        Err(st) => RequestAction::Fail(st),
        Ok((m, rt)) => if m is Options {
            RequestAction::Cors
        } else {
            match (m, rt) {
                (HttpMethod::Get, Route::Subscribe) => if streamers_full {
                    RequestAction::Fail(Status::TooManyRequests)
                } else {
                    RequestAction::StartStream
                },
                (HttpMethod::Get, Route::CtlFreq) => RequestAction::SendCtlFreq(ctlfreq),
                (HttpMethod::Put, Route::CtlFreq) => match crate::json::spec_parse_ctlfreq(body) {
                    Some(f) => RequestAction::SetCtlFreq(f),
                    None => RequestAction::Fail(Status::BadRequest),
                },
                (HttpMethod::Get, Route::Encrypted) => RequestAction::SendEncrypted,
                (HttpMethod::Put, Route::ResetStats) => RequestAction::ResetStats,
                _ => RequestAction::Fail(Status::MethodNotAllowed),
            }
        },
    }
}

/// Decide what to do with one request.
pub fn request_action(line: &[u8], body: &[u8], streamers_full: bool, ctlfreq: u32) -> (r:
    RequestAction)
    ensures
        r == spec_request_action(line@, body@, streamers_full, ctlfreq),
{
    let (m, rt) = match route_request(line) {
        Ok(p) => p,
        Err(st) => {
            return RequestAction::Fail(st);
        },
    };
    if let HttpMethod::Options = m {
        return RequestAction::Cors;
    }
    match (m, rt) {
        (HttpMethod::Get, Route::Subscribe) => if streamers_full {
            RequestAction::Fail(Status::TooManyRequests)
        } else {
            RequestAction::StartStream
        },
        (HttpMethod::Get, Route::CtlFreq) => RequestAction::SendCtlFreq(ctlfreq),
        (HttpMethod::Put, Route::CtlFreq) => match crate::json::parse_ctlfreq(body) {
            Some(f) => RequestAction::SetCtlFreq(f),
            None => RequestAction::Fail(Status::BadRequest),
        },
        (HttpMethod::Get, Route::Encrypted) => RequestAction::SendEncrypted,
        (HttpMethod::Put, Route::ResetStats) => RequestAction::ResetStats,
        _ => RequestAction::Fail(Status::MethodNotAllowed),
    }
}

/// Holds a copy of certain state held in other tasks.
pub struct State {
    /// Current control channel frequency.
    pub ctlfreq: u32,
    /// Channel parameters for current site.
    pub channels: crate::recv::ChannelParamsMap,
    /// Known encrypted talkgroups.
    pub encrypted: crate::talkgroups::GroupCryptoMap,
}

impl Default for State {
    /// No frequency committed, no channel parameters, nothing encrypted.
    fn default() -> (r: Self)
        ensures
            r.wf(),
            r.ctlfreq == u32::MAX,
            r.channels.params@ == crate::recv::empty_channels(),
            r.encrypted.entries@.len() == 0,
    {
        let r = State {
            ctlfreq: u32::MAX,
            channels: crate::recv::ChannelParamsMap::new(),
            encrypted: crate::tgmap::TgMap::new(),
        };
        proof {
            assert(r.channels.params@ =~= crate::recv::empty_channels());
        }
        r
    }
}

impl State {
    /// The mirrored tables are well-formed.
    pub open spec fn wf(self) -> bool {
        self.channels.wf() && self.encrypted.wf()
    }

    /// Fold one state event into the mirror: a committed control
    /// frequency, a channel-parameters change, or a newly observed
    /// encrypted talkgroup.
    pub fn update(&mut self, e: StateEvent)
        requires
            old(self).wf(),
        ensures
            final(self).wf(),
            match e {
                StateEvent::UpdateCtlFreq(f) => final(self).ctlfreq == f && final(self).channels.params@
                    == old(self).channels.params@ && final(self).encrypted.entries@ == old(
                    self,
                ).encrypted.entries@,
                StateEvent::UpdateChannelParams(t) => final(self).ctlfreq == old(self).ctlfreq
                    && final(self).encrypted.entries@ == old(self).encrypted.entries@ && (
                match t.body {
                    crate::recv::TsbkBody::ChannelParamsUpdate {
                        id,
                        base,
                        offset,
                        spacing,
                        bandwidth,
                    } => if id < 16 {
                        final(self).channels.params@ == old(self).channels.params@.update(
                            id as int,
                            Some(
                                crate::recv::ChannelParams::spec_from_raw(
                                    base,
                                    offset,
                                    spacing,
                                    bandwidth,
                                ),
                            ),
                        )
                    } else {
                        final(self).channels.params@ == old(self).channels.params@
                    },
                    _ => final(self).channels.params@ == old(self).channels.params@,
                }),
                StateEvent::UpdateEncrypted(tg, alg) => final(self).ctlfreq == old(self).ctlfreq
                    && final(self).channels.params@ == old(self).channels.params@
                    && final(self).encrypted.entries@ == crate::tgmap::seq_insert(
                    old(self).encrypted.entries@,
                    tg,
                    alg,
                ),
            },
    {
        match e {
            StateEvent::UpdateCtlFreq(f) => {
                self.ctlfreq = f;
            },
            StateEvent::UpdateChannelParams(t) => {
                match t.body {
                    crate::recv::TsbkBody::ChannelParamsUpdate {
                        id,
                        base,
                        offset,
                        spacing,
                        bandwidth,
                    } => {
                        if id < 16 {
                            self.channels.update(id, base, offset, spacing, bandwidth);
                            proof {
                                assert(final(self).channels.params@ =~= old(
                                    self,
                                ).channels.params@.update(
                                    id as int,
                                    Some(
                                        crate::recv::ChannelParams::spec_from_raw(
                                            base,
                                            offset,
                                            spacing,
                                            bandwidth,
                                        ),
                                    ),
                                ));
                            }
                        }
                    },
                    _ => {},
                }
            },
            StateEvent::UpdateEncrypted(tg, alg) => {
                self.encrypted.insert(tg, alg);
            },
        }
    }
}

/// A saturating product of two counters.
pub open spec fn sat_mul64(a: int, b: int) -> u64 {
    if a * b > u64::MAX {
        u64::MAX
    } else {
        (a * b) as u64
    }
}

/// One SSE message body: the event's tag and its JSON payload.
pub open spec fn spec_event_json(tag: Seq<u8>, payload: Seq<u8>) -> Seq<u8> {
    crate::lit::spec_ev_open() + tag + crate::lit::spec_ev_payload() + payload
        + crate::lit::spec_close_brace()
}

/// The JSON name of an encryption algorithm.
pub open spec fn spec_alg_name(alg: CryptoAlgorithm) -> Seq<u8> {
    match alg {
        CryptoAlgorithm::Des => crate::lit::spec_alg_des(),
        CryptoAlgorithm::Aes => crate::lit::spec_alg_aes(),
        CryptoAlgorithm::Unencrypted => crate::lit::spec_alg_unencrypted(),
        CryptoAlgorithm::Other(_) => crate::lit::spec_alg_other(),
    }
}

/// The members of the encrypted-talkgroups JSON map, in insertion order.
pub open spec fn spec_enc_members(s: Seq<(u16, CryptoAlgorithm)>) -> Seq<u8>
    decreases s.len(),
{
    if s.len() == 0 {
        Seq::<u8>::empty()
    } else {
        let one = crate::lit::spec_quote() + crate::fmt::dec_digits(s.last().0 as int)
            + crate::lit::spec_quote_colon_quote() + spec_alg_name(s.last().1)
            + crate::lit::spec_quote();
        if s.len() == 1 {
            one
        } else {
            spec_enc_members(s.drop_last()) + crate::lit::spec_comma() + one
        }
    }
}

/// The encrypted-talkgroups JSON map.
pub open spec fn spec_enc_json(s: Seq<(u16, CryptoAlgorithm)>) -> Seq<u8> {
    crate::lit::spec_open_brace() + spec_enc_members(s) + crate::lit::spec_close_brace()
}

/// The JSON body answering a query for the encrypted talkgroups.
pub open spec fn spec_encrypted_body(s: Seq<(u16, CryptoAlgorithm)>) -> Seq<u8> {
    crate::lit::spec_k_encrypted_field() + spec_enc_json(s) + crate::lit::spec_close_brace()
}

/// A signal power in hundredths of a dBm, as a decimal with two fraction
/// digits.
pub open spec fn spec_centi_json(p: int) -> Seq<u8> {
    let a = if p < 0 {
        -p
    } else {
        p
    };
    (if p < 0 {
        seq![45u8]
    } else {
        Seq::<u8>::empty()
    }) + crate::fmt::dec_digits(a / 100) + crate::lit::spec_dot() + (if a % 100 < 10 {
        seq![48u8]
    } else {
        Seq::<u8>::empty()
    }) + crate::fmt::dec_digits(a % 100)
}

/// One code's counters as JSON: words, unrecoverable words, symbols —
/// saturating on overflow — and corrected symbols.
pub open spec fn spec_code_stats_json(c: crate::stats::CodeStats) -> Seq<u8> {
    crate::lit::spec_s_total_words() + crate::fmt::dec_digits(c.words as int)
        + crate::lit::spec_s_err_words() + crate::fmt::dec_digits(c.errs as int)
        + crate::lit::spec_s_total_symbols() + crate::fmt::dec_digits(
        sat_mul64(c.words as int, c.size as int) as int,
    ) + crate::lit::spec_s_fixed_symbols() + crate::fmt::dec_digits(c.fixed as int)
        + crate::lit::spec_close_brace()
}

/// The whole statistics tally as JSON, code by code.
pub open spec fn spec_stats_json(st: Stats) -> Seq<u8> {
    crate::lit::spec_s_bch() + spec_code_stats_json(st.bch) + crate::lit::spec_s_cyclic()
        + spec_code_stats_json(st.cyclic) + crate::lit::spec_s_golay_std() + spec_code_stats_json(
        st.golay_std,
    ) + crate::lit::spec_s_golay_ext() + spec_code_stats_json(st.golay_ext)
        + crate::lit::spec_s_golay_short() + spec_code_stats_json(st.golay_short)
        + crate::lit::spec_s_hamming_std() + spec_code_stats_json(st.hamming_std)
        + crate::lit::spec_s_hamming_short() + spec_code_stats_json(st.hamming_short)
        + crate::lit::spec_s_rs_short() + spec_code_stats_json(st.rs_short)
        + crate::lit::spec_s_rs_med() + spec_code_stats_json(st.rs_med)
        + crate::lit::spec_s_rs_long() + spec_code_stats_json(st.rs_long)
        + crate::lit::spec_s_viterbi_dibit() + spec_code_stats_json(st.viterbi_dibit)
        + crate::lit::spec_s_viterbi_tribit() + spec_code_stats_json(st.viterbi_tribit)
        + crate::lit::spec_close_brace()
}

/// The payload of an RF-subsystem status message.
pub open spec fn spec_rfss_payload(area: u8, system: u16, rfss: u8, site: u8) -> Seq<u8> {
    crate::lit::spec_k_area() + crate::fmt::dec_digits(area as int) + crate::lit::spec_k_system()
        + crate::fmt::dec_digits(system as int) + crate::lit::spec_k_rfss()
        + crate::fmt::dec_digits(rfss as int) + crate::lit::spec_k_site()
        + crate::fmt::dec_digits(site as int) + crate::lit::spec_close_brace()
}

/// The payload of a network status message.
pub open spec fn spec_net_payload(area: u8, wacn: u32, system: u16) -> Seq<u8> {
    crate::lit::spec_k_area() + crate::fmt::dec_digits(area as int) + crate::lit::spec_k_wacn()
        + crate::fmt::dec_digits(wacn as int) + crate::lit::spec_k_system()
        + crate::fmt::dec_digits(system as int) + crate::lit::spec_close_brace()
}

/// The payload of one alternate-control-channel message.
pub open spec fn spec_alt_payload(rfss: u8, site: u8, freq: u32) -> Seq<u8> {
    crate::lit::spec_k_rfss_open() + crate::fmt::dec_digits(rfss as int)
        + crate::lit::spec_k_site() + crate::fmt::dec_digits(site as int)
        + crate::lit::spec_k_freq() + crate::fmt::dec_digits(freq as int)
        + crate::lit::spec_close_brace()
}

/// The payload of an adjacent-site message.
pub open spec fn spec_adjacent_payload(area: u8, rfss: u8, system: u16, site: u8, freq: u32) -> Seq<
    u8,
> {
    crate::lit::spec_k_area() + crate::fmt::dec_digits(area as int) + crate::lit::spec_k_rfss()
        + crate::fmt::dec_digits(rfss as int) + crate::lit::spec_k_system()
        + crate::fmt::dec_digits(system as int) + crate::lit::spec_k_site()
        + crate::fmt::dec_digits(site as int) + crate::lit::spec_k_freq()
        + crate::fmt::dec_digits(freq as int) + crate::lit::spec_close_brace()
}

/// The payload of a location-registration answer.
pub open spec fn spec_locreg_payload(response: u8, rfss: u8, site: u8, unit: u32) -> Seq<u8> {
    crate::lit::spec_k_response() + crate::fmt::dec_digits(response as int)
        + crate::lit::spec_k_rfss() + crate::fmt::dec_digits(rfss as int)
        + crate::lit::spec_k_site() + crate::fmt::dec_digits(site as int)
        + crate::lit::spec_k_unit() + crate::fmt::dec_digits(unit as int)
        + crate::lit::spec_close_brace()
}

/// The payload of a unit-registration answer.
pub open spec fn spec_unitreg_payload(response: u8, system: u16, unit_id: u32, unit_addr: u32) -> Seq<
    u8,
> {
    crate::lit::spec_k_response() + crate::fmt::dec_digits(response as int)
        + crate::lit::spec_k_system() + crate::fmt::dec_digits(system as int)
        + crate::lit::spec_k_unit_id() + crate::fmt::dec_digits(unit_id as int)
        + crate::lit::spec_k_unit_addr() + crate::fmt::dec_digits(unit_addr as int)
        + crate::lit::spec_close_brace()
}

/// The payload of a unit-deregistration acknowledgement.
pub open spec fn spec_unitdereg_payload(wacn: u32, system: u16, unit: u32) -> Seq<u8> {
    crate::lit::spec_k_wacn_open() + crate::fmt::dec_digits(wacn as int)
        + crate::lit::spec_k_system() + crate::fmt::dec_digits(system as int)
        + crate::lit::spec_k_unit() + crate::fmt::dec_digits(unit as int)
        + crate::lit::spec_close_brace()
}

/// Zero or one alternate-control messages: one exactly when the channel
/// resolves against the mirrored parameters.
pub open spec fn spec_alt_msg(
    params: Seq<Option<crate::recv::ChannelParams>>,
    rfss: u8,
    site: u8,
    ch: crate::recv::Channel,
) -> Seq<Seq<u8>> {
    match crate::recv::lookup_freq_model(params, ch) {
        Some(f) => seq![
            spec_event_json(crate::lit::spec_tag_alt(), spec_alt_payload(rfss, site, f)),
        ],
        None => Seq::<Seq<u8>>::empty(),
    }
}

/// The SSE messages a trunking block expands into; unresolvable channels
/// are silently skipped.
pub open spec fn spec_tsbk_messages(
    params: Seq<Option<crate::recv::ChannelParams>>,
    t: Tsbk,
) -> Seq<Seq<u8>> {
    match t.body {
        crate::recv::TsbkBody::RfssStatusBroadcast { area, system, rfss, site } => seq![
            spec_event_json(crate::lit::spec_tag_rfss(), spec_rfss_payload(area, system, rfss, site)),
        ],
        crate::recv::TsbkBody::NetworkStatusBroadcast { area, wacn, system } => seq![
            spec_event_json(crate::lit::spec_tag_net(), spec_net_payload(area, wacn, system)),
        ],
        crate::recv::TsbkBody::AltControlChannel { rfss, site, a0, a1 } => spec_alt_msg(
            params,
            rfss,
            site,
            a0,
        ) + spec_alt_msg(params, rfss, site, a1),
        crate::recv::TsbkBody::AdjacentSite { area, system, rfss, site, channel } => match crate::recv::lookup_freq_model(
            params,
            channel,
        ) {
            Some(f) => seq![
                spec_event_json(
                    crate::lit::spec_tag_adjacent(),
                    spec_adjacent_payload(area, rfss, system, site, f),
                ),
            ],
            None => Seq::<Seq<u8>>::empty(),
        },
        crate::recv::TsbkBody::LocRegResponse { response, rfss, site, unit } => seq![
            spec_event_json(
                crate::lit::spec_tag_locreg(),
                spec_locreg_payload(response, rfss, site, unit),
            ),
        ],
        crate::recv::TsbkBody::UnitRegResponse { response, system, unit_id, unit_addr } => seq![
            spec_event_json(
                crate::lit::spec_tag_unitreg(),
                spec_unitreg_payload(response, system, unit_id, unit_addr),
            ),
        ],
        crate::recv::TsbkBody::UnitDeregAck { wacn, system, unit } => seq![
            spec_event_json(
                crate::lit::spec_tag_unitdereg(),
                spec_unitdereg_payload(wacn, system, unit),
            ),
        ],
        _ => Seq::<Seq<u8>>::empty(),
    }
}

/// The SSE messages a link control word expands into.
pub open spec fn spec_lc_messages(
    params: Seq<Option<crate::recv::ChannelParams>>,
    lc: LinkControl,
) -> Seq<Seq<u8>> {
    match lc {
        LinkControl::GroupVoiceTraffic { src_unit } => seq![
            spec_event_json(
                crate::lit::spec_tag_srcunit(),
                crate::fmt::dec_digits(src_unit as int),
            ),
        ],
        LinkControl::RfssStatusBroadcast { area, system, rfss, site } => seq![
            spec_event_json(crate::lit::spec_tag_rfss(), spec_rfss_payload(area, system, rfss, site)),
        ],
        LinkControl::NetworkStatusBroadcast { area, wacn, system } => seq![
            spec_event_json(crate::lit::spec_tag_net(), spec_net_payload(area, wacn, system)),
        ],
        LinkControl::AdjacentSite { area, system, rfss, site, channel } => match crate::recv::lookup_freq_model(
            params,
            channel,
        ) {
            Some(f) => seq![
                spec_event_json(
                    crate::lit::spec_tag_adjacent(),
                    spec_adjacent_payload(area, rfss, system, site, f),
                ),
            ],
            None => Seq::<Seq<u8>>::empty(),
        },
        LinkControl::AltControlChannel { rfss, site, a0, a1 } => spec_alt_msg(
            params,
            rfss,
            site,
            a0,
        ) + spec_alt_msg(params, rfss, site, a1),
        _ => Seq::<Seq<u8>>::empty(),
    }
}

/// The SSE messages one hub event expands into.
pub open spec fn spec_sse_messages(
    params: Seq<Option<crate::recv::ChannelParams>>,
    enc: Seq<(u16, CryptoAlgorithm)>,
    e: HubEvent,
) -> Seq<Seq<u8>> {
    match e {
        HubEvent::State(StateEvent::UpdateCtlFreq(f)) => seq![
            spec_event_json(crate::lit::spec_tag_ctlfreq(), crate::fmt::dec_digits(f as int)),
        ],
        HubEvent::State(StateEvent::UpdateChannelParams(_)) => Seq::<Seq<u8>>::empty(),
        HubEvent::State(StateEvent::UpdateEncrypted(..)) => seq![
            spec_event_json(crate::lit::spec_tag_encrypted(), spec_enc_json(enc)),
        ],
        HubEvent::UpdateCurFreq(f) => seq![
            spec_event_json(crate::lit::spec_tag_curfreq(), crate::fmt::dec_digits(f as int)),
        ],
        HubEvent::UpdateTalkGroup(tg) => seq![
            spec_event_json(crate::lit::spec_tag_talkgroup(), crate::fmt::dec_digits(tg as int)),
        ],
        HubEvent::UpdateSignalPower(p) => seq![
            spec_event_json(crate::lit::spec_tag_sigpower(), spec_centi_json(p as int)),
        ],
        HubEvent::TrunkingControl(t) => spec_tsbk_messages(params, t),
        HubEvent::LinkControl(lc) => spec_lc_messages(params, lc),
        HubEvent::UpdateStats(st) => seq![
            spec_event_json(crate::lit::spec_tag_stats(), spec_stats_json(st)),
        ],
    }
}

/// Assemble one SSE message from a tag and a payload.
fn event_json_bytes(tag: &Vec<u8>, payload: &Vec<u8>) -> (r: Vec<u8>)
    ensures
        r@ == spec_event_json(tag@, payload@),
{
    let mut out: Vec<u8> = Vec::new();
    crate::lit::push_ev_open(&mut out);
    crate::fmt::push_bytes(tag.as_slice(), &mut out);
    crate::lit::push_ev_payload(&mut out);
    crate::fmt::push_bytes(payload.as_slice(), &mut out);
    crate::lit::push_close_brace(&mut out);
    proof {
        assert(out@ =~= spec_event_json(tag@, payload@));
    }
    out
}

/// Render a number alone.
fn dec_payload(v: u64) -> (r: Vec<u8>)
    ensures
        r@ == crate::fmt::dec_digits(v as int),
{
    let mut out: Vec<u8> = Vec::new();
    crate::fmt::push_dec(v, &mut out);
    proof {
        assert(out@ =~= crate::fmt::dec_digits(v as int));
    }
    out
}

/// Render a signal power in hundredths of a dBm.
fn centi_payload(p: i32) -> (r: Vec<u8>)
    ensures
        r@ == spec_centi_json(p as int),
{
    let mut out: Vec<u8> = Vec::new();
    let v: i64 = p as i64;
    let a: u64 = if v < 0 {
        out.push(45);
        (-v) as u64
    } else {
        v as u64
    };
    crate::fmt::push_dec(a / 100, &mut out);
    crate::lit::push_dot(&mut out);
    if a % 100 < 10 {
        out.push(48);
    }
    crate::fmt::push_dec(a % 100, &mut out);
    proof {
        assert(out@ =~= spec_centi_json(p as int));
    }
    out
}

/// Render the RF-subsystem status payload.
fn rfss_payload(area: u8, system: u16, rfss: u8, site: u8) -> (r: Vec<u8>)
    ensures
        r@ == spec_rfss_payload(area, system, rfss, site),
{
    let mut out: Vec<u8> = Vec::new();
    crate::lit::push_k_area(&mut out);
    crate::fmt::push_dec(area as u64, &mut out);
    crate::lit::push_k_system(&mut out);
    crate::fmt::push_dec(system as u64, &mut out);
    crate::lit::push_k_rfss(&mut out);
    crate::fmt::push_dec(rfss as u64, &mut out);
    crate::lit::push_k_site(&mut out);
    crate::fmt::push_dec(site as u64, &mut out);
    crate::lit::push_close_brace(&mut out);
    proof {
        assert(out@ =~= spec_rfss_payload(area, system, rfss, site));
    }
    out
}

/// Render the network status payload.
fn net_payload(area: u8, wacn: u32, system: u16) -> (r: Vec<u8>)
    ensures
        r@ == spec_net_payload(area, wacn, system),
{
    let mut out: Vec<u8> = Vec::new();
    crate::lit::push_k_area(&mut out);
    crate::fmt::push_dec(area as u64, &mut out);
    crate::lit::push_k_wacn(&mut out);
    crate::fmt::push_dec(wacn as u64, &mut out);
    crate::lit::push_k_system(&mut out);
    crate::fmt::push_dec(system as u64, &mut out);
    crate::lit::push_close_brace(&mut out);
    proof {
        assert(out@ =~= spec_net_payload(area, wacn, system));
    }
    out
}

/// Render one alternate-control payload.
fn alt_payload(rfss: u8, site: u8, freq: u32) -> (r: Vec<u8>)
    ensures
        r@ == spec_alt_payload(rfss, site, freq),
{
    let mut out: Vec<u8> = Vec::new();
    crate::lit::push_k_rfss_open(&mut out);
    crate::fmt::push_dec(rfss as u64, &mut out);
    crate::lit::push_k_site(&mut out);
    crate::fmt::push_dec(site as u64, &mut out);
    crate::lit::push_k_freq(&mut out);
    crate::fmt::push_dec(freq as u64, &mut out);
    crate::lit::push_close_brace(&mut out);
    proof {
        assert(out@ =~= spec_alt_payload(rfss, site, freq));
    }
    out
}

/// Render the adjacent-site payload.
fn adjacent_payload(area: u8, rfss: u8, system: u16, site: u8, freq: u32) -> (r: Vec<u8>)
    ensures
        r@ == spec_adjacent_payload(area, rfss, system, site, freq),
{
    let mut out: Vec<u8> = Vec::new();
    crate::lit::push_k_area(&mut out);
    crate::fmt::push_dec(area as u64, &mut out);
    crate::lit::push_k_rfss(&mut out);
    crate::fmt::push_dec(rfss as u64, &mut out);
    crate::lit::push_k_system(&mut out);
    crate::fmt::push_dec(system as u64, &mut out);
    crate::lit::push_k_site(&mut out);
    crate::fmt::push_dec(site as u64, &mut out);
    crate::lit::push_k_freq(&mut out);
    crate::fmt::push_dec(freq as u64, &mut out);
    crate::lit::push_close_brace(&mut out);
    proof {
        assert(out@ =~= spec_adjacent_payload(area, rfss, system, site, freq));
    }
    out
}

/// Render the location-registration payload.
fn locreg_payload(response: u8, rfss: u8, site: u8, unit: u32) -> (r: Vec<u8>)
    ensures
        r@ == spec_locreg_payload(response, rfss, site, unit),
{
    let mut out: Vec<u8> = Vec::new();
    crate::lit::push_k_response(&mut out);
    crate::fmt::push_dec(response as u64, &mut out);
    crate::lit::push_k_rfss(&mut out);
    crate::fmt::push_dec(rfss as u64, &mut out);
    crate::lit::push_k_site(&mut out);
    crate::fmt::push_dec(site as u64, &mut out);
    crate::lit::push_k_unit(&mut out);
    crate::fmt::push_dec(unit as u64, &mut out);
    crate::lit::push_close_brace(&mut out);
    proof {
        assert(out@ =~= spec_locreg_payload(response, rfss, site, unit));
    }
    out
}

/// Render the unit-registration payload.
fn unitreg_payload(response: u8, system: u16, unit_id: u32, unit_addr: u32) -> (r: Vec<u8>)
    ensures
        r@ == spec_unitreg_payload(response, system, unit_id, unit_addr),
{
    let mut out: Vec<u8> = Vec::new();
    crate::lit::push_k_response(&mut out);
    crate::fmt::push_dec(response as u64, &mut out);
    crate::lit::push_k_system(&mut out);
    crate::fmt::push_dec(system as u64, &mut out);
    crate::lit::push_k_unit_id(&mut out);
    crate::fmt::push_dec(unit_id as u64, &mut out);
    crate::lit::push_k_unit_addr(&mut out);
    crate::fmt::push_dec(unit_addr as u64, &mut out);
    crate::lit::push_close_brace(&mut out);
    proof {
        assert(out@ =~= spec_unitreg_payload(response, system, unit_id, unit_addr));
    }
    out
}

/// Render the unit-deregistration payload.
fn unitdereg_payload(wacn: u32, system: u16, unit: u32) -> (r: Vec<u8>)
    ensures
        r@ == spec_unitdereg_payload(wacn, system, unit),
{
    let mut out: Vec<u8> = Vec::new();
    crate::lit::push_k_wacn_open(&mut out);
    crate::fmt::push_dec(wacn as u64, &mut out);
    crate::lit::push_k_system(&mut out);
    crate::fmt::push_dec(system as u64, &mut out);
    crate::lit::push_k_unit(&mut out);
    crate::fmt::push_dec(unit as u64, &mut out);
    crate::lit::push_close_brace(&mut out);
    proof {
        assert(out@ =~= spec_unitdereg_payload(wacn, system, unit));
    }
    out
}

/// Render one code's counters.
fn code_stats_json(c: &crate::stats::CodeStats, out: &mut Vec<u8>)
    ensures
        final(out)@ == old(out)@ + spec_code_stats_json(*c),
{
    crate::lit::push_s_total_words(out);
    crate::fmt::push_dec(c.words, out);
    crate::lit::push_s_err_words(out);
    crate::fmt::push_dec(c.errs, out);
    crate::lit::push_s_total_symbols(out);
    let total = match c.words.checked_mul(c.size) {
        Some(v) => v,
        None => u64::MAX,
    };
    crate::fmt::push_dec(total, out);
    crate::lit::push_s_fixed_symbols(out);
    crate::fmt::push_dec(c.fixed, out);
    crate::lit::push_close_brace(out);
    proof {
        assert(final(out)@ =~= old(out)@ + spec_code_stats_json(*c));
    }
}

/// Render the whole statistics tally.
pub fn stats_json(st: &Stats) -> (r: Vec<u8>)
    ensures
        r@ == spec_stats_json(*st),
{
    let mut out: Vec<u8> = Vec::new();
    crate::lit::push_s_bch(&mut out);
    code_stats_json(&st.bch, &mut out);
    crate::lit::push_s_cyclic(&mut out);
    code_stats_json(&st.cyclic, &mut out);
    crate::lit::push_s_golay_std(&mut out);
    code_stats_json(&st.golay_std, &mut out);
    crate::lit::push_s_golay_ext(&mut out);
    code_stats_json(&st.golay_ext, &mut out);
    crate::lit::push_s_golay_short(&mut out);
    code_stats_json(&st.golay_short, &mut out);
    crate::lit::push_s_hamming_std(&mut out);
    code_stats_json(&st.hamming_std, &mut out);
    crate::lit::push_s_hamming_short(&mut out);
    code_stats_json(&st.hamming_short, &mut out);
    crate::lit::push_s_rs_short(&mut out);
    code_stats_json(&st.rs_short, &mut out);
    crate::lit::push_s_rs_med(&mut out);
    code_stats_json(&st.rs_med, &mut out);
    crate::lit::push_s_rs_long(&mut out);
    code_stats_json(&st.rs_long, &mut out);
    crate::lit::push_s_viterbi_dibit(&mut out);
    code_stats_json(&st.viterbi_dibit, &mut out);
    crate::lit::push_s_viterbi_tribit(&mut out);
    code_stats_json(&st.viterbi_tribit, &mut out);
    crate::lit::push_close_brace(&mut out);
    proof {
        assert(out@ =~= spec_stats_json(*st));
    }
    out
}

/// Render the encrypted-talkgroups map.
pub fn enc_json(enc: &crate::talkgroups::GroupCryptoMap) -> (r: Vec<u8>)
    ensures
        r@ == spec_enc_json(enc.entries@),
{
    let mut out: Vec<u8> = Vec::new();
    crate::lit::push_open_brace(&mut out);
    let ghost head = out@;
    let n = enc.len();
    let mut i: usize = 0;
    while i < n
        invariant
            n == enc.entries@.len(),
            i <= n,
            out@ == head + spec_enc_members(enc.entries@.subrange(0, i as int)),
        decreases n - i,
    {
        if i > 0 {
            crate::lit::push_comma(&mut out);
        }
        let (tg, alg) = enc.pair_at(i);
        crate::lit::push_quote(&mut out);
        crate::fmt::push_dec(tg as u64, &mut out);
        crate::lit::push_quote_colon_quote(&mut out);
        match alg {
            CryptoAlgorithm::Des => crate::lit::push_alg_des(&mut out),
            CryptoAlgorithm::Aes => crate::lit::push_alg_aes(&mut out),
            CryptoAlgorithm::Unencrypted => crate::lit::push_alg_unencrypted(&mut out),
            CryptoAlgorithm::Other(_) => crate::lit::push_alg_other(&mut out),
        }
        crate::lit::push_quote(&mut out);
        proof {
            assert(enc.entries@.subrange(0, i + 1).drop_last() =~= enc.entries@.subrange(
                0,
                i as int,
            ));
            assert(enc.entries@.subrange(0, i + 1).last() == enc.entries@[i as int]);
            assert(out@ =~= head + spec_enc_members(enc.entries@.subrange(0, i + 1)));
        }
        i = i + 1;
    }
    crate::lit::push_close_brace(&mut out);
    proof {
        assert(enc.entries@.subrange(0, n as int) =~= enc.entries@);
        assert(out@ =~= spec_enc_json(enc.entries@));
    }
    out
}

/// Render the body answering a query for the encrypted talkgroups.
pub fn encrypted_body(enc: &crate::talkgroups::GroupCryptoMap) -> (r: Vec<u8>)
    ensures
        r@ == spec_encrypted_body(enc.entries@),
{
    let mut out: Vec<u8> = Vec::new();
    crate::lit::push_k_encrypted_field(&mut out);
    let inner = enc_json(enc);
    crate::fmt::push_bytes(inner.as_slice(), &mut out);
    crate::lit::push_close_brace(&mut out);
    proof {
        assert(out@ =~= spec_encrypted_body(enc.entries@));
    }
    out
}

/// Render the body answering a query for the control frequency.
pub fn ctlfreq_body(freq: u32) -> (r: Vec<u8>)
    ensures
        r@ == crate::json::spec_ctlfreq_json(freq),
{
    let mut out: Vec<u8> = Vec::new();
    crate::lit::push_k_ctlfreq(&mut out);
    crate::fmt::push_dec(freq as u64, &mut out);
    crate::lit::push_close_brace(&mut out);
    proof {
        assert(out@ =~= crate::json::spec_ctlfreq_json(freq));
    }
    out
}

/// The SSE messages one hub event expands into, resolved against the
/// mirrored channel parameters and encrypted set.
pub fn sse_messages(
    channels: &crate::recv::ChannelParamsMap,
    encrypted: &crate::talkgroups::GroupCryptoMap,
    e: &HubEvent,
) -> (r: Vec<Vec<u8>>)
    requires
        channels.wf(),
    ensures
        r@.len() == spec_sse_messages(channels.params@, encrypted.entries@, *e).len(),
        forall|i: int|
            0 <= i < r@.len() ==> (#[trigger] r@[i])@ == spec_sse_messages(
                channels.params@,
                encrypted.entries@,
                *e,
            )[i],
{
    let ghost expect = spec_sse_messages(channels.params@, encrypted.entries@, *e);
    let mut out: Vec<Vec<u8>> = Vec::new();
    match *e {
        HubEvent::State(StateEvent::UpdateCtlFreq(f)) => {
            let mut tag: Vec<u8> = Vec::new();
            crate::lit::push_tag_ctlfreq(&mut tag);
            out.push(event_json_bytes(&tag, &dec_payload(f as u64)));
        },
        HubEvent::State(StateEvent::UpdateChannelParams(_)) => {},
        HubEvent::State(StateEvent::UpdateEncrypted(..)) => {
            let mut tag: Vec<u8> = Vec::new();
            crate::lit::push_tag_encrypted(&mut tag);
            out.push(event_json_bytes(&tag, &enc_json(encrypted)));
        },
        HubEvent::UpdateCurFreq(f) => {
            let mut tag: Vec<u8> = Vec::new();
            crate::lit::push_tag_curfreq(&mut tag);
            out.push(event_json_bytes(&tag, &dec_payload(f as u64)));
        },
        HubEvent::UpdateTalkGroup(tg) => {
            let mut tag: Vec<u8> = Vec::new();
            crate::lit::push_tag_talkgroup(&mut tag);
            out.push(event_json_bytes(&tag, &dec_payload(tg as u64)));
        },
        HubEvent::UpdateSignalPower(p) => {
            let mut tag: Vec<u8> = Vec::new();
            crate::lit::push_tag_sigpower(&mut tag);
            out.push(event_json_bytes(&tag, &centi_payload(p)));
        },
        HubEvent::UpdateStats(st) => {
            let mut tag: Vec<u8> = Vec::new();
            crate::lit::push_tag_stats(&mut tag);
            out.push(event_json_bytes(&tag, &stats_json(&st)));
        },
        HubEvent::TrunkingControl(t) => {
            match t.body {
                crate::recv::TsbkBody::RfssStatusBroadcast { area, system, rfss, site } => {
                    let mut tag: Vec<u8> = Vec::new();
                    crate::lit::push_tag_rfss(&mut tag);
                    out.push(event_json_bytes(&tag, &rfss_payload(area, system, rfss, site)));
                },
                crate::recv::TsbkBody::NetworkStatusBroadcast { area, wacn, system } => {
                    let mut tag: Vec<u8> = Vec::new();
                    crate::lit::push_tag_net(&mut tag);
                    out.push(event_json_bytes(&tag, &net_payload(area, wacn, system)));
                },
                crate::recv::TsbkBody::AltControlChannel { rfss, site, a0, a1 } => {
                    push_alt_msgs(channels, rfss, site, a0, &mut out);
                    push_alt_msgs(channels, rfss, site, a1, &mut out);
                },
                crate::recv::TsbkBody::AdjacentSite { area, system, rfss, site, channel } => {
                    match channels.lookup_freq(channel) {
                        Some(f) => {
                            let mut tag: Vec<u8> = Vec::new();
                            crate::lit::push_tag_adjacent(&mut tag);
                            out.push(
                                event_json_bytes(
                                    &tag,
                                    &adjacent_payload(area, rfss, system, site, f),
                                ),
                            );
                        },
                        None => {},
                    }
                },
                crate::recv::TsbkBody::LocRegResponse { response, rfss, site, unit } => {
                    let mut tag: Vec<u8> = Vec::new();
                    crate::lit::push_tag_locreg(&mut tag);
                    out.push(event_json_bytes(&tag, &locreg_payload(response, rfss, site, unit)));
                },
                crate::recv::TsbkBody::UnitRegResponse { response, system, unit_id, unit_addr } => {
                    let mut tag: Vec<u8> = Vec::new();
                    crate::lit::push_tag_unitreg(&mut tag);
                    out.push(
                        event_json_bytes(
                            &tag,
                            &unitreg_payload(response, system, unit_id, unit_addr),
                        ),
                    );
                },
                crate::recv::TsbkBody::UnitDeregAck { wacn, system, unit } => {
                    let mut tag: Vec<u8> = Vec::new();
                    crate::lit::push_tag_unitdereg(&mut tag);
                    out.push(event_json_bytes(&tag, &unitdereg_payload(wacn, system, unit)));
                },
                _ => {},
            }
        },
        HubEvent::LinkControl(lc) => {
            match lc {
                LinkControl::GroupVoiceTraffic { src_unit } => {
                    let mut tag: Vec<u8> = Vec::new();
                    crate::lit::push_tag_srcunit(&mut tag);
                    out.push(event_json_bytes(&tag, &dec_payload(src_unit as u64)));
                },
                LinkControl::RfssStatusBroadcast { area, system, rfss, site } => {
                    let mut tag: Vec<u8> = Vec::new();
                    crate::lit::push_tag_rfss(&mut tag);
                    out.push(event_json_bytes(&tag, &rfss_payload(area, system, rfss, site)));
                },
                LinkControl::NetworkStatusBroadcast { area, wacn, system } => {
                    let mut tag: Vec<u8> = Vec::new();
                    crate::lit::push_tag_net(&mut tag);
                    out.push(event_json_bytes(&tag, &net_payload(area, wacn, system)));
                },
                LinkControl::AdjacentSite { area, system, rfss, site, channel } => {
                    match channels.lookup_freq(channel) {
                        Some(f) => {
                            let mut tag: Vec<u8> = Vec::new();
                            crate::lit::push_tag_adjacent(&mut tag);
                            out.push(
                                event_json_bytes(
                                    &tag,
                                    &adjacent_payload(area, rfss, system, site, f),
                                ),
                            );
                        },
                        None => {},
                    }
                },
                LinkControl::AltControlChannel { rfss, site, a0, a1 } => {
                    push_alt_msgs(channels, rfss, site, a0, &mut out);
                    push_alt_msgs(channels, rfss, site, a1, &mut out);
                },
                _ => {},
            }
        },
    }
    proof {
        assert forall|i: int| 0 <= i < out@.len() implies (#[trigger] out@[i])@ == expect[i] by {}
    }
    out
}

/// Append the zero-or-one messages one alternate channel expands into.
fn push_alt_msgs(
    channels: &crate::recv::ChannelParamsMap,
    rfss: u8,
    site: u8,
    ch: crate::recv::Channel,
    out: &mut Vec<Vec<u8>>,
)
    requires
        channels.wf(),
    ensures
        final(out)@.len() == old(out)@.len() + spec_alt_msg(channels.params@, rfss, site, ch).len(),
        forall|i: int|
            0 <= i < old(out)@.len() ==> (#[trigger] final(out)@[i]) == old(out)@[i],
        forall|i: int|
            old(out)@.len() <= i < final(out)@.len() ==> (#[trigger] final(out)@[i])@
                == spec_alt_msg(channels.params@, rfss, site, ch)[i - old(out)@.len()],
{
    match channels.lookup_freq(ch) {
        Some(f) => {
            let mut tag: Vec<u8> = Vec::new();
            crate::lit::push_tag_alt(&mut tag);
            out.push(event_json_bytes(&tag, &alt_payload(rfss, site, f)));
        },
        None => {},
    }
}

/// Find the first space in a line, or its end.
fn find_space(s: &[u8]) -> (r: usize)
    ensures
        r == spec_space_end(s@),
        r <= s@.len(),
{
    proof {
        lemma_space_end_bounds(s@);
    }
    let n = s.len();
    let mut i: usize = 0;
    while i < n
        invariant
            n == s@.len(),
            i <= n,
            forall|j: int| 0 <= j < i ==> s@[j] != 32,
            0 <= spec_space_end(s@) <= s@.len(),
            spec_space_end(s@) < s@.len() ==> s@[spec_space_end(s@)] == 32,
            forall|j: int| 0 <= j < spec_space_end(s@) ==> s@[j] != 32,
        decreases n - i,
    {
        if s[i] == 32 {
            proof {
                if spec_space_end(s@) < i {
                    assert(s@[spec_space_end(s@)] != 32);
                }
                if spec_space_end(s@) > i {
                    assert(s@[i as int] != 32);
                }
            }
            return i;
        }
        i = i + 1;
    }
    proof {
        if spec_space_end(s@) < n {
            assert(s@[spec_space_end(s@)] != 32);
        }
    }
    n
}

} // verus!
