use p25rx::hub::{
    HttpMethod, HubEvent, HubToken, RequestAction, Route, StateEvent, Status, ctlfreq_body,
    encrypted_body, request_action, route_from_path, route_request, sse_messages, stats_json,
    FD_MASK, State,
};
use p25rx::recv::{Channel, ChannelParamsMap, LinkControl, Tsbk, TsbkBody};
use p25rx::stats::Stats;
use p25rx::talkgroups::CryptoAlgorithm;
use p25rx::tgmap::TgMap;

#[test]
fn token_round_trips() {
    for t in [HubToken::Conns, HubToken::Events, HubToken::Request(5), HubToken::Request(FD_MASK)] {
        assert_eq!(HubToken::decode(t.encode()), Some(t));
    }
    assert_eq!(HubToken::decode(0x0100_0000), None);
}

#[test]
fn token_for_request_packs_fd() {
    let t = HubToken::for_request(0x1234);
    assert_eq!(t.encode(), 0x2000_1234);
}

#[test]
fn routes_match_paths() {
    assert_eq!(route_from_path(b"/subscribe"), Some(Route::Subscribe));
    assert_eq!(route_from_path(b"/ctlfreq"), Some(Route::CtlFreq));
    assert_eq!(route_from_path(b"/encrypted"), Some(Route::Encrypted));
    assert_eq!(route_from_path(b"/stats/reset"), Some(Route::ResetStats));
    assert_eq!(route_from_path(b"/nope"), None);
    assert_eq!(route_from_path(b""), None);
}

#[test]
fn request_lines_resolve() {
    assert_eq!(
        route_request(b"GET /ctlfreq HTTP/1.1"),
        Ok((HttpMethod::Get, Route::CtlFreq))
    );
    // The query and fragment are split off by the URI parser before
    // routing.
    assert_eq!(
        route_request(b"GET /ctlfreq?x=1 HTTP/1.1"),
        Ok((HttpMethod::Get, Route::CtlFreq))
    );
    assert_eq!(
        route_request(b"GET /encrypted#top HTTP/1.1"),
        Ok((HttpMethod::Get, Route::Encrypted))
    );
    assert_eq!(
        route_request(b"PUT /stats/reset HTTP/1.1"),
        Ok((HttpMethod::Put, Route::ResetStats))
    );
    assert_eq!(route_request(b"GET /nope HTTP/1.1"), Err(Status::NotFound));
    assert_eq!(route_request(b"GET /ctlfreq HTTP/2.0"), Err(Status::NotImplemented));
    assert_eq!(route_request(b"GET /ctlfreq HTTQ/1.1"), Err(Status::BadRequest));
    assert_eq!(route_request(b"GET /ctlfreq"), Err(Status::BadRequest));
    assert_eq!(route_request(b""), Err(Status::BadRequest));
    // An unknown-but-valid method still resolves the route, and the
    // decision then refuses it.
    assert_eq!(
        route_request(b"POST /ctlfreq HTTP/1.1"),
        Ok((HttpMethod::Other, Route::CtlFreq))
    );
}

#[test]
fn request_decisions() {
    assert_eq!(
        request_action(b"GET /subscribe HTTP/1.1", b"", false, 7),
        RequestAction::StartStream
    );
    assert_eq!(
        request_action(b"GET /subscribe HTTP/1.1", b"", true, 7),
        RequestAction::Fail(Status::TooManyRequests)
    );
    assert_eq!(
        request_action(b"GET /ctlfreq HTTP/1.1", b"", false, 851_000_000),
        RequestAction::SendCtlFreq(851_000_000)
    );
    assert_eq!(
        request_action(b"PUT /ctlfreq HTTP/1.1", b"{\"ctlfreq\": 851000000}", false, 7),
        RequestAction::SetCtlFreq(851_000_000)
    );
    assert_eq!(
        request_action(b"PUT /ctlfreq HTTP/1.1", b"{\"ctlfreq\": 8510000000}", false, 7),
        RequestAction::Fail(Status::BadRequest)
    );
    assert_eq!(
        request_action(b"PUT /ctlfreq HTTP/1.1", b"junk", false, 7),
        RequestAction::Fail(Status::BadRequest)
    );
    assert_eq!(
        request_action(b"GET /encrypted HTTP/1.1", b"", false, 7),
        RequestAction::SendEncrypted
    );
    assert_eq!(
        request_action(b"PUT /stats/reset HTTP/1.1", b"", false, 7),
        RequestAction::ResetStats
    );
    assert_eq!(
        request_action(b"OPTIONS /ctlfreq HTTP/1.1", b"", false, 7),
        RequestAction::Cors
    );
    assert_eq!(
        request_action(b"PUT /subscribe HTTP/1.1", b"", false, 7),
        RequestAction::Fail(Status::MethodNotAllowed)
    );
    assert_eq!(
        request_action(b"POST /ctlfreq HTTP/1.1", b"", false, 7),
        RequestAction::Fail(Status::MethodNotAllowed)
    );
}

#[test]
fn ctlfreq_body_parses() {
    assert_eq!(p25rx::json::parse_ctlfreq(b"{\"ctlfreq\":1}"), Some(1));
    assert_eq!(
        p25rx::json::parse_ctlfreq(b"  { \"ctlfreq\" : 4294967295 }  "),
        Some(u32::MAX)
    );
    assert_eq!(p25rx::json::parse_ctlfreq(b"{\"ctlfreq\":4294967296}"), None);
    assert_eq!(p25rx::json::parse_ctlfreq(b"{\"ctlfreq\":}"), None);
    assert_eq!(p25rx::json::parse_ctlfreq(b"{\"ctlfreq\":1} x"), None);
}

#[test]
fn status_codes() {
    assert_eq!(Status::Okay.code(), 200);
    assert_eq!(Status::BadRequest.code(), 400);
    assert_eq!(Status::NotFound.code(), 404);
    assert_eq!(Status::MethodNotAllowed.code(), 405);
    assert_eq!(Status::TooManyRequests.code(), 429);
    assert_eq!(Status::InternalServerError.code(), 500);
    assert_eq!(Status::NotImplemented.code(), 501);
}

#[test]
fn response_bodies() {
    assert_eq!(ctlfreq_body(851000000), b"{\"ctlfreq\":851000000}".to_vec());
    let mut enc: TgMap<CryptoAlgorithm> = TgMap::new();
    enc.insert(42, CryptoAlgorithm::Aes);
    enc.insert(7, CryptoAlgorithm::Des);
    assert_eq!(
        encrypted_body(&enc),
        b"{\"encrypted\":{\"42\":\"Aes\",\"7\":\"Des\"}}".to_vec()
    );
}

#[test]
fn sse_simple_events() {
    let channels = ChannelParamsMap::new();
    let enc: TgMap<CryptoAlgorithm> = TgMap::new();
    let msgs = sse_messages(
        &channels,
        &enc,
        &HubEvent::State(StateEvent::UpdateCtlFreq(851000000)),
    );
    assert_eq!(msgs, vec![b"{\"event\":\"ctlFreq\",\"payload\":851000000}".to_vec()]);
    let msgs = sse_messages(&channels, &enc, &HubEvent::UpdateCurFreq(12));
    assert_eq!(msgs, vec![b"{\"event\":\"curFreq\",\"payload\":12}".to_vec()]);
    let msgs = sse_messages(&channels, &enc, &HubEvent::UpdateTalkGroup(9));
    assert_eq!(msgs, vec![b"{\"event\":\"talkGroup\",\"payload\":9}".to_vec()]);
    let msgs = sse_messages(&channels, &enc, &HubEvent::UpdateSignalPower(1301));
    assert_eq!(msgs, vec![b"{\"event\":\"sigPower\",\"payload\":13.01}".to_vec()]);
    let msgs = sse_messages(&channels, &enc, &HubEvent::UpdateSignalPower(-4705));
    assert_eq!(msgs, vec![b"{\"event\":\"sigPower\",\"payload\":-47.05}".to_vec()]);
}

#[test]
fn sse_rfss_status() {
    let channels = ChannelParamsMap::new();
    let enc: TgMap<CryptoAlgorithm> = TgMap::new();
    let t = Tsbk {
        mfg: 0,
        crc_valid: true,
        body: TsbkBody::RfssStatusBroadcast { area: 1, system: 291, rfss: 2, site: 3 },
    };
    let msgs = sse_messages(&channels, &enc, &HubEvent::TrunkingControl(t));
    assert_eq!(
        msgs,
        vec![
            b"{\"event\":\"rfssStatus\",\"payload\":{\"area\":1,\"system\":291,\"rfss\":2,\"site\":3}}"
                .to_vec()
        ]
    );
}

#[test]
fn sse_alt_control_resolves_channels() {
    let mut channels = ChannelParamsMap::new();
    // Parameter set 0: base 851 MHz, spacing 12.5 kHz.
    channels.update(0, 170_200_000, 0, 100, 100);
    let enc: TgMap<CryptoAlgorithm> = TgMap::new();
    let t = Tsbk {
        mfg: 0,
        crc_valid: true,
        body: TsbkBody::AltControlChannel {
            rfss: 1,
            site: 2,
            a0: Channel { id: 0, number: 4 },
            // Unknown parameter id: silently skipped.
            a1: Channel { id: 9, number: 1 },
        },
    };
    let msgs = sse_messages(&channels, &enc, &HubEvent::TrunkingControl(t));
    assert_eq!(
        msgs,
        vec![
            b"{\"event\":\"altControl\",\"payload\":{\"rfss\":1,\"site\":2,\"freq\":851050000}}"
                .to_vec()
        ]
    );
}

#[test]
fn sse_src_unit() {
    let channels = ChannelParamsMap::new();
    let enc: TgMap<CryptoAlgorithm> = TgMap::new();
    let msgs = sse_messages(
        &channels,
        &enc,
        &HubEvent::LinkControl(LinkControl::GroupVoiceTraffic { src_unit: 777 }),
    );
    assert_eq!(msgs, vec![b"{\"event\":\"srcUnit\",\"payload\":777}".to_vec()]);
}

#[test]
fn sse_stats_counts_symbols() {
    let mut st = Stats::new();
    st.record_err(p25rx::stats::ErrorKind::Bch);
    let j = stats_json(&st);
    let text = String::from_utf8(j).unwrap();
    assert!(text.starts_with(
        "{\"bch\":{\"totalWords\":0,\"errWords\":1,\"totalSymbols\":0,\"fixedSymbols\":0}"
    ));
    assert!(text.contains("\"viterbiTribit\":"));
}

#[test]
fn state_tracks_updates() {
    let mut st = State::default();
    st.update(StateEvent::UpdateCtlFreq(851_000_000));
    assert_eq!(st.ctlfreq, 851_000_000);
    st.update(StateEvent::UpdateEncrypted(42, CryptoAlgorithm::Aes));
    assert_eq!(st.encrypted.get(42), Some(CryptoAlgorithm::Aes));
    let t = Tsbk {
        mfg: 0,
        crc_valid: true,
        body: TsbkBody::ChannelParamsUpdate {
            id: 1,
            base: 170_200_000,
            offset: 0,
            spacing: 100,
            bandwidth: 100,
        },
    };
    st.update(StateEvent::UpdateChannelParams(t));
    assert_eq!(
        st.channels.lookup_freq(Channel { id: 1, number: 0 }),
        Some(851_000_000)
    );
}
