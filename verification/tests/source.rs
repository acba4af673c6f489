use chnroutes::error::{CacheError, Error, OsError, OsErrorKind};
use chnroutes::net::Prefix;
use chnroutes::source::apnic::{
    accept, cache, decode_builtin, fetch_step, is_ip_data, parse_ip_data, request,
    try_parse_ip_data, Data, Download, Fetch, FetchAction, FetchEvent, Request, CACHE_SECONDS,
    TIMEOUT_SECONDS, URL,
};
use chnroutes::source::Source;

const SAMPLE: &str = "2|apnic|20240101|77034|19830613|20231231|+1000
apnic|*|asn|*|12345|summary
apnic|*|ipv4|*|54321|summary
apnic|JP|asn|173|1|20020801|allocated
apnic|CN|asn|4609|1|20020801|allocated
apnic|CN|ipv4|1.0.1.0|256|20110414|allocated
apnic|CN|ipv4|1.0.2.0|512|20110414|allocated
apnic|AU|ipv4|1.0.4.0|1024|20110412|allocated
apnic|CN|ipv4|1.0.8.0|2048|20110412|allocated
apnic|CN|ipv6|2001:250::|35|20000426|allocated
apnic|CN|ipv6|2001:250:2000::|35|20020726|allocated
";

fn net(text: &str) -> Prefix {
    Prefix::from_text(text).unwrap()
}

fn line(text: &str) -> Request {
    let chars: Vec<char> = text.chars().collect();
    request(&chars, 0, chars.len())
}

#[test]
fn test_parse_ip_data() {
    assert!(is_ip_data(SAMPLE));
    assert!(!is_ip_data("apnic|CN|ipv4|1.0.1.0|many"));
    let results = parse_ip_data(SAMPLE);
    assert_eq!(results[0], Prefix::from_text("1.0.1.0/24").unwrap());
    assert_eq!(
        results,
        vec![
            net("1.0.1.0/24"),
            net("1.0.2.0/23"),
            net("1.0.8.0/21"),
            net("2001:250::/35"),
            net("2001:250:2000::/35"),
        ]
    );
}

#[test]
fn lines_end_with_or_without_carriage_return() {
    let text = "apnic|CN|ipv4|1.0.1.0|256\r\napnic|CN|ipv4|1.0.2.0|512\n\napnic|CN|ipv6|2001:250::|35";
    assert_eq!(
        try_parse_ip_data(text),
        Some(vec![net("1.0.1.0/24"), net("1.0.2.0/23"), net("2001:250::/35")])
    );
    assert_eq!(try_parse_ip_data(""), Some(vec![]));
    assert_eq!(try_parse_ip_data("\n\n"), Some(vec![]));
    assert_eq!(try_parse_ip_data("apnic|CN|ipv4|1.0.1.0|256\r"), None);
}

#[test]
fn prefix_length_from_the_number_of_addresses() {
    let len = |count: &str| match line(&format!("apnic|CN|ipv4|10.0.0.0|{}|x", count)) {
        Request::Read(text) => text,
        other => panic!("{:?}", matches!(other, Request::Skip)),
    };
    assert_eq!(len("1"), "10.0.0.0/32");
    assert_eq!(len("0"), "10.0.0.0/32");
    assert_eq!(len("2"), "10.0.0.0/31");
    assert_eq!(len("3"), "10.0.0.0/31");
    assert_eq!(len("256"), "10.0.0.0/24");
    assert_eq!(len("768"), "10.0.0.0/23");
    assert_eq!(len("+1024"), "10.0.0.0/22");
    assert_eq!(len("0065536"), "10.0.0.0/16");
    assert_eq!(len("16777216"), "10.0.0.0/8");
    assert_eq!(len("2147483648"), "10.0.0.0/1");
    assert_eq!(len("4294967295"), "10.0.0.0/1");
}

#[test]
fn what_a_line_asks_for() {
    assert!(matches!(line(""), Request::Skip));
    assert!(matches!(line("apnic|CN|ipv4|1.0.1.0"), Request::Skip));
    assert!(matches!(line("apnic|JP|ipv4|1.0.1.0|256"), Request::Skip));
    assert!(matches!(line("ripe|CN|ipv4|1.0.1.0|256"), Request::Skip));
    assert!(matches!(line("apnic|CN|asn|4609|1"), Request::Skip));
    assert!(matches!(line("apnic|cn|ipv4|1.0.1.0|256"), Request::Skip));
    assert!(matches!(line(" apnic|CN|ipv4|1.0.1.0|256"), Request::Skip));
    assert!(matches!(line("apnic|CN|ipv4|1.0.1.0|"), Request::Malformed));
    assert!(matches!(line("apnic|CN|ipv4|1.0.1.0|2x6"), Request::Malformed));
    assert!(matches!(line("apnic|CN|ipv4|1.0.1.0|-256"), Request::Malformed));
    assert!(matches!(line("apnic|CN|ipv4|1.0.1.0|+"), Request::Malformed));
    assert!(matches!(line("apnic|CN|ipv4|1.0.1.0|4294967296"), Request::Malformed));
    assert!(matches!(line("apnic|CN|ipv6|2001:250::|256"), Request::Malformed));
    assert!(matches!(line("apnic|CN|ipv6|2001:250::| 35"), Request::Malformed));
    match line("apnic|CN|ipv6|2001:250::|255|rest") {
        Request::Read(text) => assert_eq!(text, "2001:250::/255"),
        _ => panic!(),
    }
    match line("apnic|CN|ipv4||256") {
        Request::Read(text) => assert_eq!(text, "/24"),
        _ => panic!(),
    }
    let chars: Vec<char> = "xxapnic|CN|ipv4|1.0.1.0|256yy".chars().collect();
    match request(&chars, 2, chars.len() - 2) {
        Request::Read(text) => assert_eq!(text, "1.0.1.0/24"),
        _ => panic!(),
    }
}

#[test]
fn a_wanted_line_that_records_no_network() {
    assert_eq!(try_parse_ip_data("apnic|CN|ipv4|1.0.1.0|abc|20110414|allocated\n"), None);
    assert_eq!(try_parse_ip_data("apnic|CN|ipv4|1.0.1|256|20110414|allocated\n"), None);
    assert_eq!(try_parse_ip_data("apnic|CN|ipv6|2001:250::|129|20000426|allocated\n"), None);
    let text = format!("{}apnic|CN|ipv4|300.0.1.0|256|x\napnic|CN|ipv4|1.0.1.0|256|x\n", SAMPLE);
    assert_eq!(try_parse_ip_data(&text), None);
    assert_eq!(
        try_parse_ip_data("apnic|CN|ipv4|2001:250::|256|x"),
        Some(vec![net("2001:250::/24")])
    );
}

#[test]
fn what_was_read_is_taken_in() {
    let mut nets = vec![net("1.0.1.0/24")];
    assert!(accept(&mut nets, Some(net("1.0.2.0/23"))));
    assert!(!accept(&mut nets, None));
    assert_eq!(nets, vec![net("1.0.1.0/24"), net("1.0.2.0/23")]);
}

#[test]
fn builtin_copy_is_unpacked() {
    let packed = zstd::stream::encode_all(SAMPLE.as_bytes(), 3).unwrap();
    assert_ne!(packed, SAMPLE.as_bytes());
    assert_eq!(decode_builtin(&packed), Some(SAMPLE.as_bytes().to_vec()));
    assert_eq!(decode_builtin(SAMPLE.as_bytes()), None);
    assert_eq!(decode_builtin(&packed[..packed.len() - 1]), None);
}

fn failure() -> OsError {
    OsError::new(OsErrorKind::PermissionDenied, Some(13), "Permission denied")
}

fn fetch_ip_data(cached: Option<Vec<u8>>, online: Download, packed: &[u8]) -> Option<Vec<Prefix>> {
    let mut saved: Option<Vec<u8>> = None;
    let mut state = Fetch::Start;
    let mut event = FetchEvent::Begin;
    loop {
        let (next, action) = fetch_step(state, event);
        state = next;
        event = match action {
            FetchAction::LoadCache => FetchEvent::Loaded(Ok(cached.clone())),
            FetchAction::Download => FetchEvent::Downloaded(match &online {
                Download::Text(text) => Download::Text(text.clone()),
                Download::Failed(why) => Download::Failed(why.clone()),
                Download::NoClient(why) => Download::NoClient(why.clone()),
            }),
            FetchAction::DecodeBuiltin => FetchEvent::Decoded(decode_builtin(packed).unwrap()),
            FetchAction::SaveCache => {
                saved = state.to_save().map(|bytes| bytes.to_vec());
                FetchEvent::Saved(Ok(()))
            }
            FetchAction::Finish(result) => {
                let text = match result.ok()? {
                    Data::Text(text) => text,
                    Data::Bytes(bytes) => String::from_utf8(bytes).unwrap(),
                };
                assert!(cached.is_some() || saved.as_deref() == Some(text.as_bytes()));
                return try_parse_ip_data(&text);
            }
            FetchAction::Nothing => unreachable!(),
        };
    }
}

#[test]
fn test_fetch_ip_data() {
    let packed = zstd::stream::encode_all(SAMPLE.as_bytes(), 3).unwrap();
    let offline = || Download::Failed("dns error".to_string());
    assert!(fetch_ip_data(None, offline(), &packed).is_some());
    let all = parse_ip_data(SAMPLE);
    assert_eq!(fetch_ip_data(None, offline(), &packed), Some(all.clone()));
    assert_eq!(fetch_ip_data(Some(SAMPLE.as_bytes().to_vec()), offline(), &[]), Some(all));
    let fresh = "apnic|CN|ipv4|1.0.32.0|8192|20110412|allocated\n".to_string();
    assert_eq!(
        fetch_ip_data(None, Download::Text(fresh), &packed),
        Some(vec![net("1.0.32.0/19")])
    );
    assert_eq!(fetch_ip_data(None, Download::NoClient("tls".to_string()), &packed), None);
}

#[test]
fn fetch_uses_the_cache() {
    let (state, action) = fetch_step(Fetch::Start, FetchEvent::Begin);
    assert_eq!((&state, &action), (&Fetch::Loading, &FetchAction::LoadCache));
    assert_eq!(state.to_save(), None);
    let (state, action) = fetch_step(state, FetchEvent::Loaded(Ok(Some(vec![1, 2]))));
    assert_eq!(state, Fetch::Done);
    assert_eq!(action, FetchAction::Finish(Ok(Data::Bytes(vec![1, 2]))));
}

#[test]
fn fetch_downloads_and_saves() {
    let (state, action) = fetch_step(Fetch::Loading, FetchEvent::Loaded(Ok(None)));
    assert_eq!((&state, &action), (&Fetch::Downloading, &FetchAction::Download));
    let text = "apnic|CN".to_string();
    let (state, action) = fetch_step(state, FetchEvent::Downloaded(Download::Text(text.clone())));
    assert_eq!(action, FetchAction::SaveCache);
    assert_eq!(state.to_save(), Some(text.as_bytes()));
    let (state, action) = fetch_step(state, FetchEvent::Saved(Ok(())));
    assert_eq!(state, Fetch::Done);
    assert_eq!(action, FetchAction::Finish(Ok(Data::Text(text.clone()))));
    let (_, action) = fetch_step(Fetch::SavingDownload(text), FetchEvent::Saved(Err(failure())));
    assert_eq!(
        action,
        FetchAction::Finish(Err(Error::CacheError(CacheError::IOError(failure()))))
    );
}

#[test]
fn fetch_falls_back_on_the_builtin_copy() {
    let failed = FetchEvent::Downloaded(Download::Failed("timed out".to_string()));
    let (state, action) = fetch_step(Fetch::Downloading, failed);
    assert_eq!((&state, &action), (&Fetch::Decoding, &FetchAction::DecodeBuiltin));
    let (state, action) = fetch_step(state, FetchEvent::Decoded(vec![7, 8, 9]));
    assert_eq!(action, FetchAction::SaveCache);
    assert_eq!(state.to_save(), Some(&[7u8, 8, 9][..]));
    let (state, action) = fetch_step(state, FetchEvent::Saved(Ok(())));
    assert_eq!(state, Fetch::Done);
    assert_eq!(action, FetchAction::Finish(Ok(Data::Bytes(vec![7, 8, 9]))));
    let (_, action) = fetch_step(Fetch::SavingBuiltin(vec![7]), FetchEvent::Saved(Err(failure())));
    assert_eq!(action, FetchAction::Finish(Err(Error::IOError(failure()))));
}

#[test]
fn fetch_ends_with_the_errors() {
    let unreadable = CacheError::IOError(failure());
    let (state, action) = fetch_step(Fetch::Loading, FetchEvent::Loaded(Err(unreadable.clone())));
    assert_eq!(state, Fetch::Done);
    assert_eq!(action, FetchAction::Finish(Err(Error::CacheError(unreadable))));
    let no_client = FetchEvent::Downloaded(Download::NoClient("builder error".to_string()));
    let (state, action) = fetch_step(Fetch::Downloading, no_client);
    assert_eq!(state, Fetch::Done);
    assert_eq!(
        action,
        FetchAction::Finish(Err(Error::NetworkError("builder error".to_string())))
    );
}

#[test]
fn fetch_passes_over_events_that_do_not_fit() {
    assert_eq!(fetch_step(Fetch::Done, FetchEvent::Begin), (Fetch::Done, FetchAction::Nothing));
    assert_eq!(
        fetch_step(Fetch::Start, FetchEvent::Saved(Ok(()))),
        (Fetch::Start, FetchAction::Nothing)
    );
    assert_eq!(
        fetch_step(Fetch::SavingBuiltin(vec![1]), FetchEvent::Decoded(vec![2])),
        (Fetch::SavingBuiltin(vec![1]), FetchAction::Nothing)
    );
}

#[test]
fn where_and_how_long() {
    assert_eq!(URL, "https://ftp.apnic.net/apnic/stats/apnic/delegated-apnic-latest");
    assert_eq!(TIMEOUT_SECONDS, 10);
    assert_eq!(CACHE_SECONDS, 604_800);
    assert_eq!(cache().name(), "apnic");
    assert_eq!(cache().expire_nanos(), 604_800_000_000_000);
    assert!(cache().is_fresh(Some(604_799_999_999_999)));
    assert!(!cache().is_fresh(Some(604_800_000_000_000)));
}

#[test]
fn sources_by_name() {
    assert_eq!(Source::default(), Source::apnic);
    assert_eq!(Source::apnic.as_str(), "apnic");
    assert_eq!(Source::from_str("apnic"), Some(Source::apnic));
    assert_eq!(Source::from_str("ripe"), None);
    assert_eq!(Source::from_str(""), None);
    assert_eq!(Source::apnic.next(), None);
}
