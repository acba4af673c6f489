use crate::cache::Cache;
use crate::error::{CacheError, Error, OsError};
use crate::net::{net_of_text, Prefix};
use crate::text::{
    chars_of, decimal, field_spans, fields, floor_log2, lines, log2_floor, next_line, parse_u32,
    push_decimal, span_equals, string_of, unsigned_of,
};
use vstd::prelude::*;

verus! {

/// Where the registry publishes its file of delegations.
pub const URL: &'static str = "https://ftp.apnic.net/apnic/stats/apnic/delegated-apnic-latest";

/// How many seconds a request for the file may take.
pub const TIMEOUT_SECONDS: u64 = 10;

/// The name of the cache file for the registry's file.
pub const CACHE_NAME: &'static str = "apnic";

/// For how many seconds the cached file stays good: seven days.
pub const CACHE_SECONDS: u64 = 7 * 24 * 60 * 60;

/// The cache for the registry's file.
pub fn cache() -> (cache: Cache)
    ensures
        cache.spec_name() == CACHE_NAME@,
        cache.spec_expire_nanos() == CACHE_SECONDS * 1_000_000_000,
{
    Cache::new(CACHE_NAME, (CACHE_SECONDS as u128) * 1_000_000_000)
}

/// Whether a line of the registry's file, taken apart at its bars, records
/// address space that the registry gave out in China: it has at least five
/// parts and begins with `apnic`, `CN` and `ipv4` or `ipv6`.
pub open spec fn wanted(items: Seq<Seq<char>>) -> bool {
    &&& items.len() >= 5
    &&& items[0] == "apnic"@
    &&& items[1] == "CN"@
    &&& (items[2] == "ipv4"@ || items[2] == "ipv6"@)
}

/// The prefix length of a block of `count` IPv4 addresses: that of the
/// largest block of a power of two that `count` addresses fill. A count of
/// zero stands for one address.
pub open spec fn prefix_len_of_count(count: nat) -> nat {
    (32 - floor_log2(count)) as nat
}

/// The prefix length that a wanted line records. For IPv4 the fifth part
/// counts the addresses, for IPv6 it is the prefix length itself.
pub open spec fn recorded_prefix_len(items: Seq<Seq<char>>) -> Option<u8> {
    if items[2] == "ipv4"@ {
        match unsigned_of(items[4], u32::MAX as nat) {
            Some(count) => Some(prefix_len_of_count(count) as u8),
            None => None,
        }
    } else {
        match unsigned_of(items[4], u8::MAX as nat) {
            Some(len) => Some(len as u8),
            None => None,
        }
    }
}

/// The text of a network: the address, a slash, the prefix length.
pub open spec fn net_text(addr: Seq<char>, prefix_len: u8) -> Seq<char> {
    addr + seq!['/'] + decimal(prefix_len as nat)
}

/// What is to be done with one line of the registry's file.
pub enum Request {
    /// The line is none of the wanted ones.
    Skip,
    /// The line is a wanted one, and records no length.
    Malformed,
    /// The line records the network that this text denotes.
    Read(String),
}

/// What is to be done with `line`.
pub open spec fn request_of(line: Seq<char>) -> Option<Option<Seq<char>>> {
    let items = fields(line, '|');
    if !wanted(items) {
        None
    } else {
        match recorded_prefix_len(items) {
            None => Some(None),
            Some(len) => Some(Some(net_text(items[3], len))),
        }
    }
}

/// The networks that `lines` record, in their order; or nothing, where one
/// of the wanted lines records none.
pub open spec fn recorded_nets(lines: Seq<Seq<char>>) -> Option<Seq<Prefix>>
    decreases lines.len(),
{
    if lines.len() == 0 {
        Some(Seq::empty())
    } else {
        match recorded_nets(lines.drop_last()) {
            None => None,
            Some(nets) => match request_of(lines.last()) {
                None => Some(nets),
                Some(None) => None,
                Some(Some(text)) => match net_of_text(text) {
                    None => None,
                    Some(net) => Some(nets.push(net)),
                },
            },
        }
    }
}

/// The networks that the registry's file records.
pub open spec fn ip_data(content: Seq<char>) -> Option<Seq<Prefix>> {
    recorded_nets(lines(content))
}

/// Takes apart the line that stands in `text` from `from` up to `to`, and
/// says what is to be done with it.
pub fn request(text: &[char], from: usize, to: usize) -> (r: Request)
    requires
        from <= to <= text@.len(),
    ensures
        match request_of(text@.subrange(from as int, to as int)) {
            None => r is Skip,
            Some(None) => r is Malformed,
            Some(Some(net)) => r matches Request::Read(s) && s@ == net,
        },
{
    let spans = field_spans(text, from, to, '|');
    if spans.len() < 5 {
        return Request::Skip;
    }
    let (a0, b0) = spans[0];
    let (a1, b1) = spans[1];
    let (a2, b2) = spans[2];
    let (a3, b3) = spans[3];
    let (a4, b4) = spans[4];
    if !span_equals(text, a0, b0, "apnic") || !span_equals(text, a1, b1, "CN") {
        return Request::Skip;
    }
    let v4 = span_equals(text, a2, b2, "ipv4");
    if !v4 && !span_equals(text, a2, b2, "ipv6") {
        return Request::Skip;
    }
    let number = match parse_u32(text, a4, b4) {
        None => {
            return Request::Malformed;
        },
        Some(number) => number,
    };
    let prefix_len: u8 = if v4 {
        32 - log2_floor(number)
    } else {
        if number > 255 {
            return Request::Malformed;
        }
        number as u8
    };
    let mut net = string_of(text, a3, b3);
    net.push('/');
    push_decimal(&mut net, prefix_len as u64);
    Request::Read(net)
}

/// Takes in what became of reading one network: a network is added to
/// `nets`, and a text that is none is reported with `false`.
pub fn accept(nets: &mut Vec<Prefix>, read: Option<Prefix>) -> (ok: bool)
    ensures
        ok == (read is Some),
        match read {
            Some(net) => final(nets)@ == old(nets)@.push(net),
            None => final(nets)@ == old(nets)@,
        },
{
    match read {
        Some(net) => {
            nets.push(net);
            true
        },
        None => false,
    }
}

/// Goes through the registry's file line by line and reads the network of
/// each wanted line, until one of them records none.
fn scan(content: &str) -> (r: Option<Vec<Prefix>>)
    ensures
        match ip_data(content@) {
            Some(nets) => r is Some && r->Some_0@ == nets,
            None => r is None,
        },
{
    let text = chars_of(content);
    let mut nets: Vec<Prefix> = Vec::new();
    let mut start: usize = 0;
    let ghost mut done: Seq<Seq<char>> = Seq::empty();
    proof {
        assert(text@.skip(0) == text@);
    }
    while start < text.len()
        invariant
            start <= text@.len(),
            text@ == content@,
            lines(text@) == done + lines(text@.skip(start as int)),
            recorded_nets(done) == Some(nets@),
        decreases text.len() - start,
    {
        let (end, next) = next_line(text.as_slice(), start);
        let ghost line = text@.subrange(start as int, end as int);
        proof {
            assert(done + (seq![line] + lines(text@.skip(next as int))) == done.push(line) + lines(
                text@.skip(next as int),
            ));
            assert(done.push(line).drop_last() == done);
        }
        match request(text.as_slice(), start, end) {
            Request::Skip => {},
            Request::Malformed => {
                proof {
                    lemma_nets_fail_early(done.push(line), lines(text@.skip(next as int)));
                }
                return None;
            },
            Request::Read(net) => {
                let read = match Prefix::from_text(net.as_str()) {
                    Ok(net) => Some(net),
                    Err(_) => None,
                };
                if !accept(&mut nets, read) {
                    proof {
                        lemma_nets_fail_early(done.push(line), lines(text@.skip(next as int)));
                    }
                    return None;
                }
            },
        }
        proof {
            done = done.push(line);
        }
        start = next;
    }
    Some(nets)
}

/// Lines that record nothing for a part of a file record nothing for the
/// whole.
pub proof fn lemma_nets_fail_early(first: Seq<Seq<char>>, rest: Seq<Seq<char>>)
    requires
        recorded_nets(first) is None,
    ensures
        recorded_nets(first + rest) is None,
    decreases rest.len(),
{
    if rest.len() > 0 {
        lemma_nets_fail_early(first, rest.drop_last());
        assert((first + rest).drop_last() == first + rest.drop_last());
    }
}

/// Parse IP data from str.
///
/// The content is the registry's file of delegations. Each of its lines
/// holds parts between bars: the registry, the country, the kind of
/// address, the first address, and the number of addresses for IPv4 or the
/// prefix length for IPv6. The lines that stand for IPv4 or IPv6 address
/// space given out in China by `apnic` become networks, in their order.
/// Every such line has to record a network.
pub fn parse_ip_data(content: &str) -> (nets: Vec<Prefix>)
    requires
        ip_data(content@) is Some,
    ensures
        Some(nets@) == ip_data(content@),
{
    match scan(content) {
        Some(nets) => nets,
        None => Vec::new(),
    }
}

/// Decides whether each of the wanted lines of the registry's file records
/// a network.
pub fn is_ip_data(content: &str) -> (b: bool)
    ensures
        b == (ip_data(content@) is Some),
{
    scan(content).is_some()
}

/// Reads the networks that the registry's file records, or nothing where
/// one of the wanted lines records none.
pub fn try_parse_ip_data(content: &str) -> (r: Option<Vec<Prefix>>)
    ensures
        match ip_data(content@) {
            Some(nets) => r is Some && r->Some_0@ == nets,
            None => r is None,
        },
{
    if is_ip_data(content) {
        Some(parse_ip_data(content))
    } else {
        None
    }
}

/// The error of the standard library's input and output.
#[verifier::external_type_specification]
#[verifier::external_body]
pub struct ExIoError(std::io::Error);

/// What `zstd` makes of compressed bytes: the bytes that were compressed,
/// or nothing where the bytes are no frame of its format.
pub uninterp spec fn zstd_decoded(compressed: Seq<u8>) -> Option<Seq<u8>>;

/// Calls `zstd::stream::decode_all` on the bytes. The contract names what
/// the decoder gives, and does not say what that is: the result depends on
/// the bytes alone.
#[verifier::external_body]
fn zstd_decode_all(compressed: &[u8]) -> (r: Result<Vec<u8>, std::io::Error>)
    ensures
        match r {
            Ok(data) => zstd_decoded(compressed@) == Some(data@),
            Err(_) => zstd_decoded(compressed@) is None,
        },
{
    zstd::stream::decode_all(compressed)
}

/// Unpacks the compressed copy of the registry's file that comes with the
/// program. Gives nothing where the bytes are no compressed file.
pub fn decode_builtin(compressed: &[u8]) -> (r: Option<Vec<u8>>)
    ensures
        match zstd_decoded(compressed@) {
            Some(data) => r is Some && r->Some_0@ == data,
            None => r is None,
        },
{
    match zstd_decode_all(compressed) {
        Ok(data) => Some(data),
        Err(_) => None,
    }
}

/// The registry's file as it was had: as bytes from the cache or from the
/// copy that comes with the program, or as text from the network.
#[derive(Debug, PartialEq, Eq)]
pub enum Data {
    Bytes(Vec<u8>),
    Text(String),
}

/// How an attempt to get the file from the network ended.
#[derive(Debug, PartialEq, Eq)]
pub enum Download {
    /// The file came.
    Text(String),
    /// The request failed, for the reason given.
    Failed(String),
    /// No client for the request could be made, for the reason given.
    NoClient(String),
}

/// Where the fetching of the registry's file stands.
#[derive(Debug, PartialEq, Eq)]
pub enum Fetch {
    Start,
    /// The cache is being read.
    Loading,
    /// The file is being had from the network.
    Downloading,
    /// The copy that comes with the program is being unpacked.
    Decoding,
    /// The file from the network is being written to the cache.
    SavingDownload(String),
    /// The unpacked copy is being written to the cache.
    SavingBuiltin(Vec<u8>),
    Done,
}

/// What happened outside since the last step.
#[derive(Debug, PartialEq, Eq)]
pub enum FetchEvent {
    Begin,
    /// The cache was read: it gave content, or none that is still good.
    Loaded(Result<Option<Vec<u8>>, CacheError>),
    Downloaded(Download),
    /// The copy that comes with the program was unpacked.
    Decoded(Vec<u8>),
    /// The cache was written, or could not be.
    Saved(Result<(), OsError>),
}

/// What is to be done outside next.
#[derive(Debug, PartialEq, Eq)]
pub enum FetchAction {
    LoadCache,
    Download,
    DecodeBuiltin,
    /// Write to the cache what the state holds.
    SaveCache,
    /// The fetching is over: here is the file, or why there is none.
    Finish(Result<Data, Error>),
    /// The event does not fit the state: nothing is to be done.
    Nothing,
}

/// The step from a state and an event to the next state and an action.
///
/// The cache is asked first, and what it gives is used. Without it the file
/// is had from the network and written to the cache. Where the network
/// fails, the copy that comes with the program is unpacked and written to
/// the cache in its place. A cache that cannot be read or written, and a
/// client that cannot be made, end the fetching with an error.
pub open spec fn stepped(state: Fetch, event: FetchEvent) -> (Fetch, FetchAction) {
    match (state, event) {
        (Fetch::Start, FetchEvent::Begin) => (Fetch::Loading, FetchAction::LoadCache),
        (Fetch::Loading, FetchEvent::Loaded(Ok(Some(data)))) => (
            Fetch::Done,
            FetchAction::Finish(Ok(Data::Bytes(data))),
        ),
        (Fetch::Loading, FetchEvent::Loaded(Ok(None))) => (
            Fetch::Downloading,
            FetchAction::Download,
        ),
        (Fetch::Loading, FetchEvent::Loaded(Err(e))) => (
            Fetch::Done,
            FetchAction::Finish(Err(Error::CacheError(e))),
        ),
        (Fetch::Downloading, FetchEvent::Downloaded(Download::Text(text))) => (
            Fetch::SavingDownload(text),
            FetchAction::SaveCache,
        ),
        (Fetch::Downloading, FetchEvent::Downloaded(Download::Failed(_))) => (
            Fetch::Decoding,
            FetchAction::DecodeBuiltin,
        ),
        (Fetch::Downloading, FetchEvent::Downloaded(Download::NoClient(detail))) => (
            Fetch::Done,
            FetchAction::Finish(Err(Error::NetworkError(detail))),
        ),
        (Fetch::Decoding, FetchEvent::Decoded(data)) => (
            Fetch::SavingBuiltin(data),
            FetchAction::SaveCache,
        ),
        (Fetch::SavingDownload(text), FetchEvent::Saved(Ok(_))) => (
            Fetch::Done,
            FetchAction::Finish(Ok(Data::Text(text))),
        ),
        (Fetch::SavingDownload(_), FetchEvent::Saved(Err(e))) => (
            Fetch::Done,
            FetchAction::Finish(Err(Error::CacheError(CacheError::IOError(e)))),
        ),
        (Fetch::SavingBuiltin(data), FetchEvent::Saved(Ok(_))) => (
            Fetch::Done,
            FetchAction::Finish(Ok(Data::Bytes(data))),
        ),
        (Fetch::SavingBuiltin(_), FetchEvent::Saved(Err(e))) => (
            Fetch::Done,
            FetchAction::Finish(Err(Error::IOError(e))),
        ),
        (state, _) => (state, FetchAction::Nothing),
    }
}

/// Takes the step from a state and an event to the next state and an
/// action.
pub fn fetch_step(state: Fetch, event: FetchEvent) -> (r: (Fetch, FetchAction))
    ensures
        r == stepped(state, event),
{
    match (state, event) {
        (Fetch::Start, FetchEvent::Begin) => (Fetch::Loading, FetchAction::LoadCache),
        (Fetch::Loading, FetchEvent::Loaded(Ok(Some(data)))) => (
            Fetch::Done,
            FetchAction::Finish(Ok(Data::Bytes(data))),
        ),
        (Fetch::Loading, FetchEvent::Loaded(Ok(None))) => (
            Fetch::Downloading,
            FetchAction::Download,
        ),
        (Fetch::Loading, FetchEvent::Loaded(Err(e))) => (
            Fetch::Done,
            FetchAction::Finish(Err(Error::CacheError(e))),
        ),
        (Fetch::Downloading, FetchEvent::Downloaded(Download::Text(text))) => (
            Fetch::SavingDownload(text),
            FetchAction::SaveCache,
        ),
        (Fetch::Downloading, FetchEvent::Downloaded(Download::Failed(_))) => (
            Fetch::Decoding,
            FetchAction::DecodeBuiltin,
        ),
        (Fetch::Downloading, FetchEvent::Downloaded(Download::NoClient(detail))) => (
            Fetch::Done,
            FetchAction::Finish(Err(Error::NetworkError(detail))),
        ),
        (Fetch::Decoding, FetchEvent::Decoded(data)) => (
            Fetch::SavingBuiltin(data),
            FetchAction::SaveCache,
        ),
        (Fetch::SavingDownload(text), FetchEvent::Saved(Ok(_))) => (
            Fetch::Done,
            FetchAction::Finish(Ok(Data::Text(text))),
        ),
        (Fetch::SavingDownload(_), FetchEvent::Saved(Err(e))) => (
            Fetch::Done,
            FetchAction::Finish(Err(Error::CacheError(CacheError::IOError(e)))),
        ),
        (Fetch::SavingBuiltin(data), FetchEvent::Saved(Ok(_))) => (
            Fetch::Done,
            FetchAction::Finish(Ok(Data::Bytes(data))),
        ),
        (Fetch::SavingBuiltin(_), FetchEvent::Saved(Err(e))) => (
            Fetch::Done,
            FetchAction::Finish(Err(Error::IOError(e))),
        ),
        (state, _) => (state, FetchAction::Nothing),
    }
}

impl Fetch {
    /// The bytes that are to be written to the cache, where the state
    /// holds any.
    pub fn to_save(&self) -> (bytes: Option<&[u8]>)
        ensures
            match *self {
                Fetch::SavingDownload(text) => bytes is Some && bytes->Some_0@
                    == vstd::utf8::encode_utf8(text@),
                Fetch::SavingBuiltin(data) => bytes is Some && bytes->Some_0@ == data@,
                _ => bytes is None,
            },
    {
        match self {
            Fetch::SavingDownload(text) => Some(text.as_str().as_bytes()),
            Fetch::SavingBuiltin(data) => Some(data.as_slice()),
            _ => None,
        }
    }
}

/// The file is handed out only once it lies in the cache: it was read from
/// there, or it was written there just now.
pub proof fn law_fetch_hands_out_cached(state: Fetch, event: FetchEvent)
    requires
        stepped(state, event).1 matches FetchAction::Finish(Ok(_)),
    ensures
        (state is Loading && event matches FetchEvent::Loaded(Ok(Some(_)))) || ((state
            is SavingDownload || state is SavingBuiltin) && event matches FetchEvent::Saved(Ok(_))),
{
}

/// The network is asked only when the cache gave nothing, and the copy
/// that comes with the program is unpacked only when the network failed.
pub proof fn law_fetch_order(state: Fetch, event: FetchEvent)
    ensures
        stepped(state, event).1 is Download ==> state is Loading && event matches FetchEvent::Loaded(
            Ok(None),
        ),
        stepped(state, event).1 is DecodeBuiltin ==> state is Downloading
            && event matches FetchEvent::Downloaded(Download::Failed(_)),
        stepped(state, event).1 is LoadCache ==> state is Start && event is Begin,
{
}

} // verus!
