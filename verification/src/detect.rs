//! Protocol registry and detector: pure recognizers over the prefix of a
//! byte stream, each reporting a tri-state verdict, and a first-match
//! detector over the fixed, ordered registry.

use vstd::prelude::*;

verus! {

/// Tri-state verdict of one recognizer over a stream prefix.
///
/// `NotEnoughData` is deliberately distinct from `Failure`: a recognizer
/// must never report `Failure` merely because the prefix is still too
/// short, or a protocol could be misclassified once more bytes arrive.
#[derive(Debug, PartialEq, Eq, Structural, Hash, Copy, Clone)]
pub enum DetectResult {
    Success,
    Failure,
    NotEnoughData,
}

/// Verdict of the TLS recognizer: a TLS stream opens with a handshake
/// record (type 0x16) followed by a 0x03 major version whose minor byte is
/// at most 0x03 (TLS 1.0 through 1.3). SSLv2 ClientHello is deliberately
/// not recognized.
pub open spec fn spec_tls(s: Seq<u8>) -> DetectResult {
    if s.len() < 3 {
        DetectResult::NotEnoughData
    } else if s[0] == 0x16 && s[1] == 0x03 && s[2] <= 0x03 {
        DetectResult::Success
    } else {
        DetectResult::Failure
    }
}

/// The pattern `pat` occurs in `s` starting exactly at position `i`.
pub open spec fn contains_at(s: Seq<u8>, pat: Seq<u8>, i: int) -> bool {
    0 <= i && i + pat.len() <= s.len() && s.subrange(i, i + pat.len()) == pat
}

/// The pattern `pat` occurs somewhere in `s` as a contiguous byte sequence.
pub open spec fn contains_seq(s: Seq<u8>, pat: Seq<u8>) -> bool {
    exists|i: int| contains_at(s, pat, i)
}

/// Compares `pat` against the bytes of `buf` starting at position `i`.
fn slice_eq_at(buf: &[u8], pat: &[u8], i: usize) -> (r: bool)
    requires
        i + pat@.len() <= buf@.len(),
    ensures
        r == contains_at(buf@, pat@, i as int),
{
    let n: usize = buf.len();
    let mut j: usize = 0;
    while j < pat.len()
        invariant
            0 <= j <= pat@.len(),
            i + pat@.len() <= buf@.len(),
            n == buf@.len(),
            forall|k: int| 0 <= k < j ==> buf@[i + k] == pat@[k],
        decreases pat@.len() - j,
    {
        if buf[i + j] != pat[j] {
            assert(buf@.subrange(i as int, i + pat@.len())[j as int] != pat@[j as int]);
            return false;
        }
        j += 1;
    }
    assert(buf@.subrange(i as int, i + pat@.len()) =~= pat@);
    true
}

/// Searches `buf` for the contiguous byte pattern `pat`, at any position.
fn contains_subslice(buf: &[u8], pat: &[u8]) -> (r: bool)
    ensures
        r == contains_seq(buf@, pat@),
{
    if pat.len() > buf.len() {
        assert(forall|i: int| !contains_at(buf@, pat@, i));
        return false;
    }
    if pat.len() == 0 {
        assert(buf@.subrange(0, 0) =~= pat@);
        assert(contains_at(buf@, pat@, 0));
        return true;
    }
    let n: usize = buf.len();
    let end: usize = buf.len() - pat.len();
    let mut i: usize = 0;
    while i <= end
        invariant
            0 <= i <= end + 1,
            end == buf@.len() - pat@.len(),
            1 <= pat@.len() <= buf@.len(),
            n == buf@.len(),
            forall|j: int| 0 <= j < i ==> !contains_at(buf@, pat@, j),
        decreases end + 1 - i,
    {
        if slice_eq_at(buf, pat, i) {
            assert(contains_seq(buf@, pat@));
            return true;
        }
        i += 1;
    }
    assert(forall|j: int| !contains_at(buf@, pat@, j));
    false
}

/// Runs the TLS recognizer over the prefix read so far.
pub fn detect_is_tls(buf: &[u8]) -> (r: DetectResult)
    ensures
        r == spec_tls(buf@),
{
    if buf.len() < 3 {
        return DetectResult::NotEnoughData;
    }
    if buf[0] == 0x16 && buf[1] == 0x03 && buf[2] <= 0x03 {
        DetectResult::Success
    } else {
        DetectResult::Failure
    }
}

/// The literal `SSH-` that opens every SSH identification string.
pub open spec fn ssh_signature() -> Seq<u8> {
    seq![0x53u8, 0x53u8, 0x48u8, 0x2du8]
}

/// Verdict of the SSH recognizer: the stream must begin with `SSH-`.
pub open spec fn spec_ssh(s: Seq<u8>) -> DetectResult {
    if s.len() < 4 {
        DetectResult::NotEnoughData
    } else if s.subrange(0, 4) == ssh_signature() {
        DetectResult::Success
    } else {
        DetectResult::Failure
    }
}

/// Runs the SSH recognizer over the prefix read so far.
pub fn detect_is_ssh(buf: &[u8]) -> (r: DetectResult)
    ensures
        r == spec_ssh(buf@),
{
    if buf.len() < 4 {
        return DetectResult::NotEnoughData;
    }
    let pat: &[u8] = &[0x53u8, 0x53u8, 0x48u8, 0x2du8];
    proof {
        assert(pat@ =~= ssh_signature());
    }
    if slice_eq_at(buf, pat, 0) {
        DetectResult::Success
    } else {
        DetectResult::Failure
    }
}

/// The literal `HTTP`.
pub open spec fn http_signature() -> Seq<u8> {
    seq![0x48u8, 0x54u8, 0x54u8, 0x50u8]
}

/// The HTTP request method tokens searched for anywhere in the prefix:
/// GET, PUT, HEAD, POST, TRACE, DELETE, CONNECT, OPTIONS.
pub open spec fn http_methods() -> Seq<Seq<u8>> {
    seq![
        seq![0x47u8, 0x45u8, 0x54u8],
        seq![0x50u8, 0x55u8, 0x54u8],
        seq![0x48u8, 0x45u8, 0x41u8, 0x44u8],
        seq![0x50u8, 0x4fu8, 0x53u8, 0x54u8],
        seq![0x54u8, 0x52u8, 0x41u8, 0x43u8, 0x45u8],
        seq![0x44u8, 0x45u8, 0x4cu8, 0x45u8, 0x54u8, 0x45u8],
        seq![0x43u8, 0x4fu8, 0x4eu8, 0x4eu8, 0x45u8, 0x43u8, 0x54u8],
        seq![0x4fu8, 0x50u8, 0x54u8, 0x49u8, 0x4fu8, 0x4eu8, 0x53u8],
    ]
}

/// Verdict of the HTTP recognizer: the literal `HTTP`, or any request
/// method token, anywhere in the prefix (deliberately not anchored to the
/// start; this heuristic is part of the observable behaviour).
pub open spec fn spec_http(s: Seq<u8>) -> DetectResult {
    if s.len() < 3 {
        DetectResult::NotEnoughData
    } else if contains_seq(s, http_signature()) || (exists|m: int|
        0 <= m < http_methods().len() && contains_seq(s, http_methods()[m])) {
        DetectResult::Success
    } else {
        DetectResult::Failure
    }
}

/// Runs the HTTP recognizer over the prefix read so far.
pub fn detect_is_http(buf: &[u8]) -> (r: DetectResult)
    ensures
        r == spec_http(buf@),
{
    if buf.len() < 3 {
        return DetectResult::NotEnoughData;
    }
    let http: &[u8] = &[0x48u8, 0x54u8, 0x54u8, 0x50u8];
    proof {
        assert(http@ =~= http_signature());
    }
    if contains_subslice(buf, http) {
        return DetectResult::Success;
    }
    let get: &[u8] = &[0x47u8, 0x45u8, 0x54u8];
    let put: &[u8] = &[0x50u8, 0x55u8, 0x54u8];
    let head: &[u8] = &[0x48u8, 0x45u8, 0x41u8, 0x44u8];
    let post: &[u8] = &[0x50u8, 0x4fu8, 0x53u8, 0x54u8];
    let trace: &[u8] = &[0x54u8, 0x52u8, 0x41u8, 0x43u8, 0x45u8];
    let delete: &[u8] = &[0x44u8, 0x45u8, 0x4cu8, 0x45u8, 0x54u8, 0x45u8];
    let connect: &[u8] = &[0x43u8, 0x4fu8, 0x4eu8, 0x4eu8, 0x45u8, 0x43u8, 0x54u8];
    let options: &[u8] = &[0x4fu8, 0x50u8, 0x54u8, 0x49u8, 0x4fu8, 0x4eu8, 0x53u8];
    proof {
        assert(get@ =~= http_methods()[0]);
        assert(put@ =~= http_methods()[1]);
        assert(head@ =~= http_methods()[2]);
        assert(post@ =~= http_methods()[3]);
        assert(trace@ =~= http_methods()[4]);
        assert(delete@ =~= http_methods()[5]);
        assert(connect@ =~= http_methods()[6]);
        assert(options@ =~= http_methods()[7]);
    }
    if contains_subslice(buf, get) {
        return DetectResult::Success;
    }
    if contains_subslice(buf, put) {
        return DetectResult::Success;
    }
    if contains_subslice(buf, head) {
        return DetectResult::Success;
    }
    if contains_subslice(buf, post) {
        return DetectResult::Success;
    }
    if contains_subslice(buf, trace) {
        return DetectResult::Success;
    }
    if contains_subslice(buf, delete) {
        return DetectResult::Success;
    }
    if contains_subslice(buf, connect) {
        return DetectResult::Success;
    }
    if contains_subslice(buf, options) {
        return DetectResult::Success;
    }
    assert(forall|m: int| 0 <= m < http_methods().len() ==> !contains_seq(buf@, http_methods()[m]));
    DetectResult::Failure
}

/// The literal `jabber`.
pub open spec fn xmpp_signature() -> Seq<u8> {
    seq![0x6au8, 0x61u8, 0x62u8, 0x62u8, 0x65u8, 0x72u8]
}

/// The XMPP recognizer waits for a deliberately large window: the word
/// `jabber` can show up late in a multi-line opening stanza, so fewer than
/// this many bytes are never enough to rule XMPP out.
pub const XMPP_MIN_LEN: usize = 50;

/// Verdict of the XMPP recognizer: the literal `jabber` anywhere in the
/// prefix, once at least `XMPP_MIN_LEN` bytes have arrived.
pub open spec fn spec_xmpp(s: Seq<u8>) -> DetectResult {
    if s.len() < XMPP_MIN_LEN {
        DetectResult::NotEnoughData
    } else if contains_seq(s, xmpp_signature()) {
        DetectResult::Success
    } else {
        DetectResult::Failure
    }
}

/// Runs the XMPP recognizer over the prefix read so far.
pub fn detect_is_xmpp(buf: &[u8]) -> (r: DetectResult)
    ensures
        r == spec_xmpp(buf@),
{
    if buf.len() < XMPP_MIN_LEN {
        return DetectResult::NotEnoughData;
    }
    let pat: &[u8] = &[0x6au8, 0x61u8, 0x62u8, 0x62u8, 0x65u8, 0x72u8];
    proof {
        assert(pat@ =~= xmpp_signature());
    }
    if contains_subslice(buf, pat) {
        DetectResult::Success
    } else {
        DetectResult::Failure
    }
}

/// The protocols known to the registry. The declaration order here is the
/// registry order, which is the tie-break when a prefix could match more
/// than one protocol: the first match wins.
#[derive(Debug, PartialEq, Eq, Structural, Hash, Copy, Clone)]
pub enum Protocol {
    Tls,
    Http,
    Ssh,
    Xmpp,
}

/// Number of protocols in the registry.
pub const PROTOCOL_COUNT: usize = 4;

/// The registry: the fixed, ordered list of protocols that detection
/// iterates over. Adding a protocol means adding it here, to
/// `spec_recognize` / `recognize`, and to its name.
pub open spec fn spec_registry() -> Seq<Protocol> {
    seq![Protocol::Tls, Protocol::Http, Protocol::Ssh, Protocol::Xmpp]
}

impl Protocol {
    /// The protocol's position in the registry order.
    pub open spec fn spec_index(self) -> int {
        match self {
            Protocol::Tls => 0,
            Protocol::Http => 1,
            Protocol::Ssh => 2,
            Protocol::Xmpp => 3,
        }
    }

    /// The protocol's name, as a character sequence.
    pub open spec fn spec_name(self) -> Seq<char> {
        match self {
            Protocol::Tls => "tls"@,
            Protocol::Http => "http"@,
            Protocol::Ssh => "ssh"@,
            Protocol::Xmpp => "xmpp"@,
        }
    }

    /// The protocol's position in the registry order.
    pub fn index(self) -> (r: usize)
        ensures
            r == self.spec_index(),
            r < PROTOCOL_COUNT,
            spec_registry()[r as int] == self,
    {
        match self {
            Protocol::Tls => 0,
            Protocol::Http => 1,
            Protocol::Ssh => 2,
            Protocol::Xmpp => 3,
        }
    }

    /// The protocol's name, used for diagnostics and to derive the
    /// per-protocol configuration options.
    pub fn name(self) -> (r: &'static str)
        ensures
            r@ == self.spec_name(),
    {
        match self {
            Protocol::Tls => "tls",
            Protocol::Http => "http",
            Protocol::Ssh => "ssh",
            Protocol::Xmpp => "xmpp",
        }
    }
}

/// Verdict of the named protocol's recognizer over a prefix.
pub open spec fn spec_recognize(p: Protocol, s: Seq<u8>) -> DetectResult {
    match p {
        Protocol::Tls => spec_tls(s),
        Protocol::Http => spec_http(s),
        Protocol::Ssh => spec_ssh(s),
        Protocol::Xmpp => spec_xmpp(s),
    }
}

/// Runs the named protocol's recognizer over the prefix read so far.
pub fn recognize(p: Protocol, buf: &[u8]) -> (r: DetectResult)
    ensures
        r == spec_recognize(p, buf@),
{
    match p {
        Protocol::Tls => detect_is_tls(buf),
        Protocol::Http => detect_is_http(buf),
        Protocol::Ssh => detect_is_ssh(buf),
        Protocol::Xmpp => detect_is_xmpp(buf),
    }
}

/// The registry as an executable list, in registry order.
pub fn registry() -> (r: Vec<Protocol>)
    ensures
        r@ == spec_registry(),
{
    let mut v: Vec<Protocol> = Vec::new();
    v.push(Protocol::Tls);
    v.push(Protocol::Http);
    v.push(Protocol::Ssh);
    v.push(Protocol::Xmpp);
    proof {
        assert(v@ =~= spec_registry());
    }
    v
}

/// The first protocol in registry order whose recognizer reports
/// `Success` on the prefix, if any.
pub open spec fn spec_detect(s: Seq<u8>) -> Option<Protocol> {
    if spec_tls(s) is Success {
        Some(Protocol::Tls)
    } else if spec_http(s) is Success {
        Some(Protocol::Http)
    } else if spec_ssh(s) is Success {
        Some(Protocol::Ssh)
    } else if spec_xmpp(s) is Success {
        Some(Protocol::Xmpp)
    } else {
        None
    }
}

/// Runs every registered recognizer over the prefix, in registry order,
/// and reports the first protocol whose recognizer succeeds.
pub fn detect_protocol(buf: &[u8]) -> (r: Option<Protocol>)
    ensures
        r == spec_detect(buf@),
{
    let reg = registry();
    let mut i: usize = 0;
    while i < reg.len()
        invariant
            0 <= i <= spec_registry().len(),
            reg@ == spec_registry(),
            forall|j: int| 0 <= j < i ==> !(spec_recognize(spec_registry()[j], buf@) is Success),
        decreases spec_registry().len() - i,
    {
        let p = reg[i];
        let verdict = recognize(p, buf);
        if verdict == DetectResult::Success {
            return Some(p);
        }
        i += 1;
    }
    assert(!(spec_recognize(spec_registry()[0], buf@) is Success));
    assert(!(spec_recognize(spec_registry()[1], buf@) is Success));
    assert(!(spec_recognize(spec_registry()[2], buf@) is Success));
    assert(!(spec_recognize(spec_registry()[3], buf@) is Success));
    None
}

/// Detects which protocol the prefix speaks and returns its name, or
/// nothing while every recognizer still reports `Failure` or
/// `NotEnoughData`.
pub fn detect(buf: &[u8]) -> (r: Option<&'static str>)
    ensures
        r is Some == spec_detect(buf@) is Some,
        r matches Some(name) ==> spec_detect(buf@) matches Some(p) && name@ == p.spec_name(),
{
    match detect_protocol(buf) {
        Some(p) => Some(p.name()),
        None => None,
    }
}

/// The names of all registered protocols, in registry order. The
/// configuration collaborator derives one upstream option per entry, so
/// adding a protocol to the registry is enough to surface its option.
pub fn protocol_names() -> (r: Vec<&'static str>)
    ensures
        r@.len() == spec_registry().len(),
        forall|i: int| 0 <= i < r@.len() ==> r@[i]@ == spec_registry()[i].spec_name(),
{
    let reg = registry();
    let mut v: Vec<&'static str> = Vec::new();
    let mut i: usize = 0;
    while i < reg.len()
        invariant
            0 <= i <= spec_registry().len(),
            reg@ == spec_registry(),
            v@.len() == i,
            forall|j: int| 0 <= j < i ==> v@[j]@ == spec_registry()[j].spec_name(),
        decreases spec_registry().len() - i,
    {
        v.push(reg[i].name());
        i += 1;
    }
    v
}

/// First-match tie-break: when a protocol's recognizer succeeds on a
/// prefix and no protocol earlier in registry order succeeds, detection
/// reports exactly that protocol — registry order is the deterministic
/// tie-break, and no other registered protocol is ever reported.
pub proof fn lemma_first_match_wins(s: Seq<u8>, k: int)
    requires
        0 <= k < spec_registry().len(),
        spec_recognize(spec_registry()[k], s) is Success,
        forall|j: int| 0 <= j < k ==> !(spec_recognize(spec_registry()[j], s) is Success),
    ensures
        spec_detect(s) == Some(spec_registry()[k]),
{
    if k == 0 {
        assert(spec_detect(s) == Some(Protocol::Tls));
    } else if k == 1 {
        assert(!(spec_recognize(spec_registry()[0], s) is Success));
        assert(spec_detect(s) == Some(Protocol::Http));
    } else if k == 2 {
        assert(!(spec_recognize(spec_registry()[0], s) is Success));
        assert(!(spec_recognize(spec_registry()[1], s) is Success));
        assert(spec_detect(s) == Some(Protocol::Ssh));
    } else {
        assert(!(spec_recognize(spec_registry()[0], s) is Success));
        assert(!(spec_recognize(spec_registry()[1], s) is Success));
        assert(!(spec_recognize(spec_registry()[2], s) is Success));
        assert(spec_detect(s) == Some(Protocol::Xmpp));
    }
}

/// Below its minimum window a recognizer is always inconclusive: it
/// reports `NotEnoughData`, never `Failure` and never `Success`, so a
/// short prefix can never permanently misclassify a connection. Below the
/// smallest window of any recognizer, detection reports nothing at all.
pub proof fn lemma_short_prefix_inconclusive(s: Seq<u8>)
    ensures
        s.len() < 3 ==> spec_tls(s) is NotEnoughData,
        s.len() < 4 ==> spec_ssh(s) is NotEnoughData,
        s.len() < 3 ==> spec_http(s) is NotEnoughData,
        s.len() < XMPP_MIN_LEN ==> spec_xmpp(s) is NotEnoughData,
        s.len() < 3 ==> spec_detect(s) is None,
{
}

/// A contiguous pattern found in a prefix is still found after the prefix
/// grows at its end.
pub proof fn lemma_contains_monotonic(s: Seq<u8>, ext: Seq<u8>, pat: Seq<u8>)
    requires
        contains_seq(s, pat),
    ensures
        contains_seq(s + ext, pat),
{
    let i = choose|i: int| contains_at(s, pat, i);
    assert((s + ext).subrange(i, i + pat.len() as int) =~= s.subrange(i, i + pat.len() as int));
    assert(contains_at(s + ext, pat, i));
}

/// Growing a prefix monotonically (appending bytes, never truncating)
/// never retracts a recognizer's `Success`: a signature fully contained in
/// the shorter prefix keeps matching however many bytes follow it.
pub proof fn lemma_success_monotonic(s: Seq<u8>, ext: Seq<u8>, p: Protocol)
    requires
        spec_recognize(p, s) is Success,
    ensures
        spec_recognize(p, s + ext) is Success,
{
    match p {
        Protocol::Tls => {
            assert((s + ext)[0] == s[0]);
            assert((s + ext)[1] == s[1]);
            assert((s + ext)[2] == s[2]);
        },
        Protocol::Http => {
            if contains_seq(s, http_signature()) {
                lemma_contains_monotonic(s, ext, http_signature());
            } else {
                let m = choose|m: int|
                    0 <= m < http_methods().len() && contains_seq(s, http_methods()[m]);
                lemma_contains_monotonic(s, ext, http_methods()[m]);
                assert(0 <= m < http_methods().len() && contains_seq(s + ext, http_methods()[m]));
            }
        },
        Protocol::Ssh => {
            assert((s + ext).subrange(0, 4) =~= s.subrange(0, 4));
        },
        Protocol::Xmpp => {
            lemma_contains_monotonic(s, ext, xmpp_signature());
        },
    }
}

} // verus!
