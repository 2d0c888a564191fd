//! Classification of a failed RPC attempt into a retry decision and a metric label.
use vstd::prelude::*;
use vstd::string::*;

verus! {

/// The error object of a JSON-RPC 2.0 response envelope.
pub struct RpcErrorBody {
    pub code: i64,
    pub message: String,
}

/// One failed attempt of an RPC call, as seen by the transport.
pub enum Failure {
    /// The HTTP layer answered with a non-success status.
    HttpStatus(u16),
    /// The node answered with a JSON-RPC error object.
    JsonRpc(RpcErrorBody),
    /// The body did not deserialize; holds the error object that a second,
    /// looser parse of the body found, if any.
    Malformed(Option<RpcErrorBody>),
    /// The request timed out.
    Timeout,
    /// Any other transport failure (no status, no body).
    Transport,
}

/// Taxonomy of failures, which also selects the retry budget.
#[derive(Clone, Copy, Debug, PartialEq, Eq, Structural)]
pub enum FailureClass {
    RateLimited,
    Timeout,
    HttpError,
    MalformedResponse,
    Unknown,
}

/// The label under which a failure is counted in the error counter.
#[derive(Clone, Copy, Debug, PartialEq, Eq, Structural)]
pub enum ErrorLabel {
    /// "429": HTTP status 429 or JSON-RPC code 429.
    TooManyRequests,
    /// "-32005": project rate limit exceeded.
    ProjectRateLimit,
    /// "-32016": rate limit for the caller's address.
    AddressRateLimit,
    /// "header not found": nodes behind one load balancer disagree.
    HeaderNotFound,
    /// "daily request count exceeded, request rate limited".
    DailyLimit,
    /// Any other HTTP status, labelled by its number.
    Status(u16),
    /// "unknown".
    Unknown,
}

/// What the classifier decides about one failed attempt.
#[derive(Clone, Copy, Debug, PartialEq, Eq, Structural)]
pub struct Verdict {
    pub retry: bool,
    pub class: FailureClass,
    pub label: ErrorLabel,
}

pub open spec fn has_infix(hay: Seq<char>, needle: Seq<char>) -> bool {
    exists|i: int| 0 <= i <= hay.len() - needle.len() && #[trigger] hay.subrange(i, i + needle.len()) == needle
}

pub open spec fn verdict(retry: bool, class: FailureClass, label: ErrorLabel) -> Verdict {
    Verdict { retry, class, label }
}

/// Rules for a JSON-RPC error object, in priority order.
pub open spec fn rpc_verdict(code: i64, message: Seq<char>) -> Verdict {
    if code == 429 {
        verdict(true, FailureClass::RateLimited, ErrorLabel::TooManyRequests)
    } else if code == -32005 {
        verdict(true, FailureClass::RateLimited, ErrorLabel::ProjectRateLimit)
    } else if code == -32016 && has_infix(message, "rate limit"@) {
        verdict(true, FailureClass::RateLimited, ErrorLabel::AddressRateLimit)
    } else if message == "header not found"@ {
        verdict(true, FailureClass::RateLimited, ErrorLabel::HeaderNotFound)
    } else if message == "daily request count exceeded, request rate limited"@ {
        verdict(true, FailureClass::RateLimited, ErrorLabel::DailyLimit)
    } else {
        verdict(false, FailureClass::Unknown, ErrorLabel::Unknown)
    }
}

/// The full classification table. A body that fails to parse is classified by the
/// error object found in it, else as malformed. A timeout is retried under its own
/// budget and counted as unknown; anything else unlisted is final and unknown.
pub open spec fn verdict_of(f: Failure) -> Verdict {
    match f {
        Failure::HttpStatus(s) => if s == 429 {
            verdict(true, FailureClass::RateLimited, ErrorLabel::TooManyRequests)
        } else {
            verdict(false, FailureClass::HttpError, ErrorLabel::Status(s))
        },
        Failure::JsonRpc(e) => rpc_verdict(e.code, e.message@),
        Failure::Malformed(Some(e)) => rpc_verdict(e.code, e.message@),
        Failure::Malformed(None) => verdict(
            false,
            FailureClass::MalformedResponse,
            ErrorLabel::Unknown,
        ),
        Failure::Timeout => verdict(true, FailureClass::Timeout, ErrorLabel::Unknown),
        Failure::Transport => verdict(false, FailureClass::Unknown, ErrorLabel::Unknown),
    }
}

pub open spec fn digit_char(d: nat) -> char {
    if d == 0 { '0' }
    else if d == 1 { '1' }
    else if d == 2 { '2' }
    else if d == 3 { '3' }
    else if d == 4 { '4' }
    else if d == 5 { '5' }
    else if d == 6 { '6' }
    else if d == 7 { '7' }
    else if d == 8 { '8' }
    else { '9' }
}

/// Decimal digits of a natural number, most significant first.
pub open spec fn decimal(n: nat) -> Seq<char>
    decreases n,
{
    if n < 10 {
        seq![digit_char(n)]
    } else {
        decimal(n / 10).push(digit_char(n % 10))
    }
}

/// The text under which a label is exported.
pub open spec fn label_text(l: ErrorLabel) -> Seq<char> {
    match l {
        ErrorLabel::TooManyRequests => "429"@,
        ErrorLabel::ProjectRateLimit => "-32005"@,
        ErrorLabel::AddressRateLimit => "-32016"@,
        ErrorLabel::HeaderNotFound => "header not found"@,
        ErrorLabel::DailyLimit => "daily request count exceeded, request rate limited"@,
        ErrorLabel::Status(s) => decimal(s as nat),
        ErrorLabel::Unknown => "unknown"@,
    }
}

/// Whether `needle` occurs in `hay` starting at character `at`.
fn matches_at(hay: &str, needle: &str, at: usize, hay_len: usize, needle_len: usize) -> (r: bool)
    requires
        hay_len == hay@.len(),
        needle_len == needle@.len(),
        at + needle_len <= hay_len,
    ensures
        r == (hay@.subrange(at as int, at + needle_len) == needle@),
{
    let mut k: usize = 0;
    while k < needle_len
        invariant
            hay_len == hay@.len(),
            needle_len == needle@.len(),
            at + needle_len <= hay_len,
            k <= needle_len,
            forall|j: int| 0 <= j < k ==> hay@[at + j] == needle@[j],
        decreases needle_len - k,
    {
        if hay.get_char(at + k) != needle.get_char(k) {
            assert(hay@.subrange(at as int, at + needle_len)[k as int] != needle@[k as int]);
            return false;
        }
        k += 1;
    }
    assert(hay@.subrange(at as int, at + needle_len) =~= needle@);
    true
}

/// Whether `needle` occurs in `hay` as a run of consecutive characters.
pub fn contains_text(hay: &str, needle: &str) -> (r: bool)
    ensures
        r == has_infix(hay@, needle@),
{
    let n = hay.unicode_len();
    let m = needle.unicode_len();
    if m > n {
        return false;
    }
    let mut i: usize = 0;
    loop
        invariant
            n == hay@.len(),
            m == needle@.len(),
            m <= n,
            i <= n - m,
            forall|j: int| 0 <= j < i ==> #[trigger] hay@.subrange(j, j + m) != needle@,
        decreases n - m - i,
    {
        if matches_at(hay, needle, i, n, m) {
            return true;
        }
        if i == n - m {
            return false;
        }
        i += 1;
    }
}

fn digit_str(d: u16) -> (r: &'static str)
    requires
        d < 10,
    ensures
        r@ == seq![digit_char(d as nat)],
{
    proof {
        reveal_strlit("0");
        reveal_strlit("1");
        reveal_strlit("2");
        reveal_strlit("3");
        reveal_strlit("4");
        reveal_strlit("5");
        reveal_strlit("6");
        reveal_strlit("7");
        reveal_strlit("8");
        reveal_strlit("9");
    }
    let r = if d == 0 { "0" }
    else if d == 1 { "1" }
    else if d == 2 { "2" }
    else if d == 3 { "3" }
    else if d == 4 { "4" }
    else if d == 5 { "5" }
    else if d == 6 { "6" }
    else if d == 7 { "7" }
    else if d == 8 { "8" }
    else { "9" };
    assert(r@ =~= seq![digit_char(d as nat)]);
    r
}

/// The decimal representation of `n`.
pub fn decimal_string(n: u16) -> (r: String)
    ensures
        r@ == decimal(n as nat),
    decreases n,
{
    if n < 10 {
        String::from_str(digit_str(n))
    } else {
        let mut s = decimal_string(n / 10);
        s.append(digit_str(n % 10));
        assert(s@ =~= decimal(n as nat));
        s
    }
}

impl ErrorLabel {
    /// The text under which this label is exported.
    pub fn text(&self) -> (r: String)
        ensures
            r@ == label_text(*self),
    {
        match self {
            ErrorLabel::TooManyRequests => String::from_str("429"),
            ErrorLabel::ProjectRateLimit => String::from_str("-32005"),
            ErrorLabel::AddressRateLimit => String::from_str("-32016"),
            ErrorLabel::HeaderNotFound => String::from_str("header not found"),
            ErrorLabel::DailyLimit => String::from_str(
                "daily request count exceeded, request rate limited",
            ),
            ErrorLabel::Status(s) => decimal_string(*s),
            ErrorLabel::Unknown => String::from_str("unknown"),
        }
    }
}

/// Applies the JSON-RPC rules to an error object.
pub fn classify_rpc_error(e: &RpcErrorBody) -> (r: Verdict)
    ensures
        r == rpc_verdict(e.code, e.message@),
{
    if e.code == 429 {
        Verdict { retry: true, class: FailureClass::RateLimited, label: ErrorLabel::TooManyRequests }
    } else if e.code == -32005 {
        Verdict { retry: true, class: FailureClass::RateLimited, label: ErrorLabel::ProjectRateLimit }
    } else if e.code == -32016 && contains_text(e.message.as_str(), "rate limit") {
        Verdict { retry: true, class: FailureClass::RateLimited, label: ErrorLabel::AddressRateLimit }
    } else if e.message == String::from_str("header not found") {
        Verdict { retry: true, class: FailureClass::RateLimited, label: ErrorLabel::HeaderNotFound }
    } else if e.message == String::from_str("daily request count exceeded, request rate limited") {
        Verdict { retry: true, class: FailureClass::RateLimited, label: ErrorLabel::DailyLimit }
    } else {
        Verdict { retry: false, class: FailureClass::Unknown, label: ErrorLabel::Unknown }
    }
}

/// Classifies one failed attempt: whether to retry, its class and its label.
pub fn classify(f: &Failure) -> (r: Verdict)
    ensures
        r == verdict_of(*f),
{
    match f {
        Failure::HttpStatus(s) => if *s == 429 {
            Verdict { retry: true, class: FailureClass::RateLimited, label: ErrorLabel::TooManyRequests }
        } else {
            Verdict { retry: false, class: FailureClass::HttpError, label: ErrorLabel::Status(*s) }
        },
        Failure::JsonRpc(e) => classify_rpc_error(e),
        Failure::Malformed(Some(e)) => classify_rpc_error(e),
        Failure::Malformed(None) => Verdict {
            retry: false,
            class: FailureClass::MalformedResponse,
            label: ErrorLabel::Unknown,
        },
        Failure::Timeout => Verdict { retry: true, class: FailureClass::Timeout, label: ErrorLabel::Unknown },
        Failure::Transport => Verdict { retry: false, class: FailureClass::Unknown, label: ErrorLabel::Unknown },
    }
}

} // verus!
