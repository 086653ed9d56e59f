//! The label model shared by every metric of this crate.
//!
//! A counter or histogram is partitioned by a fixed triple of label values.
//! For HTTP exchanges the triple is route, method and numeric status; for
//! gRPC exchanges it is the call path, the literal transport name `grpc`,
//! and the status taken from the reply's trailer. Label values always come
//! from the framework's static route table or from this module's rendering
//! of small numbers, never from unbounded user input, so the partition
//! stays bounded.

use vstd::prelude::*;

verus! {

/// Mathematical value of a label triple.
pub type LabelView = (Seq<char>, Seq<char>, Seq<char>);

/// One metric's label values: the partition key under which an observation
/// is recorded.
#[derive(Debug)]
pub struct LabelValues {
    pub endpoint: String,
    pub method: String,
    pub status: String,
}

impl View for LabelValues {
    type V = LabelView;

    open spec fn view(&self) -> LabelView {
        (self.endpoint@, self.method@, self.status@)
    }
}

impl Clone for LabelValues {
    /// Clones the label triple; the copy carries the same three values.
    fn clone(&self) -> (r: Self)
        ensures
            r == *self,
    {
        Self {
            endpoint: self.endpoint.clone(),
            method: self.method.clone(),
            status: self.status.clone(),
        }
    }
}

impl LabelValues {
    /// Builds a label triple from its three values.
    pub fn new(endpoint: String, method: String, status: String) -> (r: Self)
        ensures
            r@ == (endpoint@, method@, status@),
    {
        Self { endpoint, method, status }
    }

    /// Whether two label triples hold the same values.
    pub fn same_as(&self, other: &LabelValues) -> (r: bool)
        ensures
            r == (self@ == other@),
    {
        self.endpoint == other.endpoint && self.method == other.method && self.status
            == other.status
    }
}

/// Pair sequence under label views: the form in which a metric's children
/// denote a map.
pub open spec fn labeled_view<V>(s: Seq<(LabelValues, V)>) -> Seq<(LabelView, V)> {
    s.map_values(|c: (LabelValues, V)| (c.0@, c.1))
}

/// Decimal digit for one value below ten.
pub open spec fn spec_digit(d: int) -> char {
    if d == 0 {
        '0'
    } else if d == 1 {
        '1'
    } else if d == 2 {
        '2'
    } else if d == 3 {
        '3'
    } else if d == 4 {
        '4'
    } else if d == 5 {
        '5'
    } else if d == 6 {
        '6'
    } else if d == 7 {
        '7'
    } else if d == 8 {
        '8'
    } else {
        '9'
    }
}

/// Decimal rendering of a number, most significant digit first, without
/// leading zeroes.
pub open spec fn spec_dec(n: nat) -> Seq<char>
    decreases n,
{
    if n < 10 {
        seq![spec_digit(n as int)]
    } else {
        spec_dec(n / 10).push(spec_digit((n % 10) as int))
    }
}

/// The decimal digit below ten, as a one-character string.
fn digit_str(d: u64) -> (r: &'static str)
    requires
        d < 10,
    ensures
        r@ == seq![spec_digit(d as int)],
{
    proof {
        reveal_strlit("0");
        reveal_strlit("1");
        reveal_strlit("2");
        reveal_strlit("3");
        reveal_strlit("4");
        reveal_strlit("5");
        reveal_strlit("6");
        reveal_strlit("7");
        reveal_strlit("8");
        reveal_strlit("9");
    }
    match d {
        0 => "0",
        1 => "1",
        2 => "2",
        3 => "3",
        4 => "4",
        5 => "5",
        6 => "6",
        7 => "7",
        8 => "8",
        _ => "9",
    }
}

/// Renders a number in decimal.
pub fn u64_to_dec(n: u64) -> (r: String)
    ensures
        r@ == spec_dec(n as nat),
    decreases n,
{
    if n < 10 {
        digit_str(n).to_owned()
    } else {
        let mut prefix = u64_to_dec(n / 10);
        prefix.append(digit_str(n % 10));
        prefix
    }
}

/// Renders an HTTP status code as the label value it is recorded under.
pub fn status_label(status: u16) -> (r: String)
    ensures
        r@ == spec_dec(status as nat),
{
    u64_to_dec(status as u64)
}

/// Route label owed for an exchange: the matched route's template, or the
/// sentinel `UNKNOWN` when the framework could not match a route.
pub open spec fn spec_route_label(route: Option<Seq<char>>) -> Seq<char> {
    match route {
        Some(r) => r,
        None => "UNKNOWN"@,
    }
}

/// The label triple owed for one HTTP exchange: route template (or the
/// `UNKNOWN` sentinel), method, and decimal status code.
pub open spec fn spec_http_labels(
    route: Option<Seq<char>>,
    method: Seq<char>,
    status: u16,
) -> LabelView {
    (spec_route_label(route), method, spec_dec(status as nat))
}

/// Resolves the label triple for one HTTP exchange.
pub fn resolve_http_labels(route: Option<&str>, method: &str, status: u16) -> (r: LabelValues)
    ensures
        r@ == spec_http_labels(route.deep_view(), method@, status),
{
    let endpoint = match route {
        Some(r) => r.to_owned(),
        None => "UNKNOWN".to_owned(),
    };
    LabelValues { endpoint, method: method.to_owned(), status: status_label(status) }
}

/// Status label owed for a gRPC exchange: the reply's `grpc-status` value,
/// or the sentinel `0` — the protocol's code for success — when the reply
/// carries none.
pub open spec fn spec_grpc_status_label(grpc_status: Option<Seq<char>>) -> Seq<char> {
    match grpc_status {
        Some(s) => s,
        None => "0"@,
    }
}

/// The label triple owed for one gRPC exchange: call path, the transport
/// name, and the reply's status (or the `0` sentinel).
pub open spec fn spec_grpc_labels(path: Seq<char>, grpc_status: Option<Seq<char>>) -> LabelView {
    (path, "grpc"@, spec_grpc_status_label(grpc_status))
}

/// Resolves the label triple for one gRPC exchange.
pub fn resolve_grpc_labels(path: &str, grpc_status: Option<&str>) -> (r: LabelValues)
    ensures
        r@ == spec_grpc_labels(path@, grpc_status.deep_view()),
{
    let status = match grpc_status {
        Some(s) => s.to_owned(),
        None => "0".to_owned(),
    };
    LabelValues { endpoint: path.to_owned(), method: "grpc".to_owned(), status }
}

/// Prefixed metric name: the configured namespace, an underscore, and the
/// base name; or the base name alone under the empty namespace.
pub open spec fn spec_fq_name(namespace: Seq<char>, name: Seq<char>) -> Seq<char> {
    if namespace.len() == 0 {
        name
    } else {
        namespace + seq!['_'] + name
    }
}

/// Applies the configured namespace prefix to a metric name.
pub fn fq_name(namespace: &str, name: &str) -> (r: String)
    ensures
        r@ == spec_fq_name(namespace@, name@),
{
    if namespace.is_empty() {
        name.to_owned()
    } else {
        let mut full = namespace.to_owned();
        full.append("_");
        full.append(name);
        proof {
            reveal_strlit("_");
            assert(full@ =~= spec_fq_name(namespace@, name@));
        }
        full
    }
}

} // verus!

verus! {

/// Whether a character may stand in a metric name: letters, digits,
/// underscores and colons, with digits not in first position.
pub open spec fn spec_valid_name_char(c: char, first: bool) -> bool {
    (97 <= c as u32 <= 122) || (65 <= c as u32 <= 90) || c as u32 == 95 || c as u32 == 58 || (!first
        && 48 <= c as u32 <= 57)
}

/// Whether a string is a well-formed metric name.
pub open spec fn spec_valid_metric_name(s: Seq<char>) -> bool {
    s.len() > 0 && forall|i: int| 0 <= i < s.len() ==> spec_valid_name_char(s[i], i == 0)
}

/// Tests whether a string is a well-formed metric name.
pub fn is_valid_metric_name(name: &str) -> (b: bool)
    ensures
        b == spec_valid_metric_name(name@),
{
    let n = name.unicode_len();
    if n == 0 {
        return false;
    }
    let mut idx: usize = 0;
    while idx < n
        invariant
            idx <= n,
            n == name@.len(),
            forall|i: int| 0 <= i < idx ==> spec_valid_name_char(name@[i], i == 0),
        decreases n - idx,
    {
        let c = name.get_char(idx);
        let u = c as u32;
        let ok = (97 <= u && u <= 122) || (65 <= u && u <= 90) || u == 95 || u == 58 || (idx != 0
            && 48 <= u && u <= 57);
        if !ok {
            proof {
                assert(!spec_valid_name_char(name@[idx as int], idx == 0));
            }
            return false;
        }
        idx += 1;
    }
    true
}

/// Prefixing a well-formed name with a well-formed (or empty) namespace
/// yields a well-formed name.
pub proof fn lemma_fq_name_valid(namespace: Seq<char>, name: Seq<char>)
    requires
        spec_valid_metric_name(name),
        namespace.len() == 0 || spec_valid_metric_name(namespace),
    ensures
        spec_valid_metric_name(spec_fq_name(namespace, name)),
{
    if namespace.len() != 0 {
        let s = spec_fq_name(namespace, name);
        assert forall|i: int| 0 <= i < s.len() implies spec_valid_name_char(s[i], i == 0) by {
            if i < namespace.len() {
                assert(s[i] == namespace[i]);
            } else if i == namespace.len() {
                assert(s[i] == '_');
            } else {
                let j = i - namespace.len() - 1;
                assert(s[i] == name[j]);
                assert(spec_valid_name_char(name[j], j == 0));
            }
        };
    }
}

} // verus!
