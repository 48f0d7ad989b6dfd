use vstd::prelude::*;

verus! {

/// The HTTP methods that a leg may use.
#[derive(Debug, Clone, Copy, PartialEq, Eq, Structural)]
pub enum HttpMethod {
    GET,
    POST,
    PUT,
    DELETE,
}

/// The wire name of a method.
pub open spec fn method_name(m: HttpMethod) -> Seq<char> {
    match m {
        HttpMethod::GET => "GET"@,
        HttpMethod::POST => "POST"@,
        HttpMethod::PUT => "PUT"@,
        HttpMethod::DELETE => "DELETE"@,
    }
}

impl HttpMethod {
    /// The method's name as it stands on the wire.
    pub fn as_str(&self) -> (r: &'static str)
        ensures
            r@ == method_name(*self),
    {
        match self {
            HttpMethod::GET => "GET",
            HttpMethod::POST => "POST",
            HttpMethod::PUT => "PUT",
            HttpMethod::DELETE => "DELETE",
        }
    }
}

impl Default for HttpMethod {
    /// A leg that names no method is a GET.
    fn default() -> (r: HttpMethod)
        ensures
            r == HttpMethod::GET,
    {
        HttpMethod::GET
    }
}

/// A batch as the gateway receives it: a budget and the legs to run.
#[derive(Debug, Clone)]
pub struct OctoplexRequest {
    /// The budget of the whole batch, in milliseconds.
    pub timeout_msec: u64,
    pub requests: Vec<SingleHttpRequest>,
}

/// One leg of a batch.
#[derive(Debug, Clone)]
pub struct SingleHttpRequest {
    pub method: HttpMethod,
    pub uri: String,
    /// Header names and values, one pair per header.
    pub headers: Vec<(String, String)>,
    pub body: Option<String>,
}

/// The reply to a batch: one outcome per leg, in the order of the legs.
#[derive(Debug, Clone)]
pub struct OctoplexResponse {
    pub responses: Vec<SingleOutcome>,
}

/// The body of a reply that rejects a whole batch.
#[derive(Debug, Clone)]
pub struct OctoplexError {
    pub error: String,
}

/// The body of a liveness reply.
#[derive(Debug, Clone, Copy, PartialEq, Eq, Structural)]
pub struct HealthResponse {
    pub healthy: bool,
}

impl HealthResponse {
    /// The reply of a live gateway.
    pub fn alive() -> (r: HealthResponse)
        ensures
            r.healthy,
    {
        HealthResponse { healthy: true }
    }
}

impl OctoplexError {
    /// The error body that carries a message.
    pub fn with_message(message: String) -> (r: OctoplexError)
        ensures
            r.error@ == message@,
    {
        OctoplexError { error: message }
    }
}

/// What one leg came to.
#[derive(Debug, Clone)]
pub enum SingleOutcome {
    Failure(SingleHttpFailure),
    Success(SingleHttpResponse),
}

/// A leg that failed, with the reason and the time it took.
#[derive(Debug, Clone)]
pub struct SingleHttpFailure {
    pub error: String,
    pub duration_msec: u64,
}

/// A leg that got a reply from its target.
#[derive(Debug, Clone)]
pub struct SingleHttpResponse {
    pub headers: Headers,
    pub status: u16,
    pub content: Option<String>,
    pub duration_msec: u64,
}

/// Two outcomes are equal when they are of the same kind.
impl PartialEq for SingleOutcome {
    fn eq(&self, other: &SingleOutcome) -> (r: bool) {
        match (self, other) {
            (SingleOutcome::Failure(_), SingleOutcome::Failure(_)) => true,
            (SingleOutcome::Success(_), SingleOutcome::Success(_)) => true,
            _ => false,
        }
    }
}

impl vstd::std_specs::cmp::PartialEqSpecImpl for SingleOutcome {
    open spec fn obeys_eq_spec() -> bool {
        true
    }

    open spec fn eq_spec(&self, other: &SingleOutcome) -> bool {
        (self is Failure && other is Failure) || (self is Success && other is Success)
    }
}

impl SingleOutcome {
    /// The name of the outcome's kind.
    pub fn kind_name(&self) -> (r: &'static str)
        ensures
            r@ == (if self is Success { "Success"@ } else { "Failure"@ }),
    {
        match self {
            SingleOutcome::Failure(_) => "Failure",
            SingleOutcome::Success(_) => "Success",
        }
    }
}

/// The headers of a reply, each occurrence of a name kept, in the order received.
#[derive(Debug, Clone)]
pub struct Headers {
    pub entries: Vec<(String, String)>,
}

/// A header list as pairs of character sequences.
pub open spec fn pairs_view(v: Seq<(String, String)>) -> Seq<(Seq<char>, Seq<char>)> {
    v.map_values(|p: (String, String)| (p.0@, p.1@))
}

/// The value that the last occurrence of `name` carries, if any.
pub open spec fn last_value(es: Seq<(Seq<char>, Seq<char>)>, name: Seq<char>) -> Option<Seq<char>>
    decreases es.len(),
{
    if es.len() == 0 {
        None
    } else if es.last().0 == name {
        Some(es.last().1)
    } else {
        last_value(es.drop_last(), name)
    }
}

/// No name occurs twice.
pub open spec fn names_unique(es: Seq<(Seq<char>, Seq<char>)>) -> bool {
    forall|i: int, j: int| 0 <= i < j < es.len() ==> es[i].0 != es[j].0
}

/// `obj` holds each name of `es` once, with the value of its last occurrence.
pub open spec fn is_flattening(obj: Seq<(Seq<char>, Seq<char>)>, es: Seq<(Seq<char>, Seq<char>)>) -> bool {
    &&& names_unique(obj)
    &&& forall|j: int| 0 <= j < obj.len() ==> last_value(es, #[trigger] obj[j].0) == Some(obj[j].1)
    &&& forall|n: Seq<char>| #[trigger] last_value(es, n) is Some ==> exists|j: int| 0 <= j < obj.len() && obj[j].0 == n
}

impl Headers {
    pub open spec fn view(&self) -> Seq<(Seq<char>, Seq<char>)> {
        pairs_view(self.entries@)
    }

    pub fn from_entries(entries: Vec<(String, String)>) -> (r: Headers)
        ensures
            r.entries@ == entries@,
    {
        Headers { entries }
    }

    /// The headers as a map from name to value: where a name repeats, its last value wins.
    pub fn to_object(&self) -> (r: Vec<(String, String)>)
        ensures
            is_flattening(pairs_view(r@), self.view()),
    {
        let mut obj: Vec<(String, String)> = Vec::new();
        let n = self.entries.len();
        let mut i: usize = 0;
        while i < n
            invariant
                n == self.entries.len(),
                0 <= i <= n,
                is_flattening(pairs_view(obj@), pairs_view(self.entries@.take(i as int))),
            decreases n - i,
        {
            let name = &self.entries[i].0;
            let value = &self.entries[i].1;
            let ghost es = pairs_view(self.entries@.take(i as int));
            let ghost es2 = pairs_view(self.entries@.take(i as int + 1));
            proof {
                assert(es2.drop_last() =~= es);
                assert(es2.last() == (name@, value@));
            }
            let mut found: usize = obj.len();
            let mut j: usize = 0;
            while j < obj.len()
                invariant
                    0 <= j <= obj.len(),
                    found == obj.len() || (found < j && obj@[found as int].0@ == name@),
                    found == obj.len() ==> forall|k: int| 0 <= k < j ==> obj@[k].0@ != name@,
                decreases obj.len() - j,
            {
                if found == obj.len() && obj[j].0 == *name {
                    found = j;
                }
                j = j + 1;
            }
            let ghost before = pairs_view(obj@);
            if found < obj.len() {
                obj.set(found, (name.clone(), value.clone()));
                proof {
                    let after = pairs_view(obj@);
                    assert forall|k: int| 0 <= k < after.len() implies last_value(es2, #[trigger] after[k].0) == Some(after[k].1) by {
                        if k != found {
                            assert(after[k] == before[k]);
                            assert(before[found as int].0 == name@);
                            assert(before[k].0 != name@);
                            assert(last_value(es2, after[k].0) == last_value(es, after[k].0));
                        } else {
                            assert(after[k] == (name@, value@));
                        }
                    }
                    assert forall|a: int, b: int| 0 <= a < b < after.len() implies after[a].0 != after[b].0 by {
                        assert(before[a].0 == after[a].0);
                        assert(before[b].0 == after[b].0);
                    }
                    assert forall|nm: Seq<char>| #[trigger] last_value(es2, nm) is Some implies exists|k: int| 0 <= k < after.len() && after[k].0 == nm by {
                        if nm == name@ {
                            assert(after[found as int].0 == nm);
                        } else {
                            assert(last_value(es, nm) is Some);
                            let k = choose|k: int| 0 <= k < before.len() && before[k].0 == nm;
                            assert(after[k].0 == nm);
                        }
                    }
                }
            } else {
                obj.push((name.clone(), value.clone()));
                proof {
                    let after = pairs_view(obj@);
                    assert forall|k: int| 0 <= k < after.len() implies last_value(es2, #[trigger] after[k].0) == Some(after[k].1) by {
                        if k < before.len() {
                            assert(after[k] == before[k]);
                            assert(before[k].0 != name@);
                            assert(last_value(es2, after[k].0) == last_value(es, after[k].0));
                        } else {
                            assert(after[k] == (name@, value@));
                        }
                    }
                    assert forall|a: int, b: int| 0 <= a < b < after.len() implies after[a].0 != after[b].0 by {
                        if b < before.len() {
                            assert(before[a].0 == after[a].0);
                            assert(before[b].0 == after[b].0);
                        } else {
                            assert(before[a].0 == after[a].0);
                        }
                    }
                    assert forall|nm: Seq<char>| #[trigger] last_value(es2, nm) is Some implies exists|k: int| 0 <= k < after.len() && after[k].0 == nm by {
                        if nm == name@ {
                            assert(after[before.len() as int].0 == nm);
                        } else {
                            assert(last_value(es, nm) is Some);
                            let k = choose|k: int| 0 <= k < before.len() && before[k].0 == nm;
                            assert(after[k].0 == nm);
                        }
                    }
                }
            }
            i = i + 1;
        }
        proof {
            assert(self.entries@.take(n as int) =~= self.entries@);
        }
        obj
    }
}

} // verus!
