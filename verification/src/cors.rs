//! Cross-Origin header negotiation: policies that decide whether, and with
//! what value, the `Access-Control-Allow-Headers` and
//! `Access-Control-Expose-Headers` response headers are emitted.

use vstd::prelude::*;
use vstd::string::*;

verus! {

/// What a list of header names joins to: the names in their given order,
/// separated by single commas, with no surrounding whitespace.
pub open spec fn comma_joined(names: Seq<Seq<char>>) -> Seq<char>
    decreases names.len(),
{
    if names.len() == 0 {
        Seq::empty()
    } else if names.len() == 1 {
        names[0]
    } else {
        names[0] + seq![','] + comma_joined(names.drop_first())
    }
}

/// Joining one more name onto a non-empty list appends a comma and the name.
pub proof fn lemma_comma_joined_push(names: Seq<Seq<char>>, name: Seq<char>)
    ensures
        names.len() == 0 ==> comma_joined(names.push(name)) == name,
        names.len() > 0 ==> comma_joined(names.push(name)) == comma_joined(names) + seq![
            ',',
        ] + name,
    decreases names.len(),
{
    let pushed = names.push(name);
    if names.len() == 0 {
        assert(pushed.len() == 1);
        assert(pushed[0] == name);
    } else if names.len() == 1 {
        assert(pushed.len() == 2);
        assert(pushed.drop_first() =~= seq![name]);
        assert(comma_joined(pushed.drop_first()) == name);
        assert(comma_joined(pushed) == names[0] + seq![','] + name);
        assert(comma_joined(names) == names[0]);
    } else {
        lemma_comma_joined_push(names.drop_first(), name);
        assert(pushed.drop_first() =~= names.drop_first().push(name));
        assert(comma_joined(pushed) == names[0] + seq![','] + (comma_joined(names.drop_first())
            + seq![','] + name));
        assert(names[0] + seq![','] + (comma_joined(names.drop_first()) + seq![','] + name) =~= (
        names[0] + seq![','] + comma_joined(names.drop_first())) + seq![','] + name);
    }
}

/// Joins header names with commas, in the given order, preserving case;
/// an empty list joins to nothing.
pub fn separated_by_commas(names: &Vec<String>) -> (r: Option<String>)
    ensures
        match r {
            Some(v) => names@.len() > 0 && v@ == comma_joined(names.deep_view()),
            None => names@.len() == 0,
        },
{
    if names.len() == 0 {
        None
    } else {
        let mut out: String = names[0].clone();
        proof {
            assert(names.deep_view().take(1) =~= seq![names@[0]@]);
            assert(comma_joined(seq![names@[0]@]) == names@[0]@);
        }
        let mut i: usize = 1;
        while i < names.len()
            invariant
                1 <= i <= names@.len(),
                out@ == comma_joined(names.deep_view().take(i as int)),
            decreases names@.len() - i,
        {
            out.append(",");
            out.append(names[i].as_str());
            proof {
                reveal_strlit(",");
                assert(","@ =~= seq![',']);
                let prefix = names.deep_view().take(i as int);
                lemma_comma_joined_push(prefix, names@[i as int]@);
                assert(names.deep_view().take(i + 1) =~= prefix.push(names@[i as int]@));
            }
            i += 1;
        }
        proof {
            assert(names.deep_view().take(names@.len() as int) =~= names.deep_view());
        }
        Some(out)
    }
}

/// The part of a request this engine reads: the value of the request's
/// `Access-Control-Request-Headers` header, when that header is present.
#[derive(Clone, Debug)]
pub struct CorsRequest {
    pub request_headers: Option<String>,
}

/// Middleware context handed through to a decision strategy, as the string
/// entries the surrounding chain deposited; this engine never reads it.
#[derive(Clone, Debug, Default)]
pub struct Depot {
    pub entries: Vec<(String, String)>,
}

/// A caller-supplied decision strategy: given the request's origin header
/// value, the request and the middleware context, produce the header value
/// to emit. Invoked only when an origin value is present.
pub trait HeaderJudge {
    fn decide(&self, origin: &String, req: &CorsRequest, depot: &Depot) -> String;
}

/// The strategy slot of a policy that computes nothing: echoes the origin.
#[derive(Clone, Copy, Debug)]
pub struct NoJudge;

impl HeaderJudge for NoJudge {
    fn decide(&self, origin: &String, _req: &CorsRequest, _depot: &Depot) -> String {
        origin.clone()
    }
}

/// The closed variant set of an Allow-Headers policy.
#[derive(Clone)]
pub enum AllowHeadersInner<J> {
    /// Emit no header.
    Suppressed,
    /// Emit a constant, pre-joined header value.
    Fixed(String),
    /// Emit the strategy's decision, when an origin value is present.
    Computed(J),
    /// Emit the request's `Access-Control-Request-Headers` value verbatim.
    Mirrored,
}

/// The name of the response header an Allow-Headers policy emits.
pub open spec fn allow_headers_name() -> Seq<char> {
    "Access-Control-Allow-Headers"@
}

/// Configuration for the `Access-Control-Allow-Headers` response header.
#[derive(Clone)]
#[must_use]
pub struct AllowHeaders<J = NoJudge> {
    pub inner: AllowHeadersInner<J>,
}

impl<J> AllowHeaders<J> {
    /// What an Allow-Headers policy resolves to: whether `r` is the header
    /// (name and value) this policy emits for a request with the given
    /// origin presence.
    pub open spec fn resolves_to(
        self,
        origin_present: bool,
        req: CorsRequest,
        r: Option<(String, String)>,
    ) -> bool {
        match self.inner {
            AllowHeadersInner::Suppressed => r is None,
            AllowHeadersInner::Fixed(v) => r matches Some(h) && h.0@ == allow_headers_name()
                && h.1@ == v@,
            AllowHeadersInner::Computed(_) => if origin_present {
                r matches Some(h) && h.0@ == allow_headers_name()
            } else {
                r is None
            },
            AllowHeadersInner::Mirrored => match req.request_headers {
                Some(v) => r matches Some(h) && h.0@ == allow_headers_name() && h.1@ == v@,
                None => r is None,
            },
        }
    }

    /// A policy is a wildcard exactly when it is fixed to the value `*`.
    pub open spec fn spec_is_wildcard(self) -> bool {
        self.inner matches AllowHeadersInner::Fixed(v) && v@ == "*"@
    }

    /// Allow any headers, by a constant wildcard (`*`) value.
    pub fn any() -> (r: Self)
        ensures
            r.spec_is_wildcard(),
    {
        Self { inner: AllowHeadersInner::Fixed(String::from_str("*")) }
    }

    /// Allow the listed headers: suppressed when the list is empty, else a
    /// fixed value joining the names with commas in the given order.
    pub fn list(headers: Vec<String>) -> (r: Self)
        ensures
            headers@.len() == 0 ==> r.inner is Suppressed,
            headers@.len() > 0 ==> (r.inner matches AllowHeadersInner::Fixed(v) && v@
                == comma_joined(headers.deep_view())),
    {
        match separated_by_commas(&headers) {
            None => Self { inner: AllowHeadersInner::Suppressed },
            Some(v) => Self { inner: AllowHeadersInner::Fixed(v) },
        }
    }

    /// Allow headers as decided by the given strategy.
    pub fn judge(f: J) -> (r: Self)
        ensures
            r.inner == AllowHeadersInner::Computed(f),
    {
        Self { inner: AllowHeadersInner::Computed(f) }
    }

    /// Allow any headers, by mirroring the preflight request's
    /// `Access-Control-Request-Headers` header.
    pub fn mirror_request() -> (r: Self)
        ensures
            r.inner is Mirrored,
    {
        Self { inner: AllowHeadersInner::Mirrored }
    }

    /// Whether this policy is the wildcard: the surrounding middleware must
    /// not combine a wildcard allow value with credentialed requests.
    pub fn is_wildcard(&self) -> (r: bool)
        ensures
            r == self.spec_is_wildcard(),
    {
        match &self.inner {
            AllowHeadersInner::Fixed(v) => {
                let w = String::from_str("*");
                *v == w
            },
            _ => false,
        }
    }
}

impl<J: HeaderJudge> AllowHeaders<J> {
    /// Resolves the header to emit, if any, for a request carrying the given
    /// origin header value.
    pub fn to_header(&self, origin: Option<&String>, req: &CorsRequest, depot: &Depot) -> (r:
        Option<(String, String)>)
        ensures
            self.resolves_to(origin is Some, *req, r),
    {
        let value: String = match &self.inner {
            AllowHeadersInner::Suppressed => {
                return None;
            },
            AllowHeadersInner::Fixed(v) => v.clone(),
            AllowHeadersInner::Computed(f) => {
                match origin {
                    Some(o) => f.decide(o, req, depot),
                    None => {
                        return None;
                    },
                }
            },
            AllowHeadersInner::Mirrored => {
                match &req.request_headers {
                    Some(v) => v.clone(),
                    None => {
                        return None;
                    },
                }
            },
        };
        Some((String::from_str("Access-Control-Allow-Headers"), value))
    }
}

impl<J> Default for AllowHeaders<J> {
    /// The default policy emits no header.
    fn default() -> (r: Self)
        ensures
            r.inner is Suppressed,
    {
        Self { inner: AllowHeadersInner::Suppressed }
    }
}

/// Wildcard law: a wildcard Allow-Headers policy resolves to the header with
/// the literal value `*`, for every origin and every request.
pub proof fn lemma_allow_wildcard_resolves<J>(
    p: AllowHeaders<J>,
    origin_present: bool,
    req: CorsRequest,
    r: Option<(String, String)>,
)
    requires
        p.spec_is_wildcard(),
        p.resolves_to(origin_present, req, r),
    ensures
        r matches Some(h) && h.0@ == allow_headers_name() && h.1@ == "*"@,
{
}

/// Empty-policy law: a suppressed Allow-Headers policy resolves to no header,
/// for every origin and every request.
pub proof fn lemma_allow_suppressed_resolves<J>(
    p: AllowHeaders<J>,
    origin_present: bool,
    req: CorsRequest,
    r: Option<(String, String)>,
)
    requires
        p.inner is Suppressed,
        p.resolves_to(origin_present, req, r),
    ensures
        r is None,
{
}

/// Mirror law: a mirroring policy resolves to the request's
/// `Access-Control-Request-Headers` value, unmodified, whenever the request
/// carries that header, and to no header otherwise.
pub proof fn lemma_allow_mirror_resolves<J>(
    p: AllowHeaders<J>,
    origin_present: bool,
    req: CorsRequest,
    r: Option<(String, String)>,
)
    requires
        p.inner is Mirrored,
        p.resolves_to(origin_present, req, r),
    ensures
        req.request_headers matches Some(v) ==> (r matches Some(h) && h.0@ == allow_headers_name()
            && h.1@ == v@),
        req.request_headers is None ==> r is None,
{
}

/// The closed variant set of an Expose-Headers policy.
#[derive(Clone)]
pub enum ExposeHeadersInner<J> {
    /// Emit no header.
    Suppressed,
    /// Emit a constant, pre-joined header value.
    Fixed(String),
    /// Emit the strategy's decision, when an origin value is present.
    Computed(J),
}

/// The name of the response header an Expose-Headers policy emits.
pub open spec fn expose_headers_name() -> Seq<char> {
    "Access-Control-Expose-Headers"@
}

/// Configuration for the `Access-Control-Expose-Headers` response header.
#[derive(Clone)]
#[must_use]
pub struct ExposeHeaders<J = NoJudge> {
    pub inner: ExposeHeadersInner<J>,
}

impl<J> ExposeHeaders<J> {
    /// What an Expose-Headers policy resolves to: whether `r` is the header
    /// (name and value) this policy emits for a request with the given
    /// origin presence.
    pub open spec fn resolves_to(
        self,
        origin_present: bool,
        req: CorsRequest,
        r: Option<(String, String)>,
    ) -> bool {
        match self.inner {
            ExposeHeadersInner::Suppressed => r is None,
            ExposeHeadersInner::Fixed(v) => r matches Some(h) && h.0@ == expose_headers_name()
                && h.1@ == v@,
            ExposeHeadersInner::Computed(_) => if origin_present {
                r matches Some(h) && h.0@ == expose_headers_name()
            } else {
                r is None
            },
        }
    }

    /// A policy is a wildcard exactly when it is fixed to the value `*`.
    pub open spec fn spec_is_wildcard(self) -> bool {
        self.inner matches ExposeHeadersInner::Fixed(v) && v@ == "*"@
    }

    /// Expose any headers, by a constant wildcard (`*`) value.
    pub fn any() -> (r: Self)
        ensures
            r.spec_is_wildcard(),
    {
        Self { inner: ExposeHeadersInner::Fixed(String::from_str("*")) }
    }

    /// Expose the listed headers: suppressed when the list is empty, else a
    /// fixed value joining the names with commas in the given order.
    pub fn list(headers: Vec<String>) -> (r: Self)
        ensures
            headers@.len() == 0 ==> r.inner is Suppressed,
            headers@.len() > 0 ==> (r.inner matches ExposeHeadersInner::Fixed(v) && v@
                == comma_joined(headers.deep_view())),
    {
        match separated_by_commas(&headers) {
            None => Self { inner: ExposeHeadersInner::Suppressed },
            Some(v) => Self { inner: ExposeHeadersInner::Fixed(v) },
        }
    }

    /// Expose headers as decided by the given strategy.
    pub fn judge(f: J) -> (r: Self)
        ensures
            r.inner == ExposeHeadersInner::Computed(f),
    {
        Self { inner: ExposeHeadersInner::Computed(f) }
    }

    /// Whether this policy is the wildcard: the surrounding middleware must
    /// not combine a wildcard expose value with credentialed requests.
    pub fn is_wildcard(&self) -> (r: bool)
        ensures
            r == self.spec_is_wildcard(),
    {
        match &self.inner {
            ExposeHeadersInner::Fixed(v) => {
                let w = String::from_str("*");
                *v == w
            },
            _ => false,
        }
    }
}

impl<J: HeaderJudge> ExposeHeaders<J> {
    /// Resolves the header to emit, if any, for a request carrying the given
    /// origin header value.
    pub fn to_header(&self, origin: Option<&String>, req: &CorsRequest, depot: &Depot) -> (r:
        Option<(String, String)>)
        ensures
            self.resolves_to(origin is Some, *req, r),
    {
        let value: String = match &self.inner {
            ExposeHeadersInner::Suppressed => {
                return None;
            },
            ExposeHeadersInner::Fixed(v) => v.clone(),
            ExposeHeadersInner::Computed(f) => {
                match origin {
                    Some(o) => f.decide(o, req, depot),
                    None => {
                        return None;
                    },
                }
            },
        };
        Some((String::from_str("Access-Control-Expose-Headers"), value))
    }
}

impl<J> Default for ExposeHeaders<J> {
    /// The default policy emits no header.
    fn default() -> (r: Self)
        ensures
            r.inner is Suppressed,
    {
        Self { inner: ExposeHeadersInner::Suppressed }
    }
}

/// Wildcard law: a wildcard Expose-Headers policy resolves to the header with
/// the literal value `*`, for every origin and every request.
pub proof fn lemma_expose_wildcard_resolves<J>(
    p: ExposeHeaders<J>,
    origin_present: bool,
    req: CorsRequest,
    r: Option<(String, String)>,
)
    requires
        p.spec_is_wildcard(),
        p.resolves_to(origin_present, req, r),
    ensures
        r matches Some(h) && h.0@ == expose_headers_name() && h.1@ == "*"@,
{
}

/// Empty-policy law: a suppressed Expose-Headers policy resolves to no
/// header, for every origin and every request.
pub proof fn lemma_expose_suppressed_resolves<J>(
    p: ExposeHeaders<J>,
    origin_present: bool,
    req: CorsRequest,
    r: Option<(String, String)>,
)
    requires
        p.inner is Suppressed,
        p.resolves_to(origin_present, req, r),
    ensures
        r is None,
{
}

} // verus!
