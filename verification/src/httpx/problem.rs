//! RFC 9457 problem details: one machine-readable error shape for every
//! service. `type` defaults to `about:blank` and `title` to the status code's
//! canonical reason phrase when left unset; extensions are merged in as
//! top-level members, and the standard members take precedence over them.
use vstd::prelude::*;

verus! {

/// A JSON value, carried through unchanged.
#[verifier::external_type_specification]
#[verifier::external_body]
pub struct ExJsonValue(serde_json::Value);

/// A JSON object's members, by key.
#[verifier::external_type_specification]
#[verifier::external_body]
#[verifier::reject_recursive_types(K)]
#[verifier::reject_recursive_types(V)]
pub struct ExJsonMap<K, V>(serde_json::Map<K, V>);

/// The media type for RFC 9457 problem details.
pub const PROBLEM_CONTENT_TYPE: &'static str = "application/problem+json";

/// The members a JSON object map holds, by key.
pub uninterp spec fn json_entries(m: serde_json::Map<String, serde_json::Value>) -> Map<
    Seq<char>,
    serde_json::Value,
>;

/// The JSON string holding a text.
pub uninterp spec fn json_string_of(s: Seq<char>) -> serde_json::Value;

/// The JSON number holding an integer.
pub uninterp spec fn json_number_of(n: u16) -> serde_json::Value;

/// The JSON object with the given members.
pub uninterp spec fn json_object_of(members: Map<Seq<char>, serde_json::Value>) -> serde_json::Value;

/// The canonical reason phrase of an HTTP status code, when it has one.
pub uninterp spec fn canonical_reason_of(code: u16) -> Option<Seq<char>>;

/// No members at all.
pub open spec fn no_members() -> Map<Seq<char>, serde_json::Value> {
    Map::empty()
}

/// `serde_json::Map::new()`: an object with no members.
#[verifier::external_body]
fn json_map_new() -> (r: serde_json::Map<String, serde_json::Value>)
    ensures
        json_entries(r) == no_members(),
{
    serde_json::Map::new()
}

/// `serde_json::Map::insert`: sets the member `key` to `value`, replacing
/// any earlier value of it.
#[verifier::external_body]
fn json_map_insert(m: &mut serde_json::Map<String, serde_json::Value>, key: String, value: serde_json::Value)
    ensures
        json_entries(*final(m)) == json_entries(*old(m)).insert(key@, value),
{
    m.insert(key, value);
}

/// `serde_json::Map::clone`: an object with the same members.
#[verifier::external_body]
fn json_map_clone(m: &serde_json::Map<String, serde_json::Value>) -> (r: serde_json::Map<
    String,
    serde_json::Value,
>)
    ensures
        json_entries(r) == json_entries(*m),
{
    m.clone()
}

/// `serde_json::Value::from(s)`: the JSON string `s`.
#[verifier::external_body]
pub(crate) fn json_text(s: &str) -> (v: serde_json::Value)
    ensures
        v == json_string_of(s@),
{
    serde_json::Value::from(s)
}

/// `serde_json::Value::from(n)`: the JSON number `n`.
#[verifier::external_body]
fn json_u16(n: u16) -> (v: serde_json::Value)
    ensures
        v == json_number_of(n),
{
    serde_json::Value::from(n)
}

/// `serde_json::Value::Object(m)`: the JSON object with `m`'s members.
#[verifier::external_body]
fn json_object(m: serde_json::Map<String, serde_json::Value>) -> (v: serde_json::Value)
    ensures
        v == json_object_of(json_entries(m)),
{
    serde_json::Value::Object(m)
}

/// Calls `http::StatusCode::from_u16(code)` and then `canonical_reason()` on it
/// (re-exported by axum): the registered reason phrase of the code, or `None`
/// for codes outside 100..=999 or without one. The contract ties the result to
/// the code through `canonical_reason_of`; the table itself is not restated.
#[verifier::external_body]
fn canonical_reason(code: u16) -> (r: Option<String>)
    ensures
        r is Some <==> canonical_reason_of(code) is Some,
        r is Some ==> r->0@ == canonical_reason_of(code)->0,
{
    axum::http::StatusCode::from_u16(code).ok().and_then(|s| s.canonical_reason()).map(|s| s.to_owned())
}

/// An RFC 9457 (Problem Details for HTTP APIs) error body.
#[derive(Debug)]
pub struct Problem {
    status: u16,
    type_uri: Option<String>,
    title: Option<String>,
    detail: Option<String>,
    instance: Option<String>,
    extensions: serde_json::Map<String, serde_json::Value>,
}

/// The abstract value of a [`Problem`].
pub struct ProblemView {
    pub status: u16,
    pub type_uri: Option<Seq<char>>,
    pub title: Option<Seq<char>>,
    pub detail: Option<Seq<char>>,
    pub instance: Option<Seq<char>>,
    pub extensions: Map<Seq<char>, serde_json::Value>,
}

/// The view of an optional string.
pub open spec fn opt_view(o: Option<String>) -> Option<Seq<char>> {
    match o {
        Some(s) => Some(s@),
        None => None,
    }
}

impl ProblemView {
    /// The `type` member: the explicit type, else `about:blank`.
    pub open spec fn rendered_type(self) -> Seq<char> {
        match self.type_uri {
            Some(t) => t,
            None => "about:blank"@,
        }
    }

    /// The `title` member: the explicit title, else the status' canonical
    /// reason phrase, else `"Error"`.
    pub open spec fn rendered_title(self) -> Seq<char> {
        match self.title {
            Some(t) => t,
            None => match canonical_reason_of(self.status) {
                Some(r) => r,
                None => "Error"@,
            },
        }
    }

    /// The members of the flat JSON object of this problem: the extensions,
    /// overridden by the standard members `type`, `title`, `status` and, when
    /// set, `detail` and `instance`.
    pub open spec fn members(self) -> Map<Seq<char>, serde_json::Value> {
        let typed = self.extensions.insert("type"@, json_string_of(self.rendered_type()));
        let titled = typed.insert("title"@, json_string_of(self.rendered_title()));
        let with_status = titled.insert("status"@, json_number_of(self.status));
        let with_detail = match self.detail {
            Some(d) => with_status.insert("detail"@, json_string_of(d)),
            None => with_status,
        };
        match self.instance {
            Some(i) => with_detail.insert("instance"@, json_string_of(i)),
            None => with_detail,
        }
    }
}

/// Whether a key names one of the standard members.
pub open spec fn is_standard_member(k: Seq<char>) -> bool {
    k == "type"@ || k == "title"@ || k == "status"@ || k == "detail"@ || k == "instance"@
}

/// In the JSON object of a problem, the standard members always hold the
/// problem's own values (`type` defaults to `about:blank`, `title` to the
/// status' reason phrase), whatever extensions were added; every other
/// member is the extension of that name.
pub proof fn lemma_standard_members_win(p: ProblemView, k: Seq<char>)
    ensures
        p.members()["type"@] == json_string_of(p.rendered_type()),
        p.members()["title"@] == json_string_of(p.rendered_title()),
        p.members()["status"@] == json_number_of(p.status),
        p.detail is Some ==> p.members()["detail"@] == json_string_of(p.detail->0),
        p.instance is Some ==> p.members()["instance"@] == json_string_of(p.instance->0),
        !is_standard_member(k) ==> (p.members().contains_key(k) <==> p.extensions.contains_key(k)),
        !is_standard_member(k) && p.extensions.contains_key(k) ==> p.members()[k] == p.extensions[k],
{
    reveal_strlit("type");
    reveal_strlit("title");
    reveal_strlit("status");
    reveal_strlit("detail");
    reveal_strlit("instance");
    assert("type"@.len() == 4 && "title"@.len() == 5 && "status"@.len() == 6);
    assert("detail"@.len() == 6 && "instance"@.len() == 8);
    assert("status"@[0] != "detail"@[0]);
}

impl Problem {
    #[verifier::type_invariant]
    spec fn inv(&self) -> bool {
        100 <= self.status <= 999
    }

    /// The abstract value of this problem.
    pub closed spec fn view(&self) -> ProblemView {
        ProblemView {
            status: self.status,
            type_uri: opt_view(self.type_uri),
            title: opt_view(self.title),
            detail: opt_view(self.detail),
            instance: opt_view(self.instance),
            extensions: json_entries(self.extensions),
        }
    }

    /// A problem for HTTP status `status` with an occurrence-specific `detail`.
    pub fn new(status: u16, detail: &str) -> (p: Problem)
        requires
            100 <= status <= 999,
        ensures
            p@ == (ProblemView {
                status,
                type_uri: None,
                title: None,
                detail: Some(detail@),
                instance: None,
                extensions: Map::empty(),
            }),
    {
        Problem {
            status,
            type_uri: None,
            title: None,
            detail: Some(String::from_str(detail)),
            instance: None,
            extensions: json_map_new(),
        }
    }

    /// The HTTP status code.
    pub fn status(&self) -> (s: u16)
        ensures
            s == self@.status,
            100 <= s <= 999,
    {
        proof {
            use_type_invariant(self);
        }
        self.status
    }

    /// Set the problem `type` URI.
    pub fn with_type(self, type_uri: &str) -> (p: Problem)
        ensures
            p@ == (ProblemView { type_uri: Some(type_uri@), ..self@ }),
    {
        proof {
            use_type_invariant(&self);
        }
        Problem { type_uri: Some(String::from_str(type_uri)), ..self }
    }

    /// Set the short, human-readable `title`.
    pub fn with_title(self, title: &str) -> (p: Problem)
        ensures
            p@ == (ProblemView { title: Some(title@), ..self@ }),
    {
        proof {
            use_type_invariant(&self);
        }
        Problem { title: Some(String::from_str(title)), ..self }
    }

    /// Set the `instance` URI identifying this specific occurrence.
    pub fn with_instance(self, instance: &str) -> (p: Problem)
        ensures
            p@ == (ProblemView { instance: Some(instance@), ..self@ }),
    {
        proof {
            use_type_invariant(&self);
        }
        Problem { instance: Some(String::from_str(instance)), ..self }
    }

    /// Add (or replace) a top-level extension member.
    pub fn with_extension(self, key: &str, value: serde_json::Value) -> (p: Problem)
        ensures
            p@ == (ProblemView { extensions: self@.extensions.insert(key@, value), ..self@ }),
    {
        proof {
            use_type_invariant(&self);
        }
        let Problem { status, type_uri, title, detail, instance, extensions } = self;
        let mut extensions = extensions;
        json_map_insert(&mut extensions, String::from_str(key), value);
        Problem { status, type_uri, title, detail, instance, extensions }
    }

    /// Render the flat JSON object: the standard members plus the extensions.
    pub fn to_json(&self) -> (v: serde_json::Value)
        ensures
            v == json_object_of(self@.members()),
    {
        proof {
            use_type_invariant(self);
        }
        let mut map = json_map_clone(&self.extensions);
        let type_text = match &self.type_uri {
            Some(t) => json_text(t.as_str()),
            None => json_text("about:blank"),
        };
        json_map_insert(&mut map, String::from_str("type"), type_text);
        let title_text = match &self.title {
            Some(t) => json_text(t.as_str()),
            None => match canonical_reason(self.status) {
                Some(r) => json_text(r.as_str()),
                None => json_text("Error"),
            },
        };
        json_map_insert(&mut map, String::from_str("title"), title_text);
        json_map_insert(&mut map, String::from_str("status"), json_u16(self.status));
        match &self.detail {
            Some(d) => json_map_insert(&mut map, String::from_str("detail"), json_text(d.as_str())),
            None => {},
        }
        match &self.instance {
            Some(i) => json_map_insert(&mut map, String::from_str("instance"), json_text(i.as_str())),
            None => {},
        }
        proof {
            assert(json_entries(map) =~= self@.members());
        }
        json_object(map)
    }
}

} // verus!
