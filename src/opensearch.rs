//! Requests and responses of the search engine's HTTP API.
//!
//! The library decides what each operation sends (method and path) and holds
//! the shapes of the answers; sending and decoding stay with the caller.
use vstd::prelude::*;

verus! {

/// The HTTP method of a request.
#[derive(Debug, Clone, Copy, PartialEq, Eq, Structural)]
pub enum Method {
    Get,
    Post,
    Put,
}

/// Where the search engine listens.
#[derive(Debug, Clone)]
pub struct SearchConfig {
    /// Scheme and host, such as `http://localhost`.
    pub host: String,
    pub port: String,
}

/// `p` when present, else the default `d`.
pub open spec fn or_default(p: Option<String>, d: Seq<char>) -> Seq<char> {
    match p {
        Some(v) => v@,
        None => d,
    }
}

/// The full URL of `path` on a server at `host` and `port`.
pub open spec fn url_of(host: Seq<char>, port: Seq<char>, path: Seq<char>) -> Seq<char> {
    host + ":"@ + port + "/"@ + path
}

impl SearchConfig {
    /// The configuration from optional settings; an unset host is
    /// `http://localhost` and an unset port is `9200`.
    pub fn from_values(host: Option<String>, port: Option<String>) -> (r: SearchConfig)
        ensures
            r.host@ == or_default(host, "http://localhost"@),
            r.port@ == or_default(port, "9200"@),
    {
        let host = match host {
            Some(h) => h,
            None => String::from_str("http://localhost"),
        };
        let port = match port {
            Some(p) => p,
            None => String::from_str("9200"),
        };
        SearchConfig { host, port }
    }

    /// The URL of `path` on the configured server: `host:port/path`.
    pub fn path_url(&self, path: &str) -> (r: String)
        ensures
            r@ == url_of(self.host@, self.port@, path@),
    {
        let mut r = self.host.clone();
        r.append(":");
        r.append(self.port.as_str());
        r.append("/");
        r.append(path);
        r
    }
}

/// One request to the engine: a method and a path below the server's root.
#[derive(Debug, Clone)]
pub struct Request {
    pub method: Method,
    pub path: String,
}

/// The path of document `id` in `index`.
pub open spec fn doc_path_of(index: Seq<char>, id: Seq<char>) -> Seq<char> {
    index + "/_doc/"@ + id
}

/// The path of the search endpoint of `index`.
pub open spec fn search_path_of(index: Seq<char>) -> Seq<char> {
    index + "/_search"@
}

/// `index/_doc/id`.
pub fn doc_path(index: &str, id: &str) -> (r: String)
    ensures
        r@ == doc_path_of(index@, id@),
{
    let mut r = String::from_str(index);
    r.append("/_doc/");
    r.append(id);
    r
}

/// `index/_search`.
pub fn search_path(index: &str) -> (r: String)
    ensures
        r@ == search_path_of(index@),
{
    let mut r = String::from_str(index);
    r.append("/_search");
    r
}

/// Ping: `GET` on the server's root.
pub fn ping_request() -> (r: Request)
    ensures
        r.method == Method::Get,
        r.path@ == Seq::<char>::empty(),
{
    Request { method: Method::Get, path: String::new() }
}

/// Index creation: `PUT` on the index's name, with the mapping as payload.
pub fn put_index_request(index: &str) -> (r: Request)
    ensures
        r.method == Method::Put,
        r.path@ == index@,
{
    Request { method: Method::Put, path: String::from_str(index) }
}

/// Document write: `PUT` on `index/_doc/id`, with the document as payload.
pub fn put_doc_request(index: &str, id: &str) -> (r: Request)
    ensures
        r.method == Method::Put,
        r.path@ == doc_path_of(index@, id@),
{
    Request { method: Method::Put, path: doc_path(index, id) }
}

/// Document read: `GET` on `index/_doc/id`.
pub fn get_doc_request(index: &str, id: &str) -> (r: Request)
    ensures
        r.method == Method::Get,
        r.path@ == doc_path_of(index@, id@),
{
    Request { method: Method::Get, path: doc_path(index, id) }
}

/// Search: `GET` on `index/_search`, with the query as payload.
pub fn query_request(index: &str) -> (r: Request)
    ensures
        r.method == Method::Get,
        r.path@ == search_path_of(index@),
{
    Request { method: Method::Get, path: search_path(index) }
}

/// The text of each string in `v`.
pub open spec fn texts(v: Seq<String>) -> Seq<Seq<char>> {
    v.map_values(|f: String| f@)
}

/// Whether `t` is among the texts of `v`, checked by value.
fn contains_text(v: &Vec<String>, t: &String) -> (r: bool)
    ensures
        r == texts(v@).contains(t@),
{
    let mut i: usize = 0;
    while i < v.len()
        invariant
            0 <= i <= v@.len(),
            forall|j: int| 0 <= j < i ==> v@[j]@ != t@,
        decreases v@.len() - i,
    {
        if v[i] == *t {
            proof {
                assert(texts(v@)[i as int] == t@);
            }
            return true;
        }
        i = i + 1;
    }
    proof {
        if texts(v@).contains(t@) {
            let j = choose|j: int| 0 <= j < texts(v@).len() && texts(v@)[j] == t@;
            assert(v@[j]@ == t@);
        }
    }
    false
}

/// The fields that get a nested mapping when an index is created: each
/// named field once, in the order first named, and no other.
pub fn nested_fields(fields: &Vec<String>) -> (r: Vec<String>)
    ensures
        texts(r@).no_duplicates(),
        forall|t: Seq<char>| texts(r@).contains(t) <==> texts(fields@).contains(t),
{
    let mut r: Vec<String> = Vec::new();
    let mut i: usize = 0;
    while i < fields.len()
        invariant
            0 <= i <= fields@.len(),
            texts(r@).no_duplicates(),
            forall|t: Seq<char>|
                texts(r@).contains(t) <==> texts(fields@.take(i as int)).contains(t),
        decreases fields@.len() - i,
    {
        let ghost before = r@;
        let ghost f = fields@[i as int]@;
        proof {
            assert(texts(fields@.take(i as int + 1)) =~= texts(fields@.take(i as int)).push(f));
        }
        let found = contains_text(&r, &fields[i]);
        if !found {
            r.push(fields[i].clone());
            proof {
                assert(texts(r@) =~= texts(before).push(f));
                assert(texts(r@)[before.len() as int] == f);
            }
        }
        proof {
            let b = texts(before);
            let rr = texts(r@);
            let s1 = texts(fields@.take(i as int));
            let s2 = texts(fields@.take(i as int + 1));
            assert(found ==> rr == b);
            assert(found ==> b.contains(f));
            assert(!found ==> rr == b.push(f));
            assert(s2 == s1.push(f));
            assert forall|t: Seq<char>| rr.contains(t) implies s2.contains(t) by {
                let j = choose|j: int| 0 <= j < rr.len() && rr[j] == t;
                if j < b.len() {
                    assert(b[j] == t);
                    assert(b.contains(t));
                    assert(s1.contains(t));
                    let k = choose|k: int| 0 <= k < s1.len() && s1[k] == t;
                    assert(s2[k] == t);
                } else {
                    assert(t == f);
                    assert(s2[i as int] == t);
                }
            }
            assert forall|t: Seq<char>| s2.contains(t) implies rr.contains(t) by {
                let j = choose|j: int| 0 <= j < s2.len() && s2[j] == t;
                if j < i {
                    assert(s1[j] == t);
                    assert(b.contains(t));
                    let k = choose|k: int| 0 <= k < b.len() && b[k] == t;
                    assert(rr[k] == t);
                } else {
                    assert(t == f);
                    if found {
                        assert(b.contains(t));
                    } else {
                        assert(rr[b.len() as int] == t);
                    }
                }
            }
        }
        i = i + 1;
    }
    proof {
        assert(fields@.take(fields@.len() as int) =~= fields@);
    }
    r
}

/// Version details in the answer to a ping.
#[derive(Debug, Clone)]
pub struct PingRespVersion {
    pub distribution: String,
    pub number: String,
    pub lucene_version: String,
    pub minimum_wire_compatibility_version: String,
    pub minimum_index_compatibility_version: String,
}

/// The answer to a ping: the identity of the node and its cluster.
#[derive(Debug, Clone)]
pub struct PingResp {
    pub name: String,
    pub cluster_name: String,
    pub cluster_uuid: String,
    pub version: PingRespVersion,
    pub tagline: String,
}

/// The answer when an index was created.
#[derive(Debug, Clone)]
pub struct PutIndexRespSucc {
    pub acknowledged: bool,
    pub shards_acknowledged: bool,
    pub index: String,
}

/// One cause in an error reported by the engine (`type` on the wire).
#[derive(Debug, Clone)]
pub struct ErrRootCause {
    pub error_type: String,
    pub reason: String,
    pub index: String,
    pub index_uuid: String,
}

/// The error reported by the engine when an index cannot be created
/// (`type` on the wire is `error_type` here).
#[derive(Debug, Clone)]
pub struct PutIndexErr {
    pub root_cause: Vec<ErrRootCause>,
    pub error_type: String,
    pub reason: String,
    pub index: String,
    pub index_uuid: String,
}

/// The answer when an index could not be created, for instance because it exists.
#[derive(Debug, Clone)]
pub struct PutIndexRespErr {
    pub status: u16,
    pub error: PutIndexErr,
}

/// The answer to index creation: created, or an error reported as data.
#[derive(Debug, Clone)]
pub enum PutIndexResp {
    Succ(PutIndexRespSucc),
    Error(PutIndexRespErr),
}

/// The engine's error kind for an index that already exists.
pub open spec fn already_exists_kind() -> Seq<char> {
    "resource_already_exists_exception"@
}

impl PutIndexResp {
    /// Whether the answer says the index already existed, which a caller that
    /// only wants the index to exist may take as success.
    pub fn is_already_exists(&self) -> (r: bool)
        ensures
            r == (self matches PutIndexResp::Error(e) && e.error.error_type@
                == already_exists_kind()),
    {
        match self {
            PutIndexResp::Succ(_) => false,
            PutIndexResp::Error(e) => {
                let kind = String::from_str("resource_already_exists_exception");
                e.error.error_type == kind
            },
        }
    }
}

/// How many shards took a document write.
#[derive(Debug, Clone, Copy)]
pub struct DocShards {
    pub total: u8,
    pub successful: u8,
}

/// The answer to a document write.
#[derive(Debug, Clone)]
pub struct PutDocResp {
    pub _index: String,
    pub _id: String,
    pub _version: u16,
    pub result: String,
    pub _shards: DocShards,
}

/// The answer to a document read; absence is `found == false`, not an error.
#[derive(Debug, Clone)]
pub struct GetDocResp<T> {
    pub _index: String,
    /// The id that was asked for.
    pub _id: String,
    /// Whether the document exists.
    pub found: bool,
    /// Grows by one with each write of the document.
    pub _version: Option<u16>,
    /// The document, when it exists.
    pub _source: Option<T>,
}

/// How the shards took part in a search.
#[derive(Debug, Clone, Copy)]
pub struct QueryShards {
    pub failed: u8,
    pub skipped: u8,
    pub successful: u8,
    pub total: u8,
}

} // verus!
