//! Archive-job value types: the access type of a job's download links, the
//! opaque job identifier, and the JSON payload that the archive-initiation
//! mock returns, with a verified encoder and parser for that payload.

use crate::resources::{resource_str, Resource};
use crate::text::{lemma_append_same_suffix_distinct, matches_at, occurs_at, same_str};
use vstd::prelude::*;

verus! {

/// How the download links of an archive job may be reused.
#[derive(Debug, Clone, Copy, PartialEq, Eq, Structural)]
pub enum GoogleArchiveAccessType {
    OneTime,
    TimeBased,
}

/// The serialized token of an access type, as it appears on the wire.
pub open spec fn access_type_token(a: GoogleArchiveAccessType) -> Seq<char> {
    match a {
        GoogleArchiveAccessType::OneTime => "ACCESS_TYPE_ONE_TIME"@,
        GoogleArchiveAccessType::TimeBased => "ACCESS_TYPE_TIME_BASED"@,
    }
}

impl GoogleArchiveAccessType {
    /// The fixed string token of this variant.
    pub fn as_str(&self) -> (r: &'static str)
        ensures
            r@ == access_type_token(*self),
    {
        match self {
            GoogleArchiveAccessType::OneTime => "ACCESS_TYPE_ONE_TIME",
            GoogleArchiveAccessType::TimeBased => "ACCESS_TYPE_TIME_BASED",
        }
    }
}

/// An opaque archive-job identifier.
#[derive(Debug, Clone)]
pub struct JobId(String);

impl View for JobId {
    type V = Seq<char>;

    closed spec fn view(&self) -> Seq<char> {
        self.0@
    }
}

impl JobId {
    /// Wraps a string as a job identifier.
    pub fn from(value: &str) -> (r: Self)
        ensures
            r@ == value@,
    {
        JobId(value.to_owned())
    }

    /// The identifier as a string.
    pub fn as_ref(&self) -> (r: &String)
        ensures
            r@ == self@,
    {
        &self.0
    }
}

/// The deterministic job identifier that the archive-initiation mock hands
/// out for a resource: the resource's short string followed by a fixed
/// suffix, so that ids are stable and resource-distinguishing across runs.
pub open spec fn mock_job_id(resource: Resource) -> Seq<char> {
    match resource {
        Resource::Google(g) => resource_str(g) + "_test_job_id"@,
    }
}

/// Distinct resources are handed distinct mock job identifiers.
pub proof fn lemma_mock_job_id_injective(r1: Resource, r2: Resource)
    requires
        r1 != r2,
    ensures
        mock_job_id(r1) != mock_job_id(r2),
{
    match (r1, r2) {
        (Resource::Google(a), Resource::Google(b)) => {
            crate::resources::lemma_resource_str_injective(a, b);
            lemma_append_same_suffix_distinct(resource_str(a), resource_str(b), "_test_job_id"@);
        },
    }
}

/// The JSON body returned by the archive-initiation mock: a job identifier
/// and the access type of the job's download links.
#[derive(Debug, Clone)]
pub struct GoogleInitiateArchiveResponsePayload {
    archive_job_id: JobId,
    access_type: GoogleArchiveAccessType,
}

/// The JSON text of a payload: both fields are always written.
pub open spec fn payload_json(id: Seq<char>, a: GoogleArchiveAccessType) -> Seq<char> {
    "{\"archiveJobId\":\""@ + id + "\",\"accessType\":\""@ + access_type_token(a) + "\"}"@
}

/// The JSON text of a payload whose access-type field is absent.
pub open spec fn payload_json_without_access_type(id: Seq<char>) -> Seq<char> {
    "{\"archiveJobId\":\""@ + id + "\"}"@
}

/// A job identifier that needs no JSON escaping.
pub open spec fn plain_id(id: Seq<char>) -> bool {
    forall|i: int| 0 <= i < id.len() ==> id[i] != '"'
}

/// The first position at or after `i` where `c` occurs in `s`, if any.
pub open spec fn find_char(s: Seq<char>, c: char, i: int) -> Option<int>
    decreases s.len() - i,
{
    if i < 0 || i >= s.len() {
        None
    } else if s[i] == c {
        Some(i)
    } else {
        find_char(s, c, i + 1)
    }
}

/// `find_char` returns the first occurrence.
pub proof fn lemma_find_char_at(s: Seq<char>, c: char, i: int, j: int)
    requires
        0 <= i <= j < s.len(),
        s[j] == c,
        forall|t: int| i <= t < j ==> s[t] != c,
    ensures
        find_char(s, c, i) == Some(j),
    decreases j - i,
{
    if i < j {
        lemma_find_char_at(s, c, i + 1, j);
    }
}

/// The fields denoted by an initiation-payload JSON text, if it is well
/// formed: the fixed prefix, then the job identifier up to the next quote,
/// then either the closing brace alone (the access type defaults to one-time)
/// or an explicit access-type member holding one of the two tokens.
pub open spec fn parsed_payload(s: Seq<char>) -> Option<(Seq<char>, GoogleArchiveAccessType)> {
    if s.len() >= 19 && s.subrange(0, 17) == "{\"archiveJobId\":\""@ {
        match find_char(s, '"', 17) {
            Some(j) => {
                let id = s.subrange(17, j);
                let rest = s.subrange(j, s.len() as int);
                if rest == "\"}"@ {
                    Some((id, GoogleArchiveAccessType::OneTime))
                } else if rest == "\",\"accessType\":\"ACCESS_TYPE_ONE_TIME\"}"@ {
                    Some((id, GoogleArchiveAccessType::OneTime))
                } else if rest == "\",\"accessType\":\"ACCESS_TYPE_TIME_BASED\"}"@ {
                    Some((id, GoogleArchiveAccessType::TimeBased))
                } else {
                    None
                }
            },
            None => None,
        }
    } else {
        None
    }
}

impl GoogleInitiateArchiveResponsePayload {
    /// The job identifier of this payload.
    pub closed spec fn spec_job_id(&self) -> Seq<char> {
        self.archive_job_id@
    }

    /// The access type of this payload.
    pub closed spec fn spec_access_type(&self) -> GoogleArchiveAccessType {
        self.access_type
    }

    /// The deterministic payload of the archive-initiation mock for a
    /// resource: the job identifier follows the fixed rule of `mock_job_id`,
    /// and an absent access type defaults to one-time.
    pub fn mock(resource: &Resource, access_type: Option<GoogleArchiveAccessType>) -> (r: Self)
        ensures
            r.spec_job_id() == mock_job_id(*resource),
            r.spec_access_type() == match access_type {
                Some(a) => a,
                None => GoogleArchiveAccessType::OneTime,
            },
    {
        let mut id: String = resource.as_str().to_owned();
        id.append("_test_job_id");
        GoogleInitiateArchiveResponsePayload {
            archive_job_id: JobId::from(id.as_str()),
            access_type: match access_type {
                Some(a) => a,
                None => Self::default_access_type(),
            },
        }
    }

    /// The access type assumed when a payload does not carry one.
    pub fn default_access_type() -> (r: GoogleArchiveAccessType)
        ensures
            r == GoogleArchiveAccessType::OneTime,
    {
        GoogleArchiveAccessType::OneTime
    }

    /// The job identifier of this payload.
    pub fn archive_job_id(&self) -> (r: &JobId)
        ensures
            r@ == self.spec_job_id(),
    {
        &self.archive_job_id
    }

    /// The access type of this payload.
    pub fn access_type(&self) -> (r: GoogleArchiveAccessType)
        ensures
            r == self.spec_access_type(),
    {
        self.access_type
    }

    /// Encodes this payload as JSON; both members are always written.
    pub fn to_json(&self) -> (r: String)
        ensures
            r@ == payload_json(self.spec_job_id(), self.spec_access_type()),
    {
        let mut r: String = "{\"archiveJobId\":\"".to_owned();
        r.append(self.archive_job_id.as_ref().as_str());
        r.append("\",\"accessType\":\"");
        r.append(self.access_type.as_str());
        r.append("\"}");
        r
    }

    /// Decodes an initiation-payload JSON text. Succeeds exactly on the texts
    /// that `parsed_payload` accepts and returns the fields it denotes; in
    /// particular, a payload lacking the access-type member comes back with
    /// the one-time access type.
    pub fn parse_json(s: &str) -> (r: Option<Self>)
        ensures
            match r {
                Some(p) => parsed_payload(s@) == Some((p.spec_job_id(), p.spec_access_type())),
                None => parsed_payload(s@) is None,
            },
    {
        proof {
            reveal_strlit("{\"archiveJobId\":\"");
        }
        let n: usize = s.unicode_len();
        if n < 19 {
            return None;
        }
        if !matches_at(s, "{\"archiveJobId\":\"", 0) {
            proof {
                assert(s@.subrange(0, 17) != "{\"archiveJobId\":\""@);
            }
            return None;
        }
        proof {
            assert(s@.subrange(0, 17) == "{\"archiveJobId\":\""@);
        }
        // find the quote that closes the job identifier
        let mut k: usize = 17;
        while k < n
            invariant
                17 <= k <= n,
                n == s@.len() <= usize::MAX,
                find_char(s@, '"', 17) == find_char(s@, '"', k as int),
            ensures
                17 <= k <= n,
                k < n ==> find_char(s@, '"', 17) == Some(k as int),
                k == n ==> find_char(s@, '"', 17) is None,
            decreases n - k,
        {
            if s.get_char(k) == '"' {
                proof {
                    assert(find_char(s@, '"', k as int) == Some(k as int));
                }
                break ;
            }
            k = k + 1;
        }
        if k == n {
            return None;
        }
        let id = s.substring_char(17, k);
        let tail = s.substring_char(k, n);
        if same_str(tail, "\"}") {
            proof {
                assert(parsed_payload(s@) == Some(
                    (s@.subrange(17, k as int), GoogleArchiveAccessType::OneTime),
                ));
            }
            return Some(
                GoogleInitiateArchiveResponsePayload {
                    archive_job_id: JobId::from(id),
                    access_type: GoogleArchiveAccessType::OneTime,
                },
            );
        }
        if same_str(tail, "\",\"accessType\":\"ACCESS_TYPE_ONE_TIME\"}") {
            return Some(
                GoogleInitiateArchiveResponsePayload {
                    archive_job_id: JobId::from(id),
                    access_type: GoogleArchiveAccessType::OneTime,
                },
            );
        }
        if same_str(tail, "\",\"accessType\":\"ACCESS_TYPE_TIME_BASED\"}") {
            return Some(
                GoogleInitiateArchiveResponsePayload {
                    archive_job_id: JobId::from(id),
                    access_type: GoogleArchiveAccessType::TimeBased,
                },
            );
        }
        None
    }
}

/// Encoding a payload and parsing the text back recovers the payload's
/// fields, for every job identifier that needs no JSON escaping.
pub proof fn lemma_payload_json_roundtrip(id: Seq<char>, a: GoogleArchiveAccessType)
    requires
        plain_id(id),
    ensures
        parsed_payload(payload_json(id, a)) == Some((id, a)),
{
    reveal_strlit("{\"archiveJobId\":\"");
    reveal_strlit("\",\"accessType\":\"");
    reveal_strlit("\"}");
    reveal_strlit("ACCESS_TYPE_ONE_TIME");
    reveal_strlit("ACCESS_TYPE_TIME_BASED");
    reveal_strlit("\",\"accessType\":\"ACCESS_TYPE_ONE_TIME\"}");
    reveal_strlit("\",\"accessType\":\"ACCESS_TYPE_TIME_BASED\"}");
    let s = payload_json(id, a);
    let j = 17 + id.len() as int;
    assert(s.subrange(0, 17) =~= "{\"archiveJobId\":\""@);
    assert(s[j] == '"');
    assert(forall|t: int| 17 <= t < j ==> s[t] == id[t - 17]);
    lemma_find_char_at(s, '"', 17, j);
    match a {
        GoogleArchiveAccessType::OneTime => {
            assert(s.subrange(j, s.len() as int)
                =~= "\",\"accessType\":\"ACCESS_TYPE_ONE_TIME\"}"@);
            assert(s.subrange(j, s.len() as int) != "\"}"@);
        },
        GoogleArchiveAccessType::TimeBased => {
            assert(s.subrange(j, s.len() as int)
                =~= "\",\"accessType\":\"ACCESS_TYPE_TIME_BASED\"}"@);
            assert(s.subrange(j, s.len() as int) != "\"}"@);
            assert(s.subrange(j, s.len() as int)
                != "\",\"accessType\":\"ACCESS_TYPE_ONE_TIME\"}"@);
        },
    }
    assert(s.subrange(17, j) =~= id);
}

/// A payload text that lacks the access-type member parses to the one-time
/// access type, for every job identifier that needs no JSON escaping.
pub proof fn lemma_payload_json_access_type_default(id: Seq<char>)
    requires
        plain_id(id),
    ensures
        parsed_payload(payload_json_without_access_type(id)) == Some(
            (id, GoogleArchiveAccessType::OneTime),
        ),
{
    reveal_strlit("{\"archiveJobId\":\"");
    reveal_strlit("\"}");
    let s = payload_json_without_access_type(id);
    let j = 17 + id.len() as int;
    assert(s.subrange(0, 17) =~= "{\"archiveJobId\":\""@);
    assert(s[j] == '"');
    assert(forall|t: int| 17 <= t < j ==> s[t] == id[t - 17]);
    lemma_find_char_at(s, '"', 17, j);
    assert(s.subrange(j, s.len() as int) =~= "\"}"@);
    assert(s.subrange(17, j) =~= id);
}

} // verus!
