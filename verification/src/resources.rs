//! The closed vocabulary of archivable resources, with the string and
//! OAuth-scope conversions. The mapping from variant to short string is the
//! single source of truth: the scope URL of a resource is a fixed prefix
//! followed by that short string, and both parsing directions are defined from
//! the same table.

use crate::text::same_str;
use vstd::prelude::*;

verus! {

/// A data category that the mocked provider can archive.
#[derive(Debug, Clone, Copy, PartialEq, Eq, Structural)]
pub enum GoogleResource {
    MyActivityYoutube,
    MyActivitySearch,
    MyActivityShopping,
    MyActivityPlay,
    MyActivityMyAdCenter,
    MyActivityMaps,
    YouTubeChannel,
}

/// A resource of one of the supported providers.
#[derive(Debug, Clone, Copy, PartialEq, Eq, Structural)]
pub enum Resource {
    Google(GoogleResource),
}

/// The stable short string of a resource, used on the wire and as the
/// scope-matching key.
pub open spec fn resource_str(g: GoogleResource) -> Seq<char> {
    match g {
        GoogleResource::MyActivityYoutube => "myactivity.youtube"@,
        GoogleResource::MyActivitySearch => "myactivity.search"@,
        GoogleResource::MyActivityShopping => "myactivity.shopping"@,
        GoogleResource::MyActivityPlay => "myactivity.play"@,
        GoogleResource::MyActivityMyAdCenter => "myactivity.myadcenter"@,
        GoogleResource::MyActivityMaps => "myactivity.maps"@,
        GoogleResource::YouTubeChannel => "youtube.channel"@,
    }
}

/// The OAuth scope URL of a resource: the fixed prefix followed by the
/// resource's short string.
pub open spec fn scope_url(g: GoogleResource) -> Seq<char> {
    "https://www.googleapis.com/auth/dataportability."@ + resource_str(g)
}

/// The resource whose short string is `s`, if any: parsing is the inverse of
/// the table in `resource_str`, and every unlisted string is rejected.
pub open spec fn resource_of_str(s: Seq<char>) -> Option<GoogleResource> {
    if s == resource_str(GoogleResource::MyActivityYoutube) {
        Some(GoogleResource::MyActivityYoutube)
    } else if s == resource_str(GoogleResource::MyActivitySearch) {
        Some(GoogleResource::MyActivitySearch)
    } else if s == resource_str(GoogleResource::MyActivityShopping) {
        Some(GoogleResource::MyActivityShopping)
    } else if s == resource_str(GoogleResource::MyActivityPlay) {
        Some(GoogleResource::MyActivityPlay)
    } else if s == resource_str(GoogleResource::MyActivityMyAdCenter) {
        Some(GoogleResource::MyActivityMyAdCenter)
    } else if s == resource_str(GoogleResource::MyActivityMaps) {
        Some(GoogleResource::MyActivityMaps)
    } else if s == resource_str(GoogleResource::YouTubeChannel) {
        Some(GoogleResource::YouTubeChannel)
    } else {
        None
    }
}

/// The resource whose scope URL is `s`, if any.
pub open spec fn resource_of_scope(s: Seq<char>) -> Option<GoogleResource> {
    if s == scope_url(GoogleResource::MyActivityYoutube) {
        Some(GoogleResource::MyActivityYoutube)
    } else if s == scope_url(GoogleResource::MyActivitySearch) {
        Some(GoogleResource::MyActivitySearch)
    } else if s == scope_url(GoogleResource::MyActivityShopping) {
        Some(GoogleResource::MyActivityShopping)
    } else if s == scope_url(GoogleResource::MyActivityPlay) {
        Some(GoogleResource::MyActivityPlay)
    } else if s == scope_url(GoogleResource::MyActivityMyAdCenter) {
        Some(GoogleResource::MyActivityMyAdCenter)
    } else if s == scope_url(GoogleResource::MyActivityMaps) {
        Some(GoogleResource::MyActivityMaps)
    } else if s == scope_url(GoogleResource::YouTubeChannel) {
        Some(GoogleResource::YouTubeChannel)
    } else {
        None
    }
}

/// The error text for a string that names no supported resource.
pub open spec fn unsupported_resource_msg(s: Seq<char>) -> Seq<char> {
    "Unsupported resource: \""@ + s + "\" for Google provider"@
}

/// The error text for a scope URL that names no supported resource.
pub open spec fn unsupported_scope_msg(s: Seq<char>) -> Seq<char> {
    "Unsupported scope: \""@ + s + "\" for Google provider"@
}

impl GoogleResource {
    /// The stable short string of this resource.
    pub fn as_str(&self) -> (r: &'static str)
        ensures
            r@ == resource_str(*self),
    {
        match self {
            GoogleResource::MyActivityYoutube => "myactivity.youtube",
            GoogleResource::MyActivitySearch => "myactivity.search",
            GoogleResource::MyActivityShopping => "myactivity.shopping",
            GoogleResource::MyActivityPlay => "myactivity.play",
            GoogleResource::MyActivityMyAdCenter => "myactivity.myadcenter",
            GoogleResource::MyActivityMaps => "myactivity.maps",
            GoogleResource::YouTubeChannel => "youtube.channel",
        }
    }

    /// The OAuth scope URL of this resource.
    pub fn scope_url(&self) -> (r: String)
        ensures
            r@ == scope_url(*self),
    {
        let mut r: String = "https://www.googleapis.com/auth/dataportability.".to_owned();
        r.append(self.as_str());
        r
    }

    /// Parses a short resource string; succeeds exactly on the seven supported
    /// strings, and reports every other string in a descriptive error.
    pub fn try_from_str(resource: &str) -> (r: Result<Self, String>)
        ensures
            match r {
                Ok(g) => resource_of_str(resource@) == Some(g),
                Err(e) => resource_of_str(resource@) is None && e@ == unsupported_resource_msg(
                    resource@,
                ),
            },
    {
        if same_str(resource, "myactivity.youtube") {
            Ok(GoogleResource::MyActivityYoutube)
        } else if same_str(resource, "myactivity.search") {
            Ok(GoogleResource::MyActivitySearch)
        } else if same_str(resource, "myactivity.shopping") {
            Ok(GoogleResource::MyActivityShopping)
        } else if same_str(resource, "myactivity.play") {
            Ok(GoogleResource::MyActivityPlay)
        } else if same_str(resource, "myactivity.myadcenter") {
            Ok(GoogleResource::MyActivityMyAdCenter)
        } else if same_str(resource, "myactivity.maps") {
            Ok(GoogleResource::MyActivityMaps)
        } else if same_str(resource, "youtube.channel") {
            Ok(GoogleResource::YouTubeChannel)
        } else {
            let mut e: String = "Unsupported resource: \"".to_owned();
            e.append(resource);
            e.append("\" for Google provider");
            Err(e)
        }
    }

    /// Parses an OAuth scope URL; succeeds exactly on the seven supported
    /// scope URLs, and reports every other string in a descriptive error.
    pub fn try_from_scope(scope: &str) -> (r: Result<Self, String>)
        ensures
            match r {
                Ok(g) => resource_of_scope(scope@) == Some(g),
                Err(e) => resource_of_scope(scope@) is None && e@ == unsupported_scope_msg(scope@),
            },
    {
        let candidates: [GoogleResource; 7] = [
            GoogleResource::MyActivityYoutube,
            GoogleResource::MyActivitySearch,
            GoogleResource::MyActivityShopping,
            GoogleResource::MyActivityPlay,
            GoogleResource::MyActivityMyAdCenter,
            GoogleResource::MyActivityMaps,
            GoogleResource::YouTubeChannel,
        ];
        let mut k: usize = 0;
        while k < 7
            invariant
                candidates@ == seq![
                    GoogleResource::MyActivityYoutube,
                    GoogleResource::MyActivitySearch,
                    GoogleResource::MyActivityShopping,
                    GoogleResource::MyActivityPlay,
                    GoogleResource::MyActivityMyAdCenter,
                    GoogleResource::MyActivityMaps,
                    GoogleResource::YouTubeChannel,
                ],
                0 <= k <= 7,
                forall|t: int| 0 <= t < k ==> scope@ != scope_url(candidates@[t]),
            decreases 7 - k,
        {
            let url = candidates[k].scope_url();
            if same_str(scope, url.as_str()) {
                return Ok(candidates[k]);
            }
            k = k + 1;
        }
        proof {
            assert(resource_of_scope(scope@) is None);
        }
        let mut e: String = "Unsupported scope: \"".to_owned();
        e.append(scope);
        e.append("\" for Google provider");
        Err(e)
    }
}

impl Resource {
    /// The stable short string of this resource.
    pub fn as_str(&self) -> (r: &'static str)
        ensures
            *self matches Resource::Google(g) && r@ == resource_str(g),
    {
        match self {
            Resource::Google(g) => g.as_str(),
        }
    }
}

/// Converting a resource to its short string and parsing it back yields the
/// original resource: the seven short strings are pairwise distinct, so the
/// conversion is a bijection between the supported resources and their
/// strings.
pub proof fn lemma_resource_str_roundtrip(g: GoogleResource)
    ensures
        resource_of_str(resource_str(g)) == Some(g),
{
    reveal_strlit("myactivity.youtube");
    reveal_strlit("myactivity.search");
    reveal_strlit("myactivity.shopping");
    reveal_strlit("myactivity.play");
    reveal_strlit("myactivity.myadcenter");
    reveal_strlit("myactivity.maps");
    reveal_strlit("youtube.channel");
    // the lengths separate every pair but the three strings of length 15,
    // which differ at the given positions
    assert("myactivity.youtube"@.len() == 18);
    assert("myactivity.search"@.len() == 17);
    assert("myactivity.shopping"@.len() == 19);
    assert("myactivity.play"@.len() == 15);
    assert("myactivity.myadcenter"@.len() == 21);
    assert("myactivity.maps"@.len() == 15);
    assert("youtube.channel"@.len() == 15);
    assert("myactivity.play"@[11] == 'p');
    assert("myactivity.maps"@[11] == 'm');
    assert("myactivity.play"@[0] == 'm');
    assert("myactivity.maps"@[0] == 'm');
    assert("youtube.channel"@[0] == 'y');
}

/// Converting a resource to its OAuth scope URL and parsing it back yields
/// the original resource.
pub proof fn lemma_scope_roundtrip(g: GoogleResource)
    ensures
        resource_of_scope(scope_url(g)) == Some(g),
{
    lemma_resource_str_roundtrip(g);
    assert forall|a: GoogleResource, b: GoogleResource|
        resource_str(a) != resource_str(b) implies scope_url(a) != scope_url(b) by {
        if scope_url(a) == scope_url(b) {
            assert(resource_str(a) =~= scope_url(a).skip(
                "https://www.googleapis.com/auth/dataportability."@.len() as int,
            ));
            assert(resource_str(b) =~= scope_url(b).skip(
                "https://www.googleapis.com/auth/dataportability."@.len() as int,
            ));
        }
    }
}

/// The vocabulary is closed: a string that is no resource's short string
/// parses to no resource, and a string that is no resource's scope URL parses
/// to no resource.
pub proof fn lemma_vocabulary_closed(s: Seq<char>)
    ensures
        (forall|g: GoogleResource| resource_str(g) != s) ==> resource_of_str(s) is None,
        (forall|g: GoogleResource| scope_url(g) != s) ==> resource_of_scope(s) is None,
{
}

/// Two distinct resources never share a short string, and never share a scope
/// URL.
pub proof fn lemma_resource_str_injective(a: GoogleResource, b: GoogleResource)
    requires
        a != b,
    ensures
        resource_str(a) != resource_str(b),
        scope_url(a) != scope_url(b),
{
    lemma_resource_str_roundtrip(a);
    lemma_scope_roundtrip(a);
    if resource_str(a) == resource_str(b) {
        lemma_resource_str_roundtrip(b);
    }
    if scope_url(a) == scope_url(b) {
        lemma_scope_roundtrip(b);
    }
}

} // verus!
