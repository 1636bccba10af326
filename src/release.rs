use vstd::prelude::*;
use vstd::string::*;
use crate::text::chars_of;

verus! {

/// One asset of a release, as the upstream API lists it.
pub struct ReleaseAsset {
    /// The file name under which the asset is served.
    pub name: String,
    /// The authenticated API location of the asset.
    pub url: String,
    /// The public download location of the asset.
    pub browser_download_url: String,
}

/// Why a release could not be resolved.
#[derive(Debug, PartialEq, Eq, Structural)]
pub enum ResolveError {
    /// The token or the repository name cannot stand in an HTTP header.
    InvalidHeaderValue,
    /// The release lists no asset, so no download base can be derived.
    NoAssets,
}

/// What comes before the last `/` of `url`; empty when it holds none.
pub open spec fn url_base(url: Seq<char>) -> Seq<char>
    decreases url.len(),
{
    if url.len() == 0 {
        Seq::empty()
    } else if url.last() == '/' {
        url.drop_last()
    } else {
        url_base(url.drop_last())
    }
}

/// The download base of a public download URL: everything before its last `/`.
pub fn download_url_base(url: &str) -> (r: String)
    ensures
        r@ == url_base(url@),
{
    let c = chars_of(url);
    let mut k: usize = c.len();
    assert(url@.subrange(0, k as int) =~= url@);
    while k > 0 && c[k - 1] != '/'
        invariant
            c@ == url@,
            k <= c@.len(),
            url_base(url@) == url_base(url@.subrange(0, k as int)),
        decreases k,
    {
        assert(url@.subrange(0, k as int).drop_last() =~= url@.subrange(0, k - 1));
        k = k - 1;
    }
    if k == 0 {
        assert(url@.subrange(0, 0) =~= Seq::<char>::empty());
        String::new()
    } else {
        assert(url@.subrange(0, k as int).drop_last() =~= url@.subrange(0, k - 1));
        String::from_str(url.substring_char(0, k - 1))
    }
}

/// The catalog that a list of assets gives when each is entered in turn,
/// name to authenticated location, a later asset replacing an earlier one of
/// the same name.
pub open spec fn catalog_of(assets: Seq<ReleaseAsset>) -> Map<Seq<char>, Seq<char>>
    decreases assets.len(),
{
    if assets.len() == 0 {
        Map::empty()
    } else {
        catalog_of(assets.drop_last()).insert(assets.last().name@, assets.last().url@)
    }
}

/// Two asset lists with the same names and locations, one by one, give the
/// same catalog.
proof fn lemma_catalog_by_views(a: Seq<ReleaseAsset>, b: Seq<ReleaseAsset>)
    requires
        a.len() == b.len(),
        forall|i: int| 0 <= i < a.len() ==> #[trigger] a[i].name@ == b[i].name@ && a[i].url@ == b[i].url@,
    ensures
        catalog_of(a) == catalog_of(b),
    decreases a.len(),
{
    if a.len() > 0 {
        lemma_catalog_by_views(a.drop_last(), b.drop_last());
    }
}

impl ReleaseAsset {
    /// A copy of the asset.
    pub fn duplicate(&self) -> (r: ReleaseAsset)
        ensures
            r.name@ == self.name@,
            r.url@ == self.url@,
            r.browser_download_url@ == self.browser_download_url@,
    {
        ReleaseAsset {
            name: self.name.clone(),
            url: self.url.clone(),
            browser_download_url: self.browser_download_url.clone(),
        }
    }
}

/// The release assets by file name: each name leads to its authenticated
/// location.
pub struct Catalog {
    entries: Vec<ReleaseAsset>,
}

impl View for Catalog {
    type V = Map<Seq<char>, Seq<char>>;

    closed spec fn view(&self) -> Map<Seq<char>, Seq<char>> {
        catalog_of(self.entries@)
    }
}

impl Catalog {
    /// The catalog of `assets`: each name with its authenticated location; of
    /// two assets with one name, the later one counts.
    pub fn from_assets(assets: Vec<ReleaseAsset>) -> (r: Catalog)
        ensures
            r@ == catalog_of(assets@),
    {
        Catalog { entries: assets }
    }

    /// A copy of the catalog.
    pub fn duplicate(&self) -> (r: Catalog)
        ensures
            r@ == self@,
    {
        let mut entries: Vec<ReleaseAsset> = Vec::new();
        let mut k: usize = 0;
        while k < self.entries.len()
            invariant
                k <= self.entries@.len(),
                entries@.len() == k,
                forall|i: int|
                    0 <= i < k ==> #[trigger] entries@[i].name@ == self.entries@[i].name@
                        && entries@[i].url@ == self.entries@[i].url@,
            decreases self.entries@.len() - k,
        {
            entries.push(self.entries[k].duplicate());
            k = k + 1;
        }
        proof {
            lemma_catalog_by_views(entries@, self.entries@);
        }
        Catalog { entries }
    }

    /// The location filed under `name`, if any.
    pub fn lookup(&self, name: &str) -> (r: Option<&String>)
        ensures
            r is Some <==> self@.contains_key(name@),
            r is Some ==> r->0@ == self@[name@],
    {
        let key = String::from_str(name);
        let mut k: usize = self.entries.len();
        assert(self.entries@.subrange(0, k as int) =~= self.entries@);
        while k > 0
            invariant
                k <= self.entries@.len(),
                key@ == name@,
                self@.contains_key(name@) == catalog_of(self.entries@.subrange(0, k as int)).contains_key(name@),
                self@.contains_key(name@) ==> self@[name@] == catalog_of(self.entries@.subrange(0, k as int))[name@],
            decreases k,
        {
            let ghost before = self.entries@.subrange(0, k as int);
            assert(before.drop_last() =~= self.entries@.subrange(0, k - 1));
            if self.entries[k - 1].name == key {
                return Some(&self.entries[k - 1].url);
            }
            k = k - 1;
        }
        None
    }
}

/// A character that an HTTP header value may hold: a tab, or anything from
/// the space on but DEL. Characters outside ASCII are allowed, for each byte
/// of their UTF-8 form is above DEL.
pub open spec fn header_char(c: char) -> bool {
    c == '\t' || (c as u32 >= 32 && c as u32 != 127)
}

/// All characters of `s` may stand in an HTTP header value.
pub open spec fn header_value_ok(s: Seq<char>) -> bool {
    forall|i: int| 0 <= i < s.len() ==> header_char(#[trigger] s[i])
}

/// Relies on `HeaderValue::from_str` (http, as reqwest re-exports it): it
/// fails exactly when a byte of the text is below the space and no tab, or DEL.
#[verifier::external_body]
fn header_value_accepted(s: &str) -> (r: bool)
    ensures
        r == header_value_ok(s@),
{
    reqwest::header::HeaderValue::from_str(s).is_ok()
}

/// The request for the latest release of a repository, with the header
/// values that it and the later asset downloads carry.
pub struct ReleaseRequest {
    /// The API location of the latest release.
    pub url: String,
    /// The value of the `Authorization` header: the token as a bearer token.
    pub authorization: String,
    /// The value of the `User-Agent` header: the repository name.
    pub user_agent: String,
}

/// The API location of the latest release of `account`/`repo`.
pub open spec fn latest_release_url(account: Seq<char>, repo: Seq<char>) -> Seq<char> {
    "https://api.github.com/repos/"@ + account + "/"@ + repo + "/releases/latest"@
}

impl ReleaseRequest {
    /// Plans the request for the latest release; fails when the token or the
    /// repository name cannot stand in a header.
    pub fn new(account: &str, repo: &str, token: &str) -> (r: Result<ReleaseRequest, ResolveError>)
        ensures
            r is Ok <==> header_value_ok("Bearer "@ + token@) && header_value_ok(repo@),
            r is Err ==> r->Err_0 == ResolveError::InvalidHeaderValue,
            r matches Ok(q) ==> {
                &&& q.url@ == latest_release_url(account@, repo@)
                &&& q.authorization@ == "Bearer "@ + token@
                &&& q.user_agent@ == repo@
            },
    {
        let mut authorization = String::from_str("Bearer ");
        authorization.append(token);
        if !header_value_accepted(authorization.as_str()) || !header_value_accepted(repo) {
            return Err(ResolveError::InvalidHeaderValue);
        }
        let mut url = String::from_str("https://api.github.com/repos/");
        url.append(account);
        url.append("/");
        url.append(repo);
        url.append("/releases/latest");
        Ok(ReleaseRequest { url, authorization, user_agent: String::from_str(repo) })
    }
}

} // verus!
