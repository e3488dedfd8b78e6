use vstd::prelude::*;
use vstd::string::*;

verus! {

/// The text with every `/` at its start removed.
pub open spec fn strip_leading_slashes(s: Seq<char>) -> Seq<char>
    decreases s.len(),
{
    if s.len() > 0 && s[0] == '/' {
        strip_leading_slashes(s.drop_first())
    } else {
        s
    }
}

/// The text with every `/` at its end removed.
pub open spec fn strip_trailing_slashes(s: Seq<char>) -> Seq<char>
    decreases s.len(),
{
    if s.len() > 0 && s.last() == '/' {
        strip_trailing_slashes(s.drop_last())
    } else {
        s
    }
}

/// The text with every `/` at either end removed.
pub open spec fn trim_slashes(s: Seq<char>) -> Seq<char> {
    strip_trailing_slashes(strip_leading_slashes(s))
}

/// Neither the first nor the last character is a `/`.
pub open spec fn slash_free_ends(s: Seq<char>) -> bool {
    s.len() > 0 ==> (s[0] != '/' && s.last() != '/')
}

/// `n` slashes in a row.
pub open spec fn slashes(n: nat) -> Seq<char> {
    Seq::new(n, |i: int| '/')
}

/// `s` with every `/` at either end removed. (Each character is read by
/// position, so this takes time quadratic in the length of `s`.)
fn trim_slash_ends(s: &str) -> (r: &str)
    ensures
        r@ == trim_slashes(s@),
{
    let n = s.unicode_len();
    let mut i: usize = 0;
    assert(s@.subrange(0, n as int) =~= s@);
    while i < n && s.get_char(i) == '/'
        invariant
            i <= n,
            n == s@.len(),
            strip_leading_slashes(s@) == strip_leading_slashes(s@.subrange(i as int, n as int)),
        decreases n - i,
    {
        assert(s@.subrange(i as int + 1, n as int) =~= s@.subrange(i as int, n as int).drop_first());
        i = i + 1;
    }
    let ghost lead = s@.subrange(i as int, n as int);
    assert(strip_leading_slashes(lead) == lead);
    let mut j: usize = n;
    while j > i && s.get_char(j - 1) == '/'
        invariant
            i <= j <= n,
            n == s@.len(),
            lead == s@.subrange(i as int, n as int),
            strip_trailing_slashes(lead) == strip_trailing_slashes(s@.subrange(i as int, j as int)),
        decreases j,
    {
        assert(s@.subrange(i as int, j as int - 1) =~= s@.subrange(i as int, j as int).drop_last());
        j = j - 1;
    }
    let r = s.substring_char(i, j);
    assert(strip_trailing_slashes(s@.subrange(i as int, j as int)) == s@.subrange(i as int, j as int));
    r
}

#[verifier::external_type_specification]
#[verifier::external_body]
pub struct ExHttpClient(reqwest::blocking::Client);

/// A remote operation, named as the server knows it.
#[derive(Debug)]
pub struct Action {
    pub name: String,
}

/// A client of one server: the base address, without slashes at its ends,
/// and the HTTP client that carries every call.
#[derive(Debug)]
pub struct CKAN {
    url: String,
    client: reqwest::blocking::Client,
}

impl CKAN {
    /// The base address that calls go to.
    pub closed spec fn base(&self) -> Seq<char> {
        self.url@
    }

    /// Builds a client for the server at `url`, whose calls `client` carries;
    /// slashes at either end of `url` are dropped.
    pub fn new(url: &str, client: reqwest::blocking::Client) -> (r: CKAN)
        ensures
            r.base() == trim_slashes(url@),
            slash_free_ends(r.base()),
    {
        let trimmed = trim_slash_ends(url);
        proof {
            lemma_trim_slashes_ends(url@);
        }
        CKAN { url: trimmed.to_owned(), client }
    }

    /// The base address, as normalised by `new`.
    pub fn url(&self) -> (r: &str)
        ensures
            r@ == self.base(),
    {
        self.url.as_str()
    }

    /// The HTTP client that carries the calls.
    pub fn client(&self) -> &reqwest::blocking::Client {
        &self.client
    }

    /// The address that `action` is posted to: `{base}/api/action/{name}`.
    pub fn endpoint(&self, action: &Action) -> (r: String)
        ensures
            r@ == self.base() + "/api/action/"@ + action.name@,
    {
        let mut r = self.url.clone();
        r.append("/api/action/");
        r.append(action.name.as_str());
        r
    }
}

proof fn lemma_strip_leading_slashes(s: Seq<char>)
    ensures
        strip_leading_slashes(s).len() > 0 ==> strip_leading_slashes(s)[0] != '/',
        strip_leading_slashes(s).len() <= s.len(),
        strip_leading_slashes(s) == s.subrange(
            s.len() - strip_leading_slashes(s).len(),
            s.len() as int,
        ),
    decreases s.len(),
{
    if s.len() > 0 && s[0] == '/' {
        lemma_strip_leading_slashes(s.drop_first());
        assert(s.drop_first().subrange(
            s.drop_first().len() - strip_leading_slashes(s).len(),
            s.drop_first().len() as int,
        ) =~= s.subrange(s.len() - strip_leading_slashes(s).len(), s.len() as int));
    } else {
        assert(s.subrange(0, s.len() as int) =~= s);
    }
}

proof fn lemma_strip_trailing_slashes(s: Seq<char>)
    ensures
        strip_trailing_slashes(s).len() > 0 ==> strip_trailing_slashes(s).last() != '/',
        strip_trailing_slashes(s).len() <= s.len(),
        strip_trailing_slashes(s) == s.subrange(0, strip_trailing_slashes(s).len() as int),
    decreases s.len(),
{
    if s.len() > 0 && s.last() == '/' {
        lemma_strip_trailing_slashes(s.drop_last());
        assert(s.drop_last().subrange(0, strip_trailing_slashes(s).len() as int) =~= s.subrange(
            0,
            strip_trailing_slashes(s).len() as int,
        ));
    } else {
        assert(s.subrange(0, s.len() as int) =~= s);
    }
}

/// What trimming leaves has no slash at either end.
pub proof fn lemma_trim_slashes_ends(s: Seq<char>)
    ensures
        slash_free_ends(trim_slashes(s)),
{
    let lead = strip_leading_slashes(s);
    lemma_strip_leading_slashes(s);
    lemma_strip_trailing_slashes(lead);
    let t = strip_trailing_slashes(lead);
    if t.len() > 0 {
        assert(t[0] == lead.subrange(0, t.len() as int)[0]);
    }
}

proof fn lemma_strip_trailing_appended(base: Seq<char>, n: nat)
    requires
        base.len() > 0 ==> base.last() != '/',
    ensures
        strip_trailing_slashes(base + slashes(n)) == base,
    decreases n,
{
    if n == 0 {
        assert(base + slashes(0) =~= base);
    } else {
        let s = base + slashes(n);
        assert(s.last() == '/');
        assert(s.drop_last() =~= base + slashes((n - 1) as nat));
        lemma_strip_trailing_appended(base, (n - 1) as nat);
    }
}

proof fn lemma_strip_leading_all(n: nat)
    ensures
        strip_leading_slashes(slashes(n)) == Seq::<char>::empty(),
    decreases n,
{
    if n > 0 {
        assert(slashes(n).drop_first() =~= slashes((n - 1) as nat));
        lemma_strip_leading_all((n - 1) as nat);
    } else {
        assert(slashes(0) =~= Seq::<char>::empty());
    }
}

/// A base address followed by any number of slashes is trimmed back to the
/// base address itself, where that address has no slash at either end.
pub proof fn lemma_trailing_slashes_dropped(base: Seq<char>, n: nat)
    requires
        slash_free_ends(base),
    ensures
        trim_slashes(base + slashes(n)) == base,
{
    if base.len() > 0 {
        assert((base + slashes(n))[0] == base[0]);
        lemma_strip_trailing_appended(base, n);
    } else {
        assert(base + slashes(n) =~= slashes(n));
        lemma_strip_leading_all(n);
        assert(strip_trailing_slashes(Seq::<char>::empty()) == Seq::<char>::empty());
        assert(base =~= Seq::<char>::empty());
    }
}

} // verus!
