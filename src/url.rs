use vstd::prelude::*;
use vstd::string::*;

verus! {

/// The server address with every trailing `/` removed.
pub open spec fn trim_trailing_slashes(s: Seq<char>) -> Seq<char>
    decreases s.len(),
{
    if s.len() > 0 && s.last() == '/' {
        trim_trailing_slashes(s.drop_last())
    } else {
        s
    }
}

pub open spec fn http_scheme() -> Seq<char> {
    seq!['h', 't', 't', 'p', ':', '/', '/']
}

pub open spec fn https_scheme() -> Seq<char> {
    seq!['h', 't', 't', 'p', 's', ':', '/', '/']
}

/// The address already names a scheme that the client speaks.
pub open spec fn has_scheme(s: Seq<char>) -> bool {
    http_scheme().is_prefix_of(s) || https_scheme().is_prefix_of(s)
}

/// The base URL that a raw server address stands for.
pub open spec fn normalized(s: Seq<char>) -> Seq<char> {
    let t = trim_trailing_slashes(s);
    if has_scheme(t) {
        t
    } else {
        http_scheme() + t
    }
}

/// Whether `p` is a prefix of `s`, compared character by character.
fn starts_with(s: &str, p: &str) -> (r: bool)
    ensures
        r == p@.is_prefix_of(s@),
{
    let n = s.unicode_len();
    let m = p.unicode_len();
    if m > n {
        return false;
    }
    let mut i: usize = 0;
    while i < m
        invariant
            m <= n,
            n == s@.len(),
            m == p@.len(),
            i <= m,
            forall|j: int| 0 <= j < i ==> s@[j] == p@[j],
        decreases m - i,
    {
        if s.get_char(i) != p.get_char(i) {
            return false;
        }
        i = i + 1;
    }
    proof {
        assert(p@ =~= s@.subrange(0, m as int));
    }
    true
}

/// Turns a user-supplied server address into a base URL: trailing slashes
/// are stripped, and `http://` is put in front unless the address already
/// starts with `http://` or `https://`.
pub fn normalize_server_url(server: &str) -> (r: String)
    ensures
        r@ == normalized(server@),
{
    let n = server.unicode_len();
    let mut end: usize = n;
    proof {
        assert(server@ =~= server@.subrange(0, n as int));
    }
    while end > 0 && server.get_char(end - 1) == '/'
        invariant
            n == server@.len(),
            end <= n,
            trim_trailing_slashes(server@.subrange(0, end as int)) == trim_trailing_slashes(server@),
        decreases end,
    {
        proof {
            let t = server@.subrange(0, end as int);
            assert(t.drop_last() =~= server@.subrange(0, end - 1));
        }
        end = end - 1;
    }
    let trimmed = server.substring_char(0, end);
    proof {
        reveal_strlit("http://");
        reveal_strlit("https://");
        assert("http://"@ =~= http_scheme());
        assert("https://"@ =~= https_scheme());
    }
    if starts_with(trimmed, "http://") || starts_with(trimmed, "https://") {
        String::from_str(trimmed)
    } else {
        String::from_str("http://").concat(trimmed)
    }
}

/// What is left after trimming never ends in `/`.
pub proof fn lemma_trim_leaves_no_slash(s: Seq<char>)
    ensures
        trim_trailing_slashes(s).len() == 0 || trim_trailing_slashes(s).last() != '/',
    decreases s.len(),
{
    if s.len() > 0 && s.last() == '/' {
        lemma_trim_leaves_no_slash(s.drop_last());
    }
}

/// A base URL is its own normal form: whenever the address holds more than
/// slashes, the normalized address starts with `http://` or `https://`, does
/// not end in `/`, and normalizing it again changes nothing.
pub proof fn lemma_normalize_idempotent(s: Seq<char>)
    requires
        trim_trailing_slashes(s).len() > 0,
    ensures
        has_scheme(normalized(s)),
        normalized(s).last() != '/',
        normalized(normalized(s)) == normalized(s),
{
    let t = trim_trailing_slashes(s);
    lemma_trim_leaves_no_slash(s);
    assert(trim_trailing_slashes(t) == t);
    if !has_scheme(t) {
        let u = http_scheme() + t;
        assert(u.last() == t.last());
        assert(trim_trailing_slashes(u) == u);
        assert(u.subrange(0, 7) =~= http_scheme());
        assert(http_scheme().is_prefix_of(u));
    }
}

} // verus!
