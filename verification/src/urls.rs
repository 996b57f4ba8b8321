use vstd::prelude::*;
use vstd::string::*;

verus! {

/// What `url::Url::parse` makes of a string: on success the serialization of
/// the parsed URL; on failure, whether the complaint was "relative URL
/// without a base" (the missing-scheme case), paired with the error's
/// description. The parser is a pure function of its input, so its outcome
/// can be named without being written out.
pub uninterp spec fn url_parse_spec(s: Seq<char>) -> Result<Seq<char>, (bool, Seq<char>)>;

/// The literal put in front of an input that lacked a scheme.
pub open spec fn http_prefix() -> Seq<char> {
    "http://"@
}

enum UrlParseOutcome {
    Parsed(String),
    RelativeWithoutBase(String),
    Invalid(String),
}

/// Relies on `url::Url::parse`: a pure parser of its one string argument.
/// On success, `Url`'s serialization (`Into<String>`) is the parsed form,
/// and the crate's own invariant check (`Url::check_invariants`) has that
/// serialization reparse to itself. On failure, the fieldless `ParseError`
/// variant fixes the description, with `RelativeUrlWithoutBase` exactly when
/// the input had no scheme to anchor it.
#[verifier::external_body]
fn parse_url_call(s: &str) -> (r: UrlParseOutcome)
    ensures
        (match r {
            UrlParseOutcome::Parsed(u) => url_parse_spec(s@) == Ok::<Seq<char>, (bool, Seq<char>)>(u@)
                && url_parse_spec(u@) == Ok::<Seq<char>, (bool, Seq<char>)>(u@),
            UrlParseOutcome::RelativeWithoutBase(m) => url_parse_spec(s@) matches Err(e)
                && e.0 && e.1 == m@,
            UrlParseOutcome::Invalid(m) => url_parse_spec(s@) matches Err(e) && !e.0
                && e.1 == m@,
        }),
{
    match url::Url::parse(s) {
        Ok(u) => UrlParseOutcome::Parsed(String::from(u)),
        Err(e @ url::ParseError::RelativeUrlWithoutBase) => {
            UrlParseOutcome::RelativeWithoutBase(e.to_string())
        },
        Err(e) => UrlParseOutcome::Invalid(e.to_string()),
    }
}

/// The normalizer's whole behaviour, over the named parse outcome: accept
/// whatever parses; when the only complaint was a missing base, put
/// `http://` in front and take that parse's result; pass any other failure
/// through as its description, unrecovered.
pub open spec fn normalize_spec(s: Seq<char>) -> Result<Seq<char>, Seq<char>> {
    match url_parse_spec(s) {
        Ok(u) => Ok(u),
        Err(e) => if e.0 {
            match url_parse_spec(http_prefix() + s) {
                Ok(u) => Ok(u),
                Err(e2) => Err(e2.1),
            }
        } else {
            Err(e.1)
        },
    }
}

/// Why normalization failed: the parser's description of what was wrong with
/// the input (after the missing-scheme retry, if one was made).
#[derive(Debug)]
pub struct ParseFailure {
    pub message: String,
}

/// Resolve the raw target into a well-formed absolute URL: parse it, and if
/// the only obstacle was a missing scheme, parse it again with `http://` in
/// front. Any result handed out is in the parser's own form, so normalizing
/// it again would return it unchanged.
pub fn normalize(raw: &str) -> (r: Result<String, ParseFailure>)
    ensures
        r is Ok <==> normalize_spec(raw@) is Ok,
        r matches Ok(u) ==> u@ == normalize_spec(raw@)->Ok_0
            && url_parse_spec(u@) == Ok::<Seq<char>, (bool, Seq<char>)>(u@),
        r matches Err(f) ==> f.message@ == normalize_spec(raw@)->Err_0,
{
    match parse_url_call(raw) {
        UrlParseOutcome::Parsed(u) => Ok(u),
        UrlParseOutcome::RelativeWithoutBase(_) => {
            let mut prefixed = String::from_str("http://");
            prefixed.append(raw);
            match parse_url_call(prefixed.as_str()) {
                UrlParseOutcome::Parsed(u) => Ok(u),
                UrlParseOutcome::RelativeWithoutBase(m) => Err(ParseFailure { message: m }),
                UrlParseOutcome::Invalid(m) => Err(ParseFailure { message: m }),
            }
        },
        UrlParseOutcome::Invalid(m) => Err(ParseFailure { message: m }),
    }
}

/// An input the parser rejects only for lacking a base is normalized to
/// exactly what parsing it with `http://` put in front gives.
pub proof fn lemma_normalize_prepends_scheme(s: Seq<char>)
    requires
        url_parse_spec(s) matches Err(e) && e.0,
    ensures
        normalize_spec(s) == (match url_parse_spec(http_prefix() + s) {
            Ok(u) => Ok::<Seq<char>, Seq<char>>(u),
            Err(e2) => Err::<Seq<char>, Seq<char>>(e2.1),
        }),
{
}

/// Normalizing an input the parser accepts and returns unchanged — an
/// absolute URL already in the parser's own form — is a no-op.
pub proof fn lemma_normalize_noop(s: Seq<char>)
    requires
        url_parse_spec(s) == Ok::<Seq<char>, (bool, Seq<char>)>(s),
    ensures
        normalize_spec(s) == Ok::<Seq<char>, Seq<char>>(s),
{
}

/// Normalization is idempotent: whatever `normalize` hands out reparses to
/// itself (its contract says so of every `Ok` it returns), and such a value
/// normalizes to itself again.
pub proof fn lemma_normalize_idempotent(s: Seq<char>, u: Seq<char>)
    requires
        normalize_spec(s) == Ok::<Seq<char>, Seq<char>>(u),
        url_parse_spec(u) == Ok::<Seq<char>, (bool, Seq<char>)>(u),
    ensures
        normalize_spec(u) == Ok::<Seq<char>, Seq<char>>(u),
{
    lemma_normalize_noop(u);
}

/// Index just past the last `/` in `s`; 0 when there is none.
pub open spec fn after_last_slash(s: Seq<char>) -> int
    decreases s.len(),
{
    if s.len() == 0 {
        0
    } else if s[s.len() - 1] == '/' {
        s.len() as int
    } else {
        after_last_slash(s.drop_last())
    }
}

/// The output filename: everything after the last `/` of the raw target,
/// taken verbatim — query strings and encoded characters included; the whole
/// string when it has no `/`.
pub open spec fn filename_spec(s: Seq<char>) -> Seq<char> {
    s.subrange(after_last_slash(s), s.len() as int)
}

/// Derive the output filename from the raw target string (not the
/// normalized URL): the substring after its last `/`, unmodified.
pub fn derive_filename(target: &str) -> (r: String)
    ensures
        r@ == filename_spec(target@),
{
    let n: usize = target.unicode_len();
    let mut cut: usize = 0;
    let mut i: usize = 0;
    while i < n
        invariant
            i <= n,
            n == target@.len(),
            cut <= i,
            cut == after_last_slash(target@.subrange(0, i as int)),
        decreases n - i,
    {
        let c: char = target.get_char(i);
        proof {
            assert(target@.subrange(0, i as int + 1).drop_last() =~= target@.subrange(
                0,
                i as int,
            ));
            assert(target@.subrange(0, i as int + 1).last() == target@[i as int]);
        }
        if c == '/' {
            cut = i + 1;
        }
        i = i + 1;
    }
    proof {
        assert(target@.subrange(0, n as int) =~= target@);
    }
    let tail: &str = target.substring_char(cut, n);
    String::from_str(tail)
}

} // verus!
