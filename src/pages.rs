//! The pages shown to a person during login, and the placeholder
//! substitution that fills them in.
use vstd::prelude::*;
use vstd::string::*;
use crate::text::matches_at;

verus! {

/// The page shown when the provider reports an authorization error;
/// placeholders `{error_message}` and `{login_route}`.
pub const ERROR_PAGE_TEMPLATE: &'static str = "<!DOCTYPE html>\n<html>\n<head><title>Authorization Error</title></head>\n<body>\n<h1>Authorization Error</h1>\n<p>The provider reported: {error_message}</p>\n<p><a href=\"{login_route}\">Try again</a></p>\n</body>\n</html>\n";

/// The page shown after a successful authorization.
pub const SUCCESS_PAGE_TEMPLATE: &'static str = "<!DOCTYPE html>\n<html>\n<head><title>Authorization Successful</title></head>\n<body>\n<h1>Authorization Successful!</h1>\n<p>Gmail MCP Server is now configured and can reach your mailbox.</p>\n<p>You can close this window.</p>\n</body>\n</html>\n";

/// The landing page that lists the endpoints; one placeholder per route.
pub const INDEX_PAGE_TEMPLATE: &'static str = "<!DOCTYPE html>\n<html>\n<head><title>Gmail MCP Server</title></head>\n<body>\n<h1>Gmail MCP Server</h1>\n<p>Served from <code>{root_route}</code>. To connect a Gmail account, <a href=\"{login_route}\">log in</a> (<code>{login_route}</code>).</p>\n<h2>Endpoints</h2>\n<ul>\n<li>GET {login_route} - start the authorization</li>\n<li>GET {callback_route} - authorization callback</li>\n<li>GET {health_route} - health check</li>\n<li>GET {metrics_route} - Prometheus metrics</li>\n<li>POST {http_stream_route} - MCP over streamable HTTP</li>\n<li>GET {tools_route}/search_threads - tools over plain HTTP</li>\n<li>GET {sse_route} - MCP over server-sent events</li>\n<li>POST {sse_post_route} - messages for the SSE transport</li>\n</ul>\n</body>\n</html>\n";

/// Every occurrence of `from` in `s` replaced by `to`, scanning from the left
/// without overlaps. An empty `from` matches before every character and at
/// the end.
pub open spec fn replace_all(s: Seq<char>, from: Seq<char>, to: Seq<char>) -> Seq<char>
    decreases s.len(),
{
    if from.len() == 0 {
        if s.len() == 0 {
            to
        } else {
            to + seq![s[0]] + replace_all(s.drop_first(), from, to)
        }
    } else if s.len() < from.len() {
        s
    } else if s.subrange(0, from.len() as int) == from {
        to + replace_all(s.subrange(from.len() as int, s.len() as int), from, to)
    } else {
        seq![s[0]] + replace_all(s.drop_first(), from, to)
    }
}

/// The template after each placeholder substitution in turn.
pub open spec fn rendered(template: Seq<char>, replacements: Seq<(Seq<char>, Seq<char>)>) -> Seq<char>
    decreases replacements.len(),
{
    if replacements.len() == 0 {
        template
    } else {
        let (from, to) = replacements.last();
        replace_all(rendered(template, replacements.drop_last()), from, to)
    }
}

/// Replaces every occurrence of `from` in `s` by `to`.
pub fn replace_str(s: &str, from: &str, to: &str) -> (r: String)
    ensures
        r@ == replace_all(s@, from@, to@),
{
    let n = s.unicode_len();
    let m = from.unicode_len();
    let mut out = String::new();
    let mut i: usize = 0;
    assert(s@.subrange(0, n as int) =~= s@);
    assert(out@ + replace_all(s@, from@, to@) =~= replace_all(s@, from@, to@));
    while i < n
        invariant
            n == s@.len(),
            m == from@.len(),
            0 <= i <= n,
            out@ + replace_all(s@.subrange(i as int, n as int), from@, to@) == replace_all(s@, from@, to@),
        decreases n - i,
    {
        let ghost rest = s@.subrange(i as int, n as int);
        if m == 0 {
            assert(rest.drop_first() =~= s@.subrange(i + 1, n as int));
            out.append(to);
            out.append(s.substring_char(i, i + 1));
            proof {
                assert(s@.subrange(i as int, i + 1) =~= seq![rest[0]]);
            }
            assert(out@ + replace_all(s@.subrange(i + 1, n as int), from@, to@) =~= replace_all(s@, from@, to@));
            i += 1;
        } else if n - i >= m && matches_at(s, from, i) {
            assert(rest.subrange(0, m as int) =~= s@.subrange(i as int, i + m));
            assert(rest.subrange(m as int, rest.len() as int) =~= s@.subrange(i + m, n as int));
            out.append(to);
            assert(out@ + replace_all(s@.subrange(i + m, n as int), from@, to@) =~= replace_all(s@, from@, to@));
            i += m;
        } else {
            if n - i >= m {
                assert(rest.subrange(0, m as int) =~= s@.subrange(i as int, i + m));
            }
            assert(rest.drop_first() =~= s@.subrange(i + 1, n as int));
            out.append(s.substring_char(i, i + 1));
            proof {
                assert(s@.subrange(i as int, i + 1) =~= seq![rest[0]]);
            }
            assert(out@ + replace_all(s@.subrange(i + 1, n as int), from@, to@) =~= replace_all(s@, from@, to@));
            i += 1;
        }
    }
    assert(s@.subrange(n as int, n as int).len() == 0);
    if m == 0 {
        out.append(to);
        assert(out@ =~= replace_all(s@, from@, to@));
    } else {
        assert(out@ =~= replace_all(s@, from@, to@));
    }
    out
}

/// Fills in a template: each `(placeholder, value)` pair in turn replaces
/// every occurrence of the placeholder by the value.
pub fn render_template(template: &str, replacements: &[(&str, &str)]) -> (r: String)
    ensures
        r@ == rendered(template@, replacements.deep_view()),
{
    let mut result = template.to_string();
    let mut i: usize = 0;
    while i < replacements.len()
        invariant
            0 <= i <= replacements.len(),
            result@ == rendered(template@, replacements.deep_view().subrange(0, i as int)),
        decreases replacements.len() - i,
    {
        let (from, to) = replacements[i];
        assert(replacements.deep_view().subrange(0, i + 1).drop_last() =~= replacements.deep_view().subrange(0, i as int));
        assert(replacements.deep_view()[i as int] == (from@, to@));
        result = replace_str(result.as_str(), from, to);
        i += 1;
    }
    assert(replacements.deep_view().subrange(0, replacements.len() as int) =~= replacements.deep_view());
    result
}

} // verus!
