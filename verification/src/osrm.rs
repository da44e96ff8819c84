//! Addresses of the routing service (OSRM) that snaps points to roads and
//! draws roads between them.
use vstd::prelude::*;

use crate::text::push_char;

verus! {

/// `s` with each backslash written as `%5C`.
pub open spec fn escape_backslashes(s: Seq<char>) -> Seq<char>
    decreases s.len(),
{
    if s.len() == 0 {
        s
    } else if s.last() == '\\' {
        escape_backslashes(s.drop_last()) + seq!['%', '5', 'C']
    } else {
        escape_backslashes(s.drop_last()).push(s.last())
    }
}

/// Appends `s` to `out`, each backslash written as `%5C`.
fn push_escaped(out: &mut String, s: &str)
    ensures
        final(out)@ == old(out)@ + escape_backslashes(s@),
{
    let n = s.unicode_len();
    let mut i: usize = 0;
    let ghost start = out@;
    assert(s@.subrange(0, 0) =~= Seq::<char>::empty());
    while i < n
        invariant
            i <= n,
            n == s@.len(),
            out@ == start + escape_backslashes(s@.subrange(0, i as int)),
        decreases n - i,
    {
        let c = s.get_char(i);
        let ghost pre = s@.subrange(0, i + 1);
        assert(pre.drop_last() =~= s@.subrange(0, i as int));
        assert(pre.last() == c);
        if c == '\\' {
            push_char(out, '%');
            push_char(out, '5');
            push_char(out, 'C');
            assert(out@ =~= start + escape_backslashes(pre));
        } else {
            push_char(out, c);
            assert(out@ =~= start + escape_backslashes(pre));
        }
        i = i + 1;
    }
    assert(s@.subrange(0, n as int) =~= s@);
}

/// Appends `s` to `out` as it is.
fn push_plain(out: &mut String, s: &str)
    ensures
        final(out)@ == old(out)@ + s@,
{
    let n = s.unicode_len();
    let mut i: usize = 0;
    let ghost start = out@;
    while i < n
        invariant
            i <= n,
            n == s@.len(),
            out@ == start + s@.subrange(0, i as int),
        decreases n - i,
    {
        let c = s.get_char(i);
        push_char(out, c);
        assert(s@.subrange(0, i + 1) =~= s@.subrange(0, i as int).push(c));
        assert(out@ =~= start + s@.subrange(0, i + 1));
        i = i + 1;
    }
    assert(s@.subrange(0, n as int) =~= s@);
}

/// The address of a request to the routing service at `root` for `service`
/// with `args`, bicycle profile: `root/service/v1/bike/args` with every
/// backslash written as `%5C`.
pub open spec fn request_url_spec(root: Seq<char>, service: Seq<char>, args: Seq<char>) -> Seq<char> {
    escape_backslashes(root + seq!['/'] + service + seq!['/', 'v', '1', '/', 'b', 'i', 'k', 'e', '/'] + args)
}

/// The arguments of a road request between the points of `polyline`.
pub open spec fn route_args_spec(polyline: Seq<char>) -> Seq<char> {
    seq!['p', 'o', 'l', 'y', 'l', 'i', 'n', 'e', '('] + polyline + seq![
        ')',
        '?',
        'o',
        'v',
        'e',
        'r',
        'v',
        'i',
        'e',
        'w',
        '=',
        'f',
        'u',
        'l',
        'l',
    ]
}

proof fn lemma_escape_concat(a: Seq<char>, b: Seq<char>)
    ensures
        escape_backslashes(a + b) == escape_backslashes(a) + escape_backslashes(b),
    decreases b.len(),
{
    if b.len() == 0 {
        assert(a + b =~= a);
        assert(escape_backslashes(a) + escape_backslashes(b) =~= escape_backslashes(a));
    } else {
        assert((a + b).drop_last() =~= a + b.drop_last());
        assert((a + b).last() == b.last());
        lemma_escape_concat(a, b.drop_last());
        if b.last() == '\\' {
            assert(escape_backslashes(a) + escape_backslashes(b) =~= escape_backslashes(a) + escape_backslashes(
                b.drop_last(),
            ) + seq!['%', '5', 'C']);
        } else {
            assert(escape_backslashes(a) + escape_backslashes(b) =~= (escape_backslashes(a) + escape_backslashes(
                b.drop_last(),
            )).push(b.last()));
        }
    }
}

proof fn lemma_escape_plain(s: Seq<char>)
    requires
        !s.contains('\\'),
    ensures
        escape_backslashes(s) == s,
    decreases s.len(),
{
    if s.len() > 0 {
        assert(s.last() == s[s.len() - 1]);
        assert(!s.drop_last().contains('\\')) by {
            if s.drop_last().contains('\\') {
                let k = choose|k: int| 0 <= k < s.drop_last().len() && s.drop_last()[k] == '\\';
                assert(s[k] == '\\');
            }
        }
        lemma_escape_plain(s.drop_last());
        assert(s.drop_last().push(s.last()) =~= s);
    }
}

/// The routing service, by the address its requests start with.
pub struct OsrmApi {
    pub api_root: String,
}

impl OsrmApi {
    /// The service whose requests start with `api_root`.
    pub fn new(api_root: String) -> (api: OsrmApi)
        ensures
            api.api_root@ == api_root@,
    {
        OsrmApi { api_root }
    }

    /// The address of a request for `service` with `args`.
    pub fn request_url(&self, service: &str, args: &str) -> (url: String)
        ensures
            url@ == request_url_spec(self.api_root@, service@, args@),
    {
        let mut url = String::new();
        push_escaped(&mut url, self.api_root.as_str());
        push_char(&mut url, '/');
        push_escaped(&mut url, service);
        let ghost before_tail = url@;
        push_plain(&mut url, "/v1/bike/");
        proof {
            reveal_strlit("/v1/bike/");
        }
        let ghost tail = seq!['/', 'v', '1', '/', 'b', 'i', 'k', 'e', '/'];
        proof {
            assert(!tail.contains('\\')) by {
                if tail.contains('\\') {
                    let k = choose|k: int| 0 <= k < tail.len() && tail[k] == '\\';
                    assert(tail[k] != '\\');
                }
            }
            lemma_escape_plain(tail);
            assert(!seq!['/'].contains('\\')) by {
                if seq!['/'].contains('\\') {
                    let k = choose|k: int| 0 <= k < 1 && seq!['/'][k] == '\\';
                    assert(seq!['/'][k] == '/');
                }
            }
            lemma_escape_plain(seq!['/']);
        }
        push_escaped(&mut url, args);
        proof {
            let root = self.api_root@;
            lemma_escape_concat(root, seq!['/']);
            lemma_escape_concat(root + seq!['/'], service@);
            lemma_escape_concat(root + seq!['/'] + service@, tail);
            lemma_escape_concat(root + seq!['/'] + service@ + tail, args@);
            assert(url@ =~= request_url_spec(root, service@, args@));
        }
        url
    }

    /// The arguments of a road request between the points that `polyline`
    /// encodes, asking for the full road shape.
    pub fn route_args(polyline: &str) -> (args: String)
        ensures
            args@ == route_args_spec(polyline@),
    {
        let mut args = String::new();
        push_plain(&mut args, "polyline(");
        push_plain(&mut args, polyline);
        push_plain(&mut args, ")?overview=full");
        proof {
            reveal_strlit("polyline(");
            reveal_strlit(")?overview=full");
            assert(args@ =~= route_args_spec(polyline@));
        }
        args
    }
}

} // verus!
