//! Normalising a repository argument into a clonable URI: a bare
//! `name`, `vendor/name` or `domain/vendor/name` against a known hosting
//! domain becomes a `git@domain:vendor/name` address, while explicit
//! URIs and addresses that already carry a user are passed through
//! verbatim.

use vstd::prelude::*;

verus! {

use crate::strutil::{contains_char, has_char, lemma_split_char_len, replace_char, spec_replace,
    spec_split_char, spec_starts, split_char, starts_with, strip_prefix_rep,
    strip_prefix_repeated};
use vstd::string::StringExecFns;

/// The hosting domains recognized as known repositories.
pub open spec fn known_domains() -> Seq<Seq<char>> {
    seq!["github.com"@, "gitlab.com"@, "bitbucket.com"@]
}

/// `repo` names the known domain `d`: bare, or under an `https` or
/// `http` scheme.
pub open spec fn spec_matches_known(repo: Seq<char>, d: Seq<char>) -> bool {
    spec_starts(repo, "https://"@ + d) || spec_starts(repo, "http://"@ + d) || spec_starts(repo, d)
}

/// `repo` is an address the normaliser may rewrite: it names a known
/// hosting domain, or is so bare — no scheme, no user — that the default
/// domain applies.
pub open spec fn spec_is_known_repository(repo: Seq<char>) -> bool {
    (exists|i: int|
        0 <= i < known_domains().len() && spec_matches_known(repo, #[trigger] known_domains()[i]))
        || !(spec_starts(repo, "https://"@) || spec_starts(repo, "http://"@) || contains_char(
        repo,
        '@',
    ))
}

/// The known hosting domains, in the order they are tried.
pub fn known_repos() -> (r: Vec<&'static str>)
    ensures
        r.deep_view() == known_domains(),
{
    let mut v: Vec<&'static str> = Vec::new();
    v.push("github.com");
    v.push("gitlab.com");
    v.push("bitbucket.com");
    proof {
        assert(v.deep_view() =~= known_domains());
    }
    v
}

/// Whether `repo` is an address the normaliser may rewrite.
pub fn is_known_repository(repo: &str) -> (r: bool)
    ensures
        r == spec_is_known_repository(repo@),
{
    let domains = known_repos();
    let mut i: usize = 0;
    while i < domains.len()
        invariant
            0 <= i <= domains.len(),
            domains.deep_view() == known_domains(),
            forall|j: int| 0 <= j < i ==> !spec_matches_known(repo@, #[trigger] known_domains()[j]),
        decreases domains.len() - i,
    {
        let d = domains[i];
        proof {
            assert(d@ == known_domains()[i as int]);
        }
        let https_d = String::from_str("https://").concat(d);
        let http_d = String::from_str("http://").concat(d);
        if starts_with(repo, https_d.as_str()) || starts_with(repo, http_d.as_str())
            || starts_with(repo, d) {
            assert(spec_matches_known(repo@, known_domains()[i as int]));
            return true;
        }
        i = i + 1;
    }
    !(starts_with(repo, "https://") || starts_with(repo, "http://") || has_char(repo, '@'))
}

/// The domain, vendor and repository name an argument breaks into, with
/// `user` standing in for a missing vendor and the default domain for a
/// missing domain: the argument is stripped of its scheme, `:` folded
/// into `/`, and the last three `/`-separated pieces read from the
/// right.
pub open spec fn spec_arg_to_parts(repo_path: Seq<char>, user: Seq<char>) -> (
    Seq<char>,
    Seq<char>,
    Seq<char>,
) {
    let stripped = strip_prefix_rep(strip_prefix_rep(repo_path, "https://"@), "http://"@);
    let replaced = spec_replace(stripped, ':', '/');
    let pieces = spec_split_char(replaced, '/');
    let repo = pieces.last();
    let vendor = if pieces.len() >= 2 {
        pieces[pieces.len() - 2]
    } else {
        user
    };
    let domain = if pieces.len() >= 3 {
        pieces[pieces.len() - 3]
    } else {
        "github.com"@
    };
    (domain, vendor, repo)
}

/// Breaks a repository argument into domain, vendor and name.
pub fn arg_to_parts(repo_path: &str, user: &str) -> (r: (String, String, String))
    ensures
        (r.0@, r.1@, r.2@) == spec_arg_to_parts(repo_path@, user@),
{
    let s1 = strip_prefix_repeated(repo_path, "https://");
    let s2 = strip_prefix_repeated(s1, "http://");
    proof {
        reveal_strlit("/");
    }
    let replaced = replace_char(s2, ':', "/");
    let mut pieces = split_char(replaced.as_str(), '/');
    proof {
        lemma_split_char_len(replaced@, '/');
    }
    let ghost dv = pieces.deep_view();
    let repo = match pieces.pop() {
        Some(p) => p,
        None => {
            proof {
                assert(false);
            }
            String::new()
        },
    };
    proof {
        assert(repo@ == dv.last());
        assert(pieces.deep_view() =~= dv.drop_last());
    }
    let ghost dv1 = pieces.deep_view();
    let vendor = match pieces.pop() {
        Some(v) => v,
        None => String::from_str(user),
    };
    proof {
        if dv1.len() > 0 {
            assert(vendor@ == dv1.last());
            assert(dv1.last() == dv[dv.len() - 2]);
            assert(pieces.deep_view() =~= dv1.drop_last());
        }
    }
    let domain = match pieces.pop() {
        Some(d) => d,
        None => String::from_str("github.com"),
    };
    proof {
        if dv.len() >= 3 {
            assert(domain@ == dv[dv.len() - 3]);
        }
    }
    (domain, vendor, repo)
}

/// What the normaliser returns: an address carrying a user, or one that
/// is no known repository, verbatim; anything else rebuilt as
/// `git@domain:vendor/name`.
pub open spec fn spec_to_repository_uri(repo_path: Seq<char>, user: Seq<char>) -> Seq<char> {
    if contains_char(repo_path, '@') {
        repo_path
    } else if !spec_is_known_repository(repo_path) {
        repo_path
    } else {
        let (domain, vendor, repo) = spec_arg_to_parts(repo_path, user);
        "git@"@ + domain + ":"@ + vendor + "/"@ + repo
    }
}

/// Normalises a repository argument into a clonable URI. `user` stands
/// in as the vendor for arguments that name none.
pub fn to_repository_uri(repo_path: &str, user: &str) -> (r: String)
    ensures
        r@ == spec_to_repository_uri(repo_path@, user@),
{
    if has_char(repo_path, '@') {
        return String::from_str(repo_path);
    }
    if !is_known_repository(repo_path) {
        return String::from_str(repo_path);
    }
    let (domain, vendor, repo) = arg_to_parts(repo_path, user);
    let mut out = String::from_str("git@");
    out.append(domain.as_str());
    out.append(":");
    out.append(vendor.as_str());
    out.append("/");
    out.append(repo.as_str());
    out
}

} // verus!
