use vstd::prelude::*;

use crate::error::Error;
use crate::text::{has_prefix, has_suffix, strip_prefix, strip_suffix, trim, trimmed};

verus! {

/// `s` without a trailing `.git`, if it has one.
pub open spec fn without_git_suffix(s: Seq<char>) -> Seq<char> {
    if has_suffix(s, ".git"@) {
        s.subrange(0, s.len() - 4)
    } else {
        s
    }
}

/// The repository identifier that a remote URL names: what follows one of
/// the three accepted prefixes, without a trailing `.git`; `None` for a URL
/// of any other shape.
pub open spec fn repo_of_url(url: Seq<char>) -> Option<Seq<char>> {
    if has_prefix(url, "http://github.com/"@) {
        Some(without_git_suffix(url.skip(18)))
    } else if has_prefix(url, "https://github.com/"@) {
        Some(without_git_suffix(url.skip(19)))
    } else if has_prefix(url, "git@github.com:"@) {
        Some(without_git_suffix(url.skip(15)))
    } else {
        None
    }
}

/// Each accepted remote URL form gives back the identifier that follows its
/// prefix, with a trailing `.git` removed.
pub proof fn remote_url_forms(id: Seq<char>)
    ensures
        repo_of_url("http://github.com/"@ + id) == Some(without_git_suffix(id)),
        repo_of_url("https://github.com/"@ + id) == Some(without_git_suffix(id)),
        repo_of_url("git@github.com:"@ + id) == Some(without_git_suffix(id)),
        without_git_suffix(id + ".git"@) == id,
{
    reveal_strlit("http://github.com/");
    reveal_strlit("https://github.com/");
    reveal_strlit("git@github.com:");
    reveal_strlit(".git");
    let a = "http://github.com/"@ + id;
    let b = "https://github.com/"@ + id;
    let c = "git@github.com:"@ + id;
    let d = id + ".git"@;
    assert(a.subrange(0, 18) =~= "http://github.com/"@);
    assert(a.skip(18) =~= id);
    assert(b.subrange(0, 18)[4] != "http://github.com/"@[4]);
    assert(b.subrange(0, 19) =~= "https://github.com/"@);
    assert(b.skip(19) =~= id);
    assert(c[0] != "http://github.com/"@[0]);
    if c.len() >= 18 {
        assert(c.subrange(0, 18)[0] != "http://github.com/"@[0]);
    }
    if c.len() >= 19 {
        assert(c.subrange(0, 19)[0] != "https://github.com/"@[0]);
    }
    assert(c.subrange(0, 15) =~= "git@github.com:"@);
    assert(c.skip(15) =~= id);
    assert(d.subrange(d.len() - 4, d.len() as int) =~= ".git"@);
    assert(d.subrange(0, d.len() - 4) =~= id);
}

fn strip_git_suffix(s: &str) -> (r: String)
    ensures
        r@ == without_git_suffix(s@),
{
    proof {
        reveal_strlit(".git");
    }
    match strip_suffix(s, ".git") {
        Some(rest) => rest.to_owned(),
        None => s.to_owned(),
    }
}

/// Parses the repository identifier out of a remote URL; a URL of another
/// shape gives `Repo`, which shows it.
pub fn parse_remote_url(url: &str) -> (r: Result<String, Error>)
    ensures
        match repo_of_url(url@) {
            Some(id) => r matches Ok(s) && s@ == id,
            None => r matches Err(Error::Repo(shown)) && shown@ == url@,
        },
{
    proof {
        reveal_strlit("http://github.com/");
        reveal_strlit("https://github.com/");
        reveal_strlit("git@github.com:");
    }
    if let Some(rest) = strip_prefix(url, "http://github.com/") {
        Ok(strip_git_suffix(rest))
    } else if let Some(rest) = strip_prefix(url, "https://github.com/") {
        Ok(strip_git_suffix(rest))
    } else if let Some(rest) = strip_prefix(url, "git@github.com:") {
        Ok(strip_git_suffix(rest))
    } else {
        Err(Error::Repo(url.to_owned()))
    }
}

/// The repository identifier from the output of the version-control
/// system's remote lookup: `Command` with the exit code when the lookup
/// failed, else the URL it printed, without surrounding white space, parsed.
pub fn repo_from_output(success: bool, code: Option<i32>, stdout: &str) -> (r: Result<
    String,
    Error,
>)
    ensures
        !success ==> r == Err::<String, Error>(Error::Command(code)),
        success ==> match repo_of_url(trimmed(stdout@)) {
            Some(id) => r matches Ok(s) && s@ == id,
            None => r matches Err(Error::Repo(shown)) && shown@ == trimmed(stdout@),
        },
{
    if !success {
        return Err(Error::Command(code));
    }
    parse_remote_url(trim(stdout))
}

} // verus!
