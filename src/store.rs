use vstd::prelude::*;
use vstd::string::*;

verus! {

/// Root of the scratch tree; removed whole after each validation run.
pub fn scratch_root() -> (r: &'static str)
    ensures
        r@ == ".tmp/www"@,
{
    ".tmp/www"
}

/// Directory of the proof files, served by the challenge server.
pub fn challenge_dir() -> (r: &'static str)
    ensures
        r@ == ".tmp/www/.well-known/acme-challenge"@,
{
    ".tmp/www/.well-known/acme-challenge"
}

/// URL path under which the challenge server serves the proof files.
pub fn challenge_route() -> (r: &'static str)
    ensures
        r@ == "/.well-known/acme-challenge"@,
{
    "/.well-known/acme-challenge"
}

/// File that holds the proof for `token`: named by the token itself, with
/// no encoding, inside the challenge directory.
pub fn proof_path(token: &str) -> (r: String)
    ensures
        r@ == ".tmp/www/.well-known/acme-challenge/"@ + token@,
{
    String::from_str(".tmp/www/.well-known/acme-challenge/").concat(token)
}

/// URL path at which the proof for `token` is fetched.
pub fn challenge_url(token: &str) -> (r: String)
    ensures
        r@ == "/.well-known/acme-challenge/"@ + token@,
{
    String::from_str("/.well-known/acme-challenge/").concat(token)
}

/// The challenge URL of a token and the proof file written for it end in
/// the same name, the token itself: a request for the URL under the route
/// names the file under the challenge directory.
pub proof fn lemma_url_and_file_share_token(token: Seq<char>)
    ensures
        ("/.well-known/acme-challenge/"@ + token).skip(
            ("/.well-known/acme-challenge"@).len() as int + 1,
        )
            == token,
        (".tmp/www/.well-known/acme-challenge/"@ + token).skip(
            (".tmp/www/.well-known/acme-challenge"@).len() as int + 1,
        ) == token,
{
    reveal_strlit("/.well-known/acme-challenge/");
    reveal_strlit("/.well-known/acme-challenge");
    reveal_strlit(".tmp/www/.well-known/acme-challenge/");
    reveal_strlit(".tmp/www/.well-known/acme-challenge");
    assert(("/.well-known/acme-challenge/"@ + token).skip(28) =~= token);
    assert((".tmp/www/.well-known/acme-challenge/"@ + token).skip(36) =~= token);
}

} // verus!
