//! Where the agent's archive for a target is found.

use crate::lifecycle::AGENT_VERSION;
use vstd::prelude::*;
use vstd::string::StringExecFns;
use vstd::utf8::*;

verus! {

/// The directory under which releases are published, by version.
pub const RELEASES_URL: &'static str = "https://appsignal-agent-releases.global.ssl.fastly.net/";

/// The archive for one target, and where to fetch it.
#[derive(Debug, PartialEq, Eq)]
pub struct Download {
    /// The archive's file name.
    pub archive_name: String,
    /// The address to fetch it from.
    pub url: String,
}

/// The name under which archives are published for a Rust target: known
/// targets have a short name, any other keeps its own.
pub open spec fn architecture(target: Seq<char>) -> Seq<char> {
    if target == "x86_64-apple-darwin"@ {
        "x86_64-darwin"@
    } else if target == "x86_64-unknown-linux"@ {
        "x86_64-linux"@
    } else if target == "i686-unknown-linux"@ || target == "x86-unknown-linux"@ {
        "i686-linux"@
    } else {
        target
    }
}

/// The file name of the archive for a target.
pub open spec fn archive_name(target: Seq<char>) -> Seq<char> {
    "appsignal-agent-"@ + architecture(target) + "-static.tar.gz"@
}

/// The address of the archive for a target.
pub open spec fn archive_url(target: Seq<char>) -> Seq<char> {
    RELEASES_URL@ + AGENT_VERSION@ + "/"@ + archive_name(target)
}

/// Whether two texts are the same, character for character.
pub fn same_text(a: &str, b: &str) -> (same: bool)
    ensures
        same == (a@ == b@),
{
    let left = a.as_bytes();
    let right = b.as_bytes();
    proof {
        encode_utf8_decode_utf8(a@);
        encode_utf8_decode_utf8(b@);
    }
    if left.len() != right.len() {
        return false;
    }
    let n = left.len();
    let mut i: usize = 0;
    while i < n
        invariant
            i <= n,
            n == left@.len(),
            n == right@.len(),
            left@ == encode_utf8(a@),
            right@ == encode_utf8(b@),
            left@.subrange(0, i as int) == right@.subrange(0, i as int),
        decreases n - i,
    {
        if left[i] != right[i] {
            assert(left@[i as int] != right@[i as int]);
            return false;
        }
        assert(left@.subrange(0, i + 1) =~= left@.subrange(0, i as int).push(left@[i as int]));
        assert(right@.subrange(0, i + 1) =~= right@.subrange(0, i as int).push(right@[i as int]));
        i += 1;
    }
    assert(left@ =~= left@.subrange(0, n as int));
    assert(right@ =~= right@.subrange(0, n as int));
    true
}

/// The name under which archives are published for a Rust target.
pub fn architecture_of(target: &str) -> (name: &str)
    ensures
        name@ == architecture(target@),
{
    if same_text(target, "x86_64-apple-darwin") {
        "x86_64-darwin"
    } else if same_text(target, "x86_64-unknown-linux") {
        "x86_64-linux"
    } else if same_text(target, "i686-unknown-linux") || same_text(target, "x86-unknown-linux") {
        "i686-linux"
    } else {
        target
    }
}

/// Names the archive that holds the agent for `target`, and the address to
/// fetch it from.
pub fn download_agent_archive(target: &str) -> (download: Download)
    ensures
        download.archive_name@ == archive_name(target@),
        download.url@ == archive_url(target@),
{
    let mut archive_name = String::from_str("appsignal-agent-");
    archive_name.append(architecture_of(target));
    archive_name.append("-static.tar.gz");
    let mut url = String::from_str(RELEASES_URL);
    url.append(AGENT_VERSION);
    url.append("/");
    url.append(archive_name.as_str());
    assert(url@ =~= archive_url(target@));
    Download { archive_name, url }
}

} // verus!
