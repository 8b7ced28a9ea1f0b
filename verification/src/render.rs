//! The package renderer: one entry's resolved data laid out as the textual
//! stanza that joins the output document.  Pure text assembly — every field
//! is embedded verbatim, and a provenance comment records the original
//! owner and repository.

use vstd::prelude::*;

use crate::text::normalize_name;
use crate::text::normalized;

verus! {

/// The stanza for one successfully resolved entry.  `name` is the already
/// normalized identifier; it appears both as the attribute key and as the
/// package name.  The comment after the package name records where the
/// entry came from.
pub open spec fn stanza_spec(
    name: Seq<char>,
    owner: Seq<char>,
    repo: Seq<char>,
    version: Seq<char>,
    url: Seq<char>,
    sha: Seq<char>,
) -> Seq<char> {
    "  "@ + name + " = buildVimPluginFrom2Nix {\n    pname = \""@ + name
        + "\"; # Manifest entry: \""@ + owner + "/"@ + repo + "\"\n    version = \""@ + version
        + "\";\n    src = fetchurl {\n      url = \""@ + url + "\";\n      sha256 = \""@ + sha
        + "\";\n    };\n  };\n"@
}

/// Render one stanza from an entry's normalized name, provenance and
/// resolved data.
pub fn render_stanza(
    name: &str,
    owner: &str,
    repo: &str,
    version: &str,
    url: &str,
    sha: &str,
) -> (r: String)
    ensures
        r@ == stanza_spec(name@, owner@, repo@, version@, url@, sha@),
{
    let mut out = String::new();
    out.append("  ");
    out.append(name);
    out.append(" = buildVimPluginFrom2Nix {\n    pname = \"");
    out.append(name);
    out.append("\"; # Manifest entry: \"");
    out.append(owner);
    out.append("/");
    out.append(repo);
    out.append("\"\n    version = \"");
    out.append(version);
    out.append("\";\n    src = fetchurl {\n      url = \"");
    out.append(url);
    out.append("\";\n      sha256 = \"");
    out.append(sha);
    out.append("\";\n    };\n  };\n");
    proof {
        assert(out@ =~= stanza_spec(name@, owner@, repo@, version@, url@, sha@));
    }
    out
}

/// Render the stanza for an entry under its raw listed name, normalizing the
/// name first.
pub fn render_named_stanza(
    raw_name: &str,
    owner: &str,
    repo: &str,
    version: &str,
    url: &str,
    sha: &str,
) -> (r: String)
    ensures
        r@ == stanza_spec(normalized(raw_name@), owner@, repo@, version@, url@, sha@),
{
    let name = normalize_name(raw_name);
    render_stanza(name.as_str(), owner, repo, version, url, sha)
}

} // verus!
