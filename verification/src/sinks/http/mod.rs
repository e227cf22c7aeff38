//! Content types of the dashboard's static assets.
use vstd::prelude::*;

use crate::text::{ends_with, spec_ends_with};

verus! {

/// The content type served for an asset path, chosen by its extension.
pub open spec fn spec_mime_for(path: Seq<char>) -> Seq<char> {
    if spec_ends_with(path, ".css"@) {
        "text/css"@
    } else if spec_ends_with(path, ".js"@) {
        "application/javascript"@
    } else if spec_ends_with(path, ".html"@) {
        "text/html; charset=utf-8"@
    } else if spec_ends_with(path, ".png"@) {
        "image/png"@
    } else if spec_ends_with(path, ".svg"@) {
        "image/svg+xml"@
    } else {
        "application/octet-stream"@
    }
}

/// The content type served for an asset path.
pub fn mime_for(path: &str) -> (res: &'static str)
    ensures
        res@ == spec_mime_for(path@),
{
    if ends_with(path, ".css") {
        "text/css"
    } else if ends_with(path, ".js") {
        "application/javascript"
    } else if ends_with(path, ".html") {
        "text/html; charset=utf-8"
    } else if ends_with(path, ".png") {
        "image/png"
    } else if ends_with(path, ".svg") {
        "image/svg+xml"
    } else {
        "application/octet-stream"
    }
}

/// A path ending in `.css`, `.js`, `.html`, `.png` or `.svg` is served as
/// CSS, JavaScript, UTF-8 HTML, PNG or SVG, whatever comes before the
/// extension; any other path as `application/octet-stream`.
pub proof fn law_mime_by_extension(p: Seq<char>, other: Seq<char>)
    ensures
        spec_mime_for(p + ".css"@) == "text/css"@,
        spec_mime_for(p + ".js"@) == "application/javascript"@,
        spec_mime_for(p + ".html"@) == "text/html; charset=utf-8"@,
        spec_mime_for(p + ".png"@) == "image/png"@,
        spec_mime_for(p + ".svg"@) == "image/svg+xml"@,
        !spec_ends_with(other, ".css"@) && !spec_ends_with(other, ".js"@) && !spec_ends_with(
            other,
            ".html"@,
        ) && !spec_ends_with(other, ".png"@) && !spec_ends_with(other, ".svg"@) ==> spec_mime_for(
            other,
        ) == "application/octet-stream"@,
{
    reveal_strlit(".css");
    reveal_strlit(".js");
    reveal_strlit(".html");
    reveal_strlit(".png");
    reveal_strlit(".svg");
    assert(spec_ends_with(p + ".css"@, ".css"@)) by {
        let s = p + ".css"@;
        assert(s.subrange(s.len() - ".css"@.len(), s.len() as int) =~= ".css"@);
    }
    assert(!spec_ends_with(p + ".js"@, ".css"@)) by {
        let s = p + ".js"@;
        if ".css"@.len() <= s.len() {
            assert(s.subrange(s.len() - ".css"@.len(), s.len() as int)[1] == s[s.len() - 4 + 1]);
            assert(s[s.len() - 4 + 1] == ".js"@[3 - 4 + 1]);
        }
    }
    assert(spec_ends_with(p + ".js"@, ".js"@)) by {
        let s = p + ".js"@;
        assert(s.subrange(s.len() - ".js"@.len(), s.len() as int) =~= ".js"@);
    }
    assert(!spec_ends_with(p + ".html"@, ".css"@)) by {
        let s = p + ".html"@;
        if ".css"@.len() <= s.len() {
            assert(s.subrange(s.len() - ".css"@.len(), s.len() as int)[0] == s[s.len() - 4 + 0]);
            assert(s[s.len() - 4 + 0] == ".html"@[5 - 4 + 0]);
        }
    }
    assert(!spec_ends_with(p + ".html"@, ".js"@)) by {
        let s = p + ".html"@;
        if ".js"@.len() <= s.len() {
            assert(s.subrange(s.len() - ".js"@.len(), s.len() as int)[0] == s[s.len() - 3 + 0]);
            assert(s[s.len() - 3 + 0] == ".html"@[5 - 3 + 0]);
        }
    }
    assert(spec_ends_with(p + ".html"@, ".html"@)) by {
        let s = p + ".html"@;
        assert(s.subrange(s.len() - ".html"@.len(), s.len() as int) =~= ".html"@);
    }
    assert(!spec_ends_with(p + ".png"@, ".css"@)) by {
        let s = p + ".png"@;
        if ".css"@.len() <= s.len() {
            assert(s.subrange(s.len() - ".css"@.len(), s.len() as int)[1] == s[s.len() - 4 + 1]);
            assert(s[s.len() - 4 + 1] == ".png"@[4 - 4 + 1]);
        }
    }
    assert(!spec_ends_with(p + ".png"@, ".js"@)) by {
        let s = p + ".png"@;
        if ".js"@.len() <= s.len() {
            assert(s.subrange(s.len() - ".js"@.len(), s.len() as int)[0] == s[s.len() - 3 + 0]);
            assert(s[s.len() - 3 + 0] == ".png"@[4 - 3 + 0]);
        }
    }
    assert(!spec_ends_with(p + ".png"@, ".html"@)) by {
        let s = p + ".png"@;
        if ".html"@.len() <= s.len() {
            assert(s.subrange(s.len() - ".html"@.len(), s.len() as int)[1] == s[s.len() - 5 + 1]);
            assert(s[s.len() - 5 + 1] == ".png"@[4 - 5 + 1]);
        }
    }
    assert(spec_ends_with(p + ".png"@, ".png"@)) by {
        let s = p + ".png"@;
        assert(s.subrange(s.len() - ".png"@.len(), s.len() as int) =~= ".png"@);
    }
    assert(!spec_ends_with(p + ".svg"@, ".css"@)) by {
        let s = p + ".svg"@;
        if ".css"@.len() <= s.len() {
            assert(s.subrange(s.len() - ".css"@.len(), s.len() as int)[1] == s[s.len() - 4 + 1]);
            assert(s[s.len() - 4 + 1] == ".svg"@[4 - 4 + 1]);
        }
    }
    assert(!spec_ends_with(p + ".svg"@, ".js"@)) by {
        let s = p + ".svg"@;
        if ".js"@.len() <= s.len() {
            assert(s.subrange(s.len() - ".js"@.len(), s.len() as int)[0] == s[s.len() - 3 + 0]);
            assert(s[s.len() - 3 + 0] == ".svg"@[4 - 3 + 0]);
        }
    }
    assert(!spec_ends_with(p + ".svg"@, ".html"@)) by {
        let s = p + ".svg"@;
        if ".html"@.len() <= s.len() {
            assert(s.subrange(s.len() - ".html"@.len(), s.len() as int)[1] == s[s.len() - 5 + 1]);
            assert(s[s.len() - 5 + 1] == ".svg"@[4 - 5 + 1]);
        }
    }
    assert(!spec_ends_with(p + ".svg"@, ".png"@)) by {
        let s = p + ".svg"@;
        if ".png"@.len() <= s.len() {
            assert(s.subrange(s.len() - ".png"@.len(), s.len() as int)[1] == s[s.len() - 4 + 1]);
            assert(s[s.len() - 4 + 1] == ".svg"@[4 - 4 + 1]);
        }
    }
    assert(spec_ends_with(p + ".svg"@, ".svg"@)) by {
        let s = p + ".svg"@;
        assert(s.subrange(s.len() - ".svg"@.len(), s.len() as int) =~= ".svg"@);
    }
}

} // verus!
