//! Version detection of the external tool: classifying the outcome of a
//! synchronous `--version` probe into a status value. The probe never
//! raises; every outcome becomes a status.
//!
//! The version text is the probe's captured stdout, decoded as UTF-8 with
//! invalid sequences replaced, then trimmed of Unicode whitespace at both
//! ends — the characters of the Unicode `White_Space` property, written
//! out below as [`is_unicode_ws`].

use vstd::prelude::*;
use vstd::string::{StrSliceExecFns, StringExecFns};
use vstd::utf8::{decode_utf8, valid_utf8};

verus! {

/// What a version probe reported: installed with its version text, or not
/// installed with the reason.
#[derive(Clone, PartialEq, Eq, Debug)]
pub struct CodexStatus {
    pub installed: bool,
    pub version: Option<String>,
    pub error: Option<String>,
}

/// The outcome of running the external tool with its version flag: the
/// process ran and exited, successfully or not, with its captured stdout —
/// or it could not be launched at all.
pub enum VersionProbe {
    Exited { success: bool, stdout: Vec<u8> },
    LaunchFailed { cause: String },
}

/// A character of the Unicode `White_Space` property: the ASCII
/// whitespace controls and space, next line, no-break space, ogham space
/// mark, the typographic spaces, the line and paragraph separators, the
/// narrow no-break space, the medium mathematical space and the
/// ideographic space.
pub open spec fn is_unicode_ws(c: char) -> bool {
    let u: u32 = c as u32;
    u == 0x09 || u == 0x0A || u == 0x0B || u == 0x0C || u == 0x0D || u == 0x20 || u == 0x85
        || u == 0xA0 || u == 0x1680 || (0x2000 <= u && u <= 0x200A) || u == 0x2028 || u == 0x2029
        || u == 0x202F || u == 0x205F || u == 0x3000
}

/// The text with Unicode whitespace trimmed from both ends.
pub open spec fn trim_model(text: Seq<char>) -> Seq<char>
    decreases text.len(),
{
    if text.len() == 0 {
        text
    } else if is_unicode_ws(text[0]) {
        trim_model(text.drop_first())
    } else if is_unicode_ws(text.last()) {
        trim_model(text.drop_last())
    } else {
        text
    }
}

/// What `String::from_utf8_lossy` makes of a byte sequence: the decoded
/// text, with every invalid sequence replaced by the replacement character.
pub uninterp spec fn lossy_decode_of(bytes: Seq<u8>) -> Seq<char>;

/// Relies on `String::from_utf8_lossy`: the result depends on the bytes
/// alone, and on valid UTF-8 it is exactly the decoded text.
#[verifier::external_body]
fn lossy_string(bytes: &Vec<u8>) -> (r: String)
    ensures
        r@ == lossy_decode_of(bytes@),
        valid_utf8(bytes@) ==> r@ == decode_utf8(bytes@),
{
    String::from_utf8_lossy(bytes).into_owned()
}

/// Trims Unicode whitespace from both ends of a text, as the version text
/// is trimmed of its trailing newline and padding.
#[verifier::loop_isolation(false)]
pub fn trim_whitespace(text: &str) -> (r: String)
    ensures
        r@ == trim_model(text@),
{
    let mut lo: usize = 0;
    let mut hi: usize = text.unicode_len();
    proof {
        assert(text@.subrange(0, text@.len() as int) =~= text@);
    }
    while lo < hi && is_ws_char(text.get_char(lo))
        invariant
            lo <= hi <= text@.len(),
            trim_model(text@) == trim_model(text@.subrange(lo as int, hi as int)),
        decreases hi - lo,
    {
        proof {
            let part = text@.subrange(lo as int, hi as int);
            assert(part[0] == text@[lo as int]);
            assert(part.drop_first() =~= text@.subrange(lo + 1, hi as int));
        }
        lo = lo + 1;
    }
    while lo < hi && is_ws_char(text.get_char(hi - 1))
        invariant
            lo <= hi <= text@.len(),
            trim_model(text@) == trim_model(text@.subrange(lo as int, hi as int)),
            lo < hi ==> !is_unicode_ws(text@[lo as int]),
        decreases hi - lo,
    {
        proof {
            let part = text@.subrange(lo as int, hi as int);
            assert(part[0] == text@[lo as int]);
            assert(part.last() == text@[hi - 1]);
            assert(part.drop_last() =~= text@.subrange(lo as int, hi - 1));
        }
        hi = hi - 1;
    }
    proof {
        let part = text@.subrange(lo as int, hi as int);
        if lo < hi {
            assert(part[0] == text@[lo as int]);
            assert(part.last() == text@[hi - 1]);
        }
        assert(trim_model(part) =~= part);
    }
    let part = text.substring_char(lo, hi);
    String::from_str(part)
}

/// Whether a character is Unicode whitespace.
fn is_ws_char(c: char) -> (r: bool)
    ensures
        r == is_unicode_ws(c),
{
    let u: u32 = c as u32;
    u == 0x09 || u == 0x0A || u == 0x0B || u == 0x0C || u == 0x0D || u == 0x20 || u == 0x85
        || u == 0xA0 || u == 0x1680 || (0x2000 <= u && u <= 0x200A) || u == 0x2028 || u == 0x2029
        || u == 0x202F || u == 0x205F || u == 0x3000
}

/// Classifies the outcome of a version probe: a successful exit means the
/// tool is installed, with its decoded and trimmed stdout as its version; a
/// non-zero exit means it is present but failing; a launch failure means it
/// was not found, with the cause in the error text. On stdout that is valid
/// UTF-8 the version text is fixed outright: the decoded characters, with
/// surrounding whitespace stripped.
pub fn classify_version(probe: VersionProbe) -> (r: CodexStatus)
    ensures
        (probe matches VersionProbe::Exited { success: true, stdout } ==> r.installed && r.error
            is None && (r.version matches Some(v) && v@ == trim_model(lossy_decode_of(stdout@))
            && (valid_utf8(stdout@) ==> v@ == trim_model(decode_utf8(stdout@))))),
        (probe matches VersionProbe::Exited { success: false, .. } ==> !r.installed && r.version
            is None && (r.error matches Some(e) && e@ == "Codex command failed"@)),
        (probe matches VersionProbe::LaunchFailed { cause } ==> !r.installed && r.version is None
            && (r.error matches Some(e) && e@ == "Codex not found: "@ + cause@)),
{
    match probe {
        VersionProbe::Exited { success: true, stdout } => {
            let decoded = lossy_string(&stdout);
            let version = trim_whitespace(decoded.as_str());
            CodexStatus { installed: true, version: Some(version), error: None }
        },
        VersionProbe::Exited { success: false, .. } => CodexStatus {
            installed: false,
            version: None,
            error: Some(String::from_str("Codex command failed")),
        },
        VersionProbe::LaunchFailed { cause } => {
            let mut text = String::from_str("Codex not found: ");
            text.append(cause.as_str());
            CodexStatus { installed: false, version: None, error: Some(text) }
        },
    }
}

} // verus!

