use vstd::prelude::*;

use vstd::string::StringSliceAdditionalSpecFns;
use vstd::utf8::decode_utf8;

use crate::text::{push_str, str_eq};

verus! {

broadcast use vstd::utf8::group_utf8_lib;

/// Length of a preview when the caller names none, in bytes.
pub const DEFAULT_PREVIEW_LENGTH: usize = 200;

/// `s` in lower case, as `str::to_lowercase` gives it.
pub uninterp spec fn lowercase_of(s: Seq<char>) -> Seq<char>;

/// Relies on `str::to_lowercase`: the lower-case form of each character.
#[verifier::external_body]
fn to_lowercase(s: &str) -> (r: String)
    ensures
        r@ == lowercase_of(s@),
{
    s.to_lowercase()
}

/// `e` is the extension of a kind of file that holds text.
pub open spec fn is_text_extension(e: Seq<char>) -> bool {
    ||| e == "txt"@
    ||| e == "md"@
    ||| e == "json"@
    ||| e == "xml"@
    ||| e == "html"@
    ||| e == "htm"@
    ||| e == "css"@
    ||| e == "js"@
    ||| e == "ts"@
    ||| e == "jsx"@
    ||| e == "tsx"@
    ||| e == "py"@
    ||| e == "rs"@
    ||| e == "go"@
    ||| e == "java"@
    ||| e == "c"@
    ||| e == "cpp"@
    ||| e == "h"@
    ||| e == "hpp"@
    ||| e == "cs"@
    ||| e == "php"@
    ||| e == "rb"@
    ||| e == "pl"@
    ||| e == "sh"@
    ||| e == "bash"@
    ||| e == "zsh"@
    ||| e == "fish"@
    ||| e == "ps1"@
    ||| e == "bat"@
    ||| e == "cmd"@
    ||| e == "sql"@
    ||| e == "log"@
    ||| e == "cfg"@
    ||| e == "conf"@
    ||| e == "ini"@
    ||| e == "toml"@
    ||| e == "yaml"@
    ||| e == "yml"@
    ||| e == "csv"@
    ||| e == "tsv"@
    ||| e == "rtf"@
    ||| e == "tex"@
    ||| e == "dockerfile"@
    ||| e == "gitignore"@
    ||| e == "readme"@
    ||| e == "license"@
    ||| e == "changelog"@
    ||| e == "makefile"@
    ||| e == "cmake"@
    ||| e == "vcxproj"@
    ||| e == "csproj"@
    ||| e == "swift"@
    ||| e == "kt"@
    ||| e == "scala"@
    ||| e == "clj"@
    ||| e == "hs"@
    ||| e == "elm"@
    ||| e == "dart"@
    ||| e == "lua"@
    ||| e == "r"@
    ||| e == "jl"@
    ||| e == "m"@
    ||| e == "mm"@
}

/// Decides whether `e` is the extension of a kind of file that holds text.
fn text_extension(e: &str) -> (r: bool)
    ensures
        r == is_text_extension(e@),
{
        str_eq(e, "txt") || str_eq(e, "md") || str_eq(e, "json") || str_eq(e, "xml") || str_eq(e, "html") || str_eq(e, "htm")
        || str_eq(e, "css") || str_eq(e, "js") || str_eq(e, "ts") || str_eq(e, "jsx") || str_eq(e, "tsx") || str_eq(e, "py")
        || str_eq(e, "rs") || str_eq(e, "go") || str_eq(e, "java") || str_eq(e, "c") || str_eq(e, "cpp") || str_eq(e, "h")
        || str_eq(e, "hpp") || str_eq(e, "cs") || str_eq(e, "php") || str_eq(e, "rb") || str_eq(e, "pl") || str_eq(e, "sh")
        || str_eq(e, "bash") || str_eq(e, "zsh") || str_eq(e, "fish") || str_eq(e, "ps1") || str_eq(e, "bat") || str_eq(e, "cmd")
        || str_eq(e, "sql") || str_eq(e, "log") || str_eq(e, "cfg") || str_eq(e, "conf") || str_eq(e, "ini") || str_eq(e, "toml")
        || str_eq(e, "yaml") || str_eq(e, "yml") || str_eq(e, "csv") || str_eq(e, "tsv") || str_eq(e, "rtf") || str_eq(e, "tex")
        || str_eq(e, "dockerfile") || str_eq(e, "gitignore") || str_eq(e, "readme") || str_eq(e, "license") || str_eq(e, "changelog") || str_eq(e, "makefile")
        || str_eq(e, "cmake") || str_eq(e, "vcxproj") || str_eq(e, "csproj") || str_eq(e, "swift") || str_eq(e, "kt") || str_eq(e, "scala")
        || str_eq(e, "clj") || str_eq(e, "hs") || str_eq(e, "elm") || str_eq(e, "dart") || str_eq(e, "lua") || str_eq(e, "r")
        || str_eq(e, "jl") || str_eq(e, "m") || str_eq(e, "mm")
}

/// Decides whether a file with extension `extension` gets a preview:
/// whether its lower-case form names a kind of file that holds text.
pub fn has_text_extension(extension: &str) -> (r: bool)
    ensures
        r == is_text_extension(lowercase_of(extension@)),
{
    let lower = to_lowercase(extension);
    text_extension(lower.as_str())
}

/// The position of the last space in `b`.
pub open spec fn last_space(b: Seq<u8>) -> Option<int>
    decreases b.len(),
{
    if b.len() == 0 {
        None
    } else if b.last() == 0x20 {
        Some(b.len() - 1)
    } else {
        last_space(b.drop_last())
    }
}

/// The preview of a text whose UTF-8 bytes are `b`: the whole text where it
/// fits in `max` bytes; else its first `max` bytes, cut back to the last
/// space where there is one, followed by an ellipsis.
pub open spec fn preview_of(b: Seq<u8>, max: nat) -> Seq<char> {
    if b.len() <= max {
        decode_utf8(b)
    } else {
        let t = b.subrange(0, max as int);
        match last_space(t) {
            Some(k) => decode_utf8(b.subrange(0, k)) + "..."@,
            None => decode_utf8(t) + "..."@,
        }
    }
}

fn find_last_space(b: &[u8]) -> (r: Option<usize>)
    ensures
        match r {
            Some(k) => last_space(b@) == Some(k as int) && k < b@.len() && b@[k as int] == 0x20,
            None => last_space(b@) is None,
        },
{
    let mut i = b.len();
    assert(b@.subrange(0, i as int) =~= b@);
    while i > 0
        invariant
            i <= b@.len(),
            last_space(b@) == last_space(b@.subrange(0, i as int)),
        decreases i,
    {
        assert(b@.subrange(0, i - 1) =~= b@.subrange(0, i as int).drop_last());
        if b[i - 1] == 0x20 {
            return Some(i - 1);
        }
        i = i - 1;
    }
    None
}

/// The preview of a text file's content, `max_length` bytes long at most
/// before the ellipsis (200 where it is `None`).
pub fn preview_text(content: &str, max_length: Option<usize>) -> (r: String)
    requires
        ({
            let max = match max_length {
                Some(m) => m,
                None => DEFAULT_PREVIEW_LENGTH,
            };
            content.spec_bytes().len() > max ==> vstd::utf8::is_char_boundary(content.spec_bytes(), max as int)
        }),
    ensures
        r@ == preview_of(
            content.spec_bytes(),
            (match max_length {
                Some(m) => m,
                None => DEFAULT_PREVIEW_LENGTH,
            }) as nat,
        ),
{
    let max = match max_length {
        Some(m) => m,
        None => DEFAULT_PREVIEW_LENGTH,
    };
    let ghost b = content.spec_bytes();
    proof {
        assert(decode_utf8(b) == content@);
    }
    if content.as_bytes().len() <= max {
        let r = String::from_str(content);
        assert(r@ == decode_utf8(b));
        return r;
    }
    let (t, _) = content.split_at(max);
    let mut r = match find_last_space(t.as_bytes()) {
        Some(k) => {
            proof {
                assert(t.spec_bytes() =~= b.subrange(0, max as int));
                assert(b[k as int] == t.spec_bytes()[k as int]);
                assert(vstd::utf8::valid_utf8(b));
                assert(!vstd::utf8::is_continuation_byte(b[k as int]));
                assert(vstd::utf8::is_char_boundary(b, k as int));
            }
            let (p, _) = content.split_at(k);
            proof {
                assert(decode_utf8(p.spec_bytes()) == p@);
            }
            String::from_str(p)
        },
        None => {
            proof {
                assert(decode_utf8(t.spec_bytes()) == t@);
            }
            String::from_str(t)
        },
    };
    push_str(&mut r, "...");
    r
}

} // verus!
