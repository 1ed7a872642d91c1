//! Validation of contact-form input: required and optional text fields,
//! e-mail shape, the report-kind labels, and the banned-word screen.

use vstd::prelude::*;
use vstd::string::{StrSliceExecFns, StringExecFns};
use vstd::utf8::encode_utf8;
use crate::error::AppError;
use crate::text::{spec_trim, spec_lower, spec_contains_str, str_eq, trimmed, lowercase,
    str_contains};

verus! {

/// The character length of a trimmed field must land between the given
/// bounds for the field to be accepted.
pub open spec fn spec_trimmed_len_ok(s: Seq<char>, min: int, max: int) -> bool {
    min <= encode_utf8(spec_trim(s)).len() <= max
}

/// Accept a required text field: its trimmed form, provided the trimmed
/// byte length lies within `min..=max`.
pub fn validate_required(text: &str, min: usize, max: usize, label: &str) -> (r: Result<
    String,
    AppError,
>)
    ensures
        r is Ok <==> spec_trimmed_len_ok(text@, min as int, max as int),
        r matches Ok(t) ==> t@ == spec_trim(text@),
        r matches Err(e) ==> e matches AppError::BadRequest(_),
{
    let t: String = trimmed(text);
    let len: usize = t.as_str().len();
    if len < min || len > max {
        return Err(AppError::BadRequest(label.to_owned().concat("の長さが範囲外です")));
    }
    Ok(t)
}

/// Accept an optional text field: absent or blank input becomes nothing,
/// anything longer than `max` bytes after trimming is rejected, and the
/// rest is kept trimmed.
pub fn validate_optional(text: Option<String>, max: usize) -> (r: Result<Option<String>, AppError>)
    ensures
        text is None ==> r == Ok::<Option<String>, AppError>(None),
        text matches Some(s) ==> {
            let bytes = encode_utf8(spec_trim(s@));
            &&& (bytes.len() == 0 ==> r == Ok::<Option<String>, AppError>(None))
            &&& (0 < bytes.len() <= max ==> (r matches Ok(o) && o matches Some(t) && t@
                == spec_trim(s@)))
            &&& (bytes.len() > max ==> (r matches Err(e) && e matches AppError::BadRequest(_)))
        },
{
    match text {
        None => Ok(None),
        Some(value) => {
            let t: String = trimmed(value.as_str());
            let len: usize = t.as_str().len();
            if len == 0 {
                Ok(None)
            } else if len > max {
                Err(AppError::BadRequest("入力が長すぎます".to_owned()))
            } else {
                Ok(Some(t))
            }
        },
    }
}

/// The shape a trimmed e-mail address must have: 5 to 200 bytes, exactly
/// one `@`, and a domain part that is non-empty and contains a dot.
pub open spec fn spec_email_ok(bs: Seq<u8>) -> bool {
    &&& 5 <= bs.len() <= 200
    &&& exists|a: int|
        {
            &&& 0 <= a < bs.len()
            &&& #[trigger] bs[a] == 64
            &&& forall|k: int| 0 <= k < bs.len() && k != a ==> #[trigger] bs[k] != 64
            &&& a + 1 < bs.len()
            &&& exists|j: int| a < j < bs.len() && #[trigger] bs[j] == 46
        }
}

/// Whether a string, after trimming, has the shape of an e-mail address.
pub fn validate_email(text: &str) -> (r: bool)
    ensures
        r == spec_email_ok(encode_utf8(spec_trim(text@))),
{
    let t: String = trimmed(text);
    let bytes: &[u8] = t.as_str().as_bytes();
    let n: usize = bytes.len();
    if n < 5 || n > 200 {
        return false;
    }
    let mut at_pos: Option<usize> = None;
    let mut second_at: bool = false;
    let mut i: usize = 0;
    while i < n
        invariant
            0 <= i <= n,
            n == bytes@.len(),
            at_pos is None ==> forall|k: int| 0 <= k < i ==> #[trigger] bytes@[k] != 64,
            at_pos matches Some(a) ==> 0 <= a < i && bytes@[a as int] == 64 && (forall|k: int|
                0 <= k < i && k != a ==> #[trigger] bytes@[k] != 64) || second_at,
            second_at ==> exists|a1: int, a2: int|
                0 <= a1 < a2 < i && #[trigger] bytes@[a1] == 64 && #[trigger] bytes@[a2] == 64,
        decreases n - i,
    {
        if bytes[i] == 64 {
            if at_pos.is_some() {
                second_at = true;
            } else {
                at_pos = Some(i);
            }
        }
        i = i + 1;
    }
    if second_at {
        proof {
            assert forall|a: int|
                0 <= a < bytes@.len() && bytes@[a] == 64 implies !(forall|k: int|
                0 <= k < bytes@.len() && k != a ==> #[trigger] bytes@[k] != 64) by {
                let (a1, a2) = choose|a1: int, a2: int|
                    0 <= a1 < a2 < bytes@.len() && #[trigger] bytes@[a1] == 64
                        && #[trigger] bytes@[a2] == 64;
                if a != a1 {
                    assert(bytes@[a1] == 64);
                } else {
                    assert(bytes@[a2] == 64);
                }
            }
        }
        return false;
    }
    let a: usize = match at_pos {
        None => {
            return false;
        },
        Some(a) => a,
    };
    if a + 1 >= n {
        return false;
    }
    let mut j: usize = a + 1;
    while j < n
        invariant
            a < j <= n,
            n == bytes@.len(),
            bytes@ == encode_utf8(spec_trim(text@)),
            5 <= n <= 200,
            a + 1 < n,
            bytes@[a as int] == 64,
            forall|k: int| 0 <= k < n && k != a ==> #[trigger] bytes@[k] != 64,
            forall|k: int| a < k < j ==> #[trigger] bytes@[k] != 46,
        decreases n - j,
    {
        if bytes[j] == 46 {
            return true;
        }
        j = j + 1;
    }
    false
}

/// Cut a text down to at most `max` characters for the relayed report:
/// short text passes unchanged, longer text keeps its first `max - 1`
/// characters and ends in an ellipsis.
pub fn truncate(value: &str, max: usize) -> (r: String)
    ensures
        value@.len() <= max ==> r@ == value@,
        value@.len() > max ==> r@ == value@.subrange(
            0,
            if max == 0 {
                0int
            } else {
                max - 1
            },
        ) + "…"@,
{
    let count: usize = value.unicode_len();
    if count <= max {
        return value.to_owned();
    }
    let keep: usize = if max == 0 {
        0
    } else {
        max - 1
    };
    let head: String = value.substring_char(0, keep).to_owned();
    head.concat("…")
}

/// The label shown for a contact report kind: bug, request or other;
/// anything else is not a kind.
pub fn kind_label(kind: &str) -> (r: Option<&'static str>)
    ensures
        kind@ == "bug"@ ==> (r matches Some(l) && l@ == "バグ"@),
        kind@ == "request"@ ==> (r matches Some(l) && l@ == "要望"@),
        kind@ == "other"@ ==> (r matches Some(l) && l@ == "その他"@),
        kind@ != "bug"@ && kind@ != "request"@ && kind@ != "other"@ ==> r is None,
{
    proof {
        reveal_strlit("bug");
        reveal_strlit("request");
        reveal_strlit("other");
        assert("bug"@.len() == 3);
        assert("request"@.len() == 7);
        assert("other"@.len() == 5);
    }
    if str_eq(kind, "bug") {
        Some("バグ")
    } else if str_eq(kind, "request") {
        Some("要望")
    } else if str_eq(kind, "other") {
        Some("その他")
    } else {
        None
    }
}

/// The file extension used when relaying an uploaded image of the given
/// MIME type; anything unrecognised is stored as raw bytes.
pub fn get_extension_from_mime(mime: &str) -> (r: &'static str)
    ensures
        mime@ == "image/jpeg"@ ==> r@ == "jpg"@,
        mime@ == "image/png"@ ==> r@ == "png"@,
        mime@ == "image/gif"@ ==> r@ == "gif"@,
        mime@ == "image/webp"@ ==> r@ == "webp"@,
        mime@ != "image/jpeg"@ && mime@ != "image/png"@ && mime@ != "image/gif"@ && mime@
            != "image/webp"@ ==> r@ == "bin"@,
{
    proof {
        reveal_strlit("image/jpeg");
        reveal_strlit("image/png");
        reveal_strlit("image/gif");
        reveal_strlit("image/webp");
        assert("image/jpeg"@[6] == 'j');
        assert("image/png"@[6] == 'p');
        assert("image/gif"@[6] == 'g');
        assert("image/webp"@[6] == 'w');
        assert("image/jpeg"@.len() == 10);
        assert("image/png"@.len() == 9);
        assert("image/gif"@.len() == 9);
        assert("image/webp"@.len() == 10);
    }
    if str_eq(mime, "image/jpeg") {
        "jpg"
    } else if str_eq(mime, "image/png") {
        "png"
    } else if str_eq(mime, "image/gif") {
        "gif"
    } else if str_eq(mime, "image/webp") {
        "webp"
    } else {
        "bin"
    }
}

/// A word list matches a text when some word occurs in it, both sides
/// lowered first unless the screen is case-sensitive.
pub open spec fn spec_has_banned_word(text: Seq<char>, words: Seq<String>,
    case_sensitive: bool) -> bool {
    exists|i: int|
        0 <= i < words.len() && spec_contains_str(
            if case_sensitive {
                text
            } else {
                spec_lower(text)
            },
            if case_sensitive {
                (#[trigger] words[i])@
            } else {
                spec_lower(words[i]@)
            },
        )
}

/// Whether the text contains any word of the banned-word list, matching
/// case-insensitively unless the screen is configured case-sensitive. An
/// empty list bans nothing.
pub fn contains_banned_word(text: &str, words: &Vec<String>, case_sensitive: bool) -> (r: bool)
    ensures
        r == spec_has_banned_word(text@, words@, case_sensitive),
{
    let check_text: String = if case_sensitive {
        text.to_owned()
    } else {
        lowercase(text)
    };
    let n: usize = words.len();
    let mut i: usize = 0;
    while i < n
        invariant
            0 <= i <= n,
            n == words@.len(),
            case_sensitive ==> check_text@ == text@,
            !case_sensitive ==> check_text@ == spec_lower(text@),
            forall|k: int|
                0 <= k < i ==> !spec_contains_str(
                    if case_sensitive {
                        text@
                    } else {
                        spec_lower(text@)
                    },
                    if case_sensitive {
                        (#[trigger] words@[k])@
                    } else {
                        spec_lower(words@[k]@)
                    },
                ),
        decreases n - i,
    {
        let check_word: String = if case_sensitive {
            words[i].as_str().to_owned()
        } else {
            lowercase(words[i].as_str())
        };
        if str_contains(check_text.as_str(), check_word.as_str()) {
            return true;
        }
        i = i + 1;
    }
    false
}

} // verus!
