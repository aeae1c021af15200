//! Extension extraction and the whitelist that validates a local image path.

use vstd::prelude::*;
use crate::text::str_eq;

verus! {

/// The index of the last occurrence of `c` in `s`, if any.
pub open spec fn last_index_of(s: Seq<char>, c: char) -> Option<int>
    decreases s.len(),
{
    if s.len() == 0 {
        None
    } else if s[s.len() - 1] == c {
        Some(s.len() - 1)
    } else {
        last_index_of(s.drop_last(), c)
    }
}

proof fn lemma_last_index_of_push(s: Seq<char>, c: char, t: char)
    ensures
        last_index_of(s.push(c), t) == (if c == t {
            Some(s.len() as int)
        } else {
            last_index_of(s, t)
        }),
{
    assert(s.push(c)[s.push(c).len() - 1] == c);
    assert(s.push(c).drop_last() =~= s);
}

/// Where the final segment of a path begins: right after the last `/`, or at
/// the start when the path has no `/`.
pub open spec fn segment_start(p: Seq<char>) -> int {
    match last_index_of(p, '/') {
        Some(i) => i + 1,
        None => 0,
    }
}

/// The extension of a path: the substring after the last `.` of the final
/// path segment. A segment without a `.`, or whose only `.` leads it (a
/// hidden file), has no extension.
pub open spec fn spec_extension(p: Seq<char>) -> Option<Seq<char>> {
    match last_index_of(p, '.') {
        Some(d) => if d > segment_start(p) {
            Some(p.subrange(d + 1, p.len() as int))
        } else {
            None
        },
        None => None,
    }
}

/// Extracts the extension of a path, as [`spec_extension`] defines it.
pub fn extension_of(path: &str) -> (r: Option<String>)
    ensures
        match r {
            Some(e) => spec_extension(path@) == Some(e@),
            None => spec_extension(path@) is None,
        },
{
    let len = path.unicode_len();
    let mut dot: Option<usize> = None;
    let mut slash: Option<usize> = None;
    let mut i: usize = 0;
    while i < len
        invariant
            len == path@.len(),
            i <= len,
            match dot {
                Some(d) => d < i && last_index_of(path@.subrange(0, i as int), '.') == Some(
                    d as int,
                ),
                None => last_index_of(path@.subrange(0, i as int), '.') is None,
            },
            match slash {
                Some(s) => s < i && last_index_of(path@.subrange(0, i as int), '/') == Some(
                    s as int,
                ),
                None => last_index_of(path@.subrange(0, i as int), '/') is None,
            },
        decreases len - i,
    {
        let c = path.get_char(i);
        proof {
            assert(path@.subrange(0, i + 1) =~= path@.subrange(0, i as int).push(
                path@[i as int],
            ));
            lemma_last_index_of_push(path@.subrange(0, i as int), path@[i as int], '.');
            lemma_last_index_of_push(path@.subrange(0, i as int), path@[i as int], '/');
        }
        if c == '.' {
            dot = Some(i);
        }
        if c == '/' {
            slash = Some(i);
        }
        i += 1;
    }
    proof {
        assert(path@.subrange(0, len as int) =~= path@);
    }
    let start: usize = match slash {
        Some(s) => s + 1,
        None => 0,
    };
    match dot {
        Some(d) => {
            if d > start {
                Some(path.substring_char(d + 1, len).to_owned())
            } else {
                None
            }
        },
        None => None,
    }
}

/// Whether an extension is on the whitelist of image extensions, compared
/// case-sensitively.
pub open spec fn is_supported_ext(e: Seq<char>) -> bool {
    e == "png"@ || e == "jpg"@
}

/// Decides [`is_supported_ext`] on an extension string.
pub fn ext_supported(e: &str) -> (r: bool)
    ensures
        r == is_supported_ext(e@),
{
    str_eq(e, "png") || str_eq(e, "jpg")
}

/// Why a local image path was rejected.
#[derive(Copy, Clone, Debug, PartialEq, Eq, Structural)]
pub enum PathError {
    /// The path has no extractable extension.
    InvalidImagePath,
    /// The path's extension is not on the whitelist.
    UnsupportedExtension,
}

/// What validating a local path yields when no override is in force: the
/// path passes exactly when it bears a whitelisted extension.
pub open spec fn spec_validate(p: Seq<char>) -> Result<(), PathError> {
    match spec_extension(p) {
        None => Err(PathError::InvalidImagePath),
        Some(e) => if is_supported_ext(e) {
            Ok(())
        } else {
            Err(PathError::UnsupportedExtension)
        },
    }
}

/// Validates a local image path against the extension whitelist.
pub fn validate_path(path: &str) -> (r: Result<(), PathError>)
    ensures
        r == spec_validate(path@),
{
    match extension_of(path) {
        None => Err(PathError::InvalidImagePath),
        Some(e) => {
            if ext_supported(e.as_str()) {
                Ok(())
            } else {
                Err(PathError::UnsupportedExtension)
            }
        },
    }
}

} // verus!
