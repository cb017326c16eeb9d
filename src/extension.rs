use vstd::prelude::*;
use vstd::string::StrSliceExecFns;
use vstd::string::StringExecFns;

verus! {

/// The ASCII lowercase form of a character: `A`..`Z` become `a`..`z`, every
/// other character stays.
pub open spec fn ascii_lower_char(c: char) -> char {
    if 'A' <= c && c <= 'Z' {
        ((c as u32) + 32) as char
    } else {
        c
    }
}

/// A text with each character in its ASCII lowercase form.
pub open spec fn ascii_lower(s: Seq<char>) -> Seq<char> {
    s.map_values(|c: char| ascii_lower_char(c))
}

/// Relies on `str::to_ascii_lowercase`: ASCII letters `A` to `Z` become `a` to
/// `z`, all other characters are kept.
#[verifier::external_body]
fn to_ascii_lowercase(s: &str) -> (r: String)
    ensures
        r@ == ascii_lower(s@),
{
    s.to_ascii_lowercase()
}

/// One past the position of the last `c` among the first `end` characters of
/// `s`, or 0 where there is none.
pub open spec fn after_last(s: Seq<char>, c: char, end: int) -> int
    decreases end,
{
    if end <= 0 {
        0
    } else if s[end - 1] == c {
        end
    } else {
        after_last(s, c, end - 1)
    }
}

/// The extension of the file that a path names: what follows the last `.` of
/// its last component, where that `.` is not the component's first character.
pub open spec fn extension_of(path: Seq<char>) -> Option<Seq<char>> {
    let start = after_last(path, '/', path.len() as int);
    let dot = after_last(path, '.', path.len() as int);
    if dot > start + 1 {
        Some(path.subrange(dot, path.len() as int))
    } else {
        None
    }
}

/// The extension of a path in lowercase, as a codec tag.
pub open spec fn codec_of(path: Seq<char>) -> Option<Seq<char>> {
    match extension_of(path) {
        Some(e) => Some(ascii_lower(e)),
        None => None,
    }
}

/// A supported extension list as text.
pub open spec fn extension_texts(exts: Seq<String>) -> Seq<Seq<char>> {
    exts.map_values(|e: String| e@)
}

/// A path is a scan candidate when its extension, compared without regard to
/// ASCII case, is one of `exts`.
pub open spec fn is_candidate_path(path: Seq<char>, exts: Seq<Seq<char>>) -> bool {
    match extension_of(path) {
        Some(e) => exists|i: int| 0 <= i < exts.len() && ascii_lower(e) == ascii_lower(#[trigger] exts[i]),
        None => false,
    }
}

fn after_last_char(s: &str, c: char) -> (r: usize)
    ensures
        r as int == after_last(s@, c, s@.len() as int),
        r <= s@.len(),
{
    let mut k: usize = s.unicode_len();
    while k > 0
        invariant
            k <= s@.len(),
            after_last(s@, c, k as int) == after_last(s@, c, s@.len() as int),
        decreases k,
    {
        if s.get_char(k - 1) == c {
            return k;
        }
        k = k - 1;
    }
    0
}

/// The extension of the file that `path` names, as it stands.
pub fn file_extension(path: &str) -> (r: Option<String>)
    ensures
        match extension_of(path@) {
            Some(e) => r is Some && r->Some_0@ == e,
            None => r is None,
        },
{
    let n = path.unicode_len();
    let start = after_last_char(path, '/');
    let dot = after_last_char(path, '.');
    if dot >= 1 && dot - 1 > start {
        Some(path.substring_char(dot, n).to_owned())
    } else {
        None
    }
}

/// The codec tag of a file: its extension in lowercase.
pub fn codec_tag(path: &str) -> (r: Option<String>)
    ensures
        match codec_of(path@) {
            Some(e) => r is Some && r->Some_0@ == e,
            None => r is None,
        },
{
    match file_extension(path) {
        Some(e) => Some(to_ascii_lowercase(e.as_str())),
        None => None,
    }
}

/// The extensions that a scan takes by default: `mp3`, `flac`, `m4a`, `ogg`,
/// `aac` and `wav`.
pub fn supported_extensions() -> (r: Vec<String>)
    ensures
        extension_texts(r@) == seq![
            seq!['m', 'p', '3'],
            seq!['f', 'l', 'a', 'c'],
            seq!['m', '4', 'a'],
            seq!['o', 'g', 'g'],
            seq!['a', 'a', 'c'],
            seq!['w', 'a', 'v'],
        ],
{
    let mut r: Vec<String> = Vec::new();
    r.push(String::from_str("mp3"));
    r.push(String::from_str("flac"));
    r.push(String::from_str("m4a"));
    r.push(String::from_str("ogg"));
    r.push(String::from_str("aac"));
    r.push(String::from_str("wav"));
    proof {
        reveal_strlit("mp3");
        reveal_strlit("flac");
        reveal_strlit("m4a");
        reveal_strlit("ogg");
        reveal_strlit("aac");
        reveal_strlit("wav");
        assert("mp3"@ =~= seq!['m', 'p', '3']);
        assert("flac"@ =~= seq!['f', 'l', 'a', 'c']);
        assert("m4a"@ =~= seq!['m', '4', 'a']);
        assert("ogg"@ =~= seq!['o', 'g', 'g']);
        assert("aac"@ =~= seq!['a', 'a', 'c']);
        assert("wav"@ =~= seq!['w', 'a', 'v']);
        assert(extension_texts(r@) =~= seq![
            seq!['m', 'p', '3'],
            seq!['f', 'l', 'a', 'c'],
            seq!['m', '4', 'a'],
            seq!['o', 'g', 'g'],
            seq!['a', 'a', 'c'],
            seq!['w', 'a', 'v'],
        ]);
    }
    r
}

/// Whether a regular file at `path` is to be scanned: its extension matches
/// one of `extensions` without regard to ASCII case. Directories, files
/// without an extension and files with another extension are skipped.
pub fn is_music_file(is_file: bool, path: &str, extensions: &Vec<String>) -> (r: bool)
    ensures
        r == (is_file && is_candidate_path(path@, extension_texts(extensions@))),
{
    if !is_file {
        return false;
    }
    match file_extension(path) {
        None => false,
        Some(e) => {
            let lower = to_ascii_lowercase(e.as_str());
            let mut i: usize = 0;
            while i < extensions.len()
                invariant
                    is_file,
                    i <= extensions@.len(),
                    lower@ == ascii_lower(e@),
                    extension_of(path@) == Some(e@),
                    forall|j: int| 0 <= j < i ==> ascii_lower(e@) != ascii_lower(#[trigger] extensions@[j]@),
                decreases extensions@.len() - i,
            {
                let candidate = to_ascii_lowercase(extensions[i].as_str());
                if lower == candidate {
                    assert(extension_texts(extensions@)[i as int] == extensions@[i as int]@);
                    assert(ascii_lower(e@) == ascii_lower(extension_texts(extensions@)[i as int]));
                    assert(is_candidate_path(path@, extension_texts(extensions@)));
                    return true;
                }
                i = i + 1;
            }
            proof {
                assert forall|j: int| 0 <= j < extension_texts(extensions@).len() implies ascii_lower(e@) != ascii_lower(
                    #[trigger] extension_texts(extensions@)[j],
                ) by {
                    assert(extension_texts(extensions@)[j] == extensions@[j]@);
                }
            }
            false
        },
    }
}

} // verus!
