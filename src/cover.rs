use vstd::prelude::*;
use vstd::string::StrSliceExecFns;
use vstd::string::StringExecFns;
use crate::hash::{get_file_hash_code, md5_hex_of};

verus! {

/// An embedded picture as the tag reader reports it.
pub struct PictureData {
    /// The declared MIME type, such as `image/jpeg`, if the tag gives one.
    pub mime_type: Option<String>,
    /// The image bytes.
    pub data: Vec<u8>,
}

/// Why a cover image cannot be stored.
#[derive(Debug, Clone, Copy, PartialEq, Eq)]
pub enum CoverError {
    /// The picture holds no bytes.
    EmptyPayload,
    /// The picture declares no MIME type.
    MissingMimeType,
    /// The MIME type is not of the form `type/subtype`.
    InvalidMimeType,
}

/// No `/` in `s` at the positions `a..b`.
pub open spec fn no_slash_in(s: Seq<char>, a: int, b: int) -> bool {
    forall|j: int| a <= j < b ==> s[j] != '/'
}

/// `m` is `type/subtype` with its one `/` at position `i`, and neither part
/// empty.
pub open spec fn mime_split_at(m: Seq<char>, i: int) -> bool {
    &&& 0 < i
    &&& i + 1 < m.len()
    &&& m[i] == '/'
    &&& no_slash_in(m, 0, i)
    &&& no_slash_in(m, i + 1, m.len() as int)
}

/// The file extension that a MIME type gives: its subtype, or `None` when the
/// text is not of the form `type/subtype`.
pub open spec fn mime_extension_of(m: Seq<char>) -> Option<Seq<char>> {
    if exists|i: int| mime_split_at(m, i) {
        let i = choose|i: int| mime_split_at(m, i);
        Some(m.subrange(i + 1, m.len() as int))
    } else {
        None
    }
}

/// The name under which a cover is stored: `"{hash}.{extension}"`, checked in
/// this order: the payload is not empty, a MIME type is present, it is well
/// formed.
pub open spec fn cover_name_of(hash: Seq<char>, mime: Option<Seq<char>>, data: Seq<u8>) -> Result<
    Seq<char>,
    CoverError,
> {
    if data.len() == 0 {
        Err(CoverError::EmptyPayload)
    } else {
        match mime {
            None => Err(CoverError::MissingMimeType),
            Some(m) => match mime_extension_of(m) {
                None => Err(CoverError::InvalidMimeType),
                Some(ext) => Ok(hash + seq!['.'] + ext),
            },
        }
    }
}

/// The declared MIME type of a picture, as text.
pub open spec fn mime_view(mime: Option<String>) -> Option<Seq<char>> {
    match mime {
        Some(m) => Some(m@),
        None => None,
    }
}

/// `r` is the executable form of the specified outcome `s`.
pub open spec fn name_result_matches(r: Result<String, CoverError>, s: Result<Seq<char>, CoverError>) -> bool {
    match s {
        Ok(n) => r is Ok && r->Ok_0@ == n,
        Err(e) => r == Err::<String, CoverError>(e),
    }
}

proof fn lemma_split_unique(m: Seq<char>, i: int, k: int)
    requires
        mime_split_at(m, i),
        mime_split_at(m, k),
    ensures
        i == k,
{
    if k < i {
        assert(m[k] != '/');
    } else if i < k {
        assert(m[k] != '/');
    }
}

/// The first position at or after `from` that holds `/`.
fn find_slash(s: &str, from: usize) -> (r: Option<usize>)
    requires
        from <= s@.len(),
    ensures
        match r {
            Some(k) => from <= k < s@.len() && s@[k as int] == '/' && no_slash_in(s@, from as int, k as int),
            None => no_slash_in(s@, from as int, s@.len() as int),
        },
{
    let n = s.unicode_len();
    let mut k: usize = from;
    while k < n
        invariant
            from <= k <= n,
            n == s@.len(),
            no_slash_in(s@, from as int, k as int),
        decreases n - k,
    {
        if s.get_char(k) == '/' {
            return Some(k);
        }
        k = k + 1;
    }
    None
}

/// The subtype of a MIME type of the form `type/subtype`, used as a file
/// extension.
pub fn mime_extension(mime: &str) -> (r: Option<String>)
    ensures
        match mime_extension_of(mime@) {
            Some(e) => r is Some && r->Some_0@ == e,
            None => r is None,
        },
{
    let n = mime.unicode_len();
    match find_slash(mime, 0) {
        None => {
            assert(!exists|i: int| mime_split_at(mime@, i));
            None
        },
        Some(i) => {
            if i == 0 || i + 1 >= n {
                assert forall|k: int| !mime_split_at(mime@, k) by {
                    if mime_split_at(mime@, k) {
                        if k > i as int {
                            assert(mime@[i as int] != '/');
                        }
                    }
                }
                None
            } else {
                match find_slash(mime, i + 1) {
                    Some(k2) => {
                        assert forall|k: int| !mime_split_at(mime@, k) by {
                            if mime_split_at(mime@, k) {
                                if k < i as int {
                                    assert(mime@[k] != '/');
                                } else if k > i as int {
                                    assert(mime@[i as int] != '/');
                                } else {
                                    assert(mime@[k2 as int] != '/');
                                }
                            }
                        }
                        None
                    },
                    None => {
                        assert(mime_split_at(mime@, i as int));
                        proof {
                            let c = choose|c: int| mime_split_at(mime@, c);
                            lemma_split_unique(mime@, i as int, c);
                        }
                        let ext = mime.substring_char(i + 1, n);
                        Some(ext.to_owned())
                    },
                }
            }
        },
    }
}

/// The file name under which a picture is stored, given the identifier of
/// its source: `"{hash_code}.{subtype}"`. Fails with `EmptyPayload` on an
/// empty picture whatever its MIME type, then with `MissingMimeType` when it
/// declares none, then with `InvalidMimeType` when the type is not of the form
/// `type/subtype`.
pub fn cover_file_name(hash_code: &str, picture: &PictureData) -> (r: Result<String, CoverError>)
    ensures
        name_result_matches(r, cover_name_of(hash_code@, mime_view(picture.mime_type), picture.data@)),
{
    if picture.data.len() == 0 {
        return Err(CoverError::EmptyPayload);
    }
    match &picture.mime_type {
        None => Err(CoverError::MissingMimeType),
        Some(m) => match mime_extension(m.as_str()) {
            None => Err(CoverError::InvalidMimeType),
            Some(ext) => {
                let name = String::from_str(hash_code);
                let name = name.concat(".");
                let name = name.concat(ext.as_str());
                proof {
                    reveal_strlit(".");
                    assert(name@ =~= hash_code@ + seq!['.'] + ext@);
                }
                Ok(name)
            },
        },
    }
}

/// The name of the cover that a picture found in a file is stored under: the
/// digest of the whole file's contents, a dot, and the picture's subtype.
pub fn cover_name(contents: &[u8], picture: &PictureData) -> (r: Result<String, CoverError>)
    ensures
        name_result_matches(r, cover_name_of(md5_hex_of(contents@), mime_view(picture.mime_type), picture.data@)),
{
    let hash_code = get_file_hash_code(contents);
    cover_file_name(hash_code.as_str(), picture)
}

/// Naming a cover is idempotent: the same file contents, image bytes and MIME
/// type give the same outcome every time, and a non-empty picture with a
/// well-formed MIME type always gets the name `"{digest}.{subtype}"`, the
/// digest of the whole file followed by the subtype.
pub proof fn lemma_cover_naming_idempotent(
    contents1: Seq<u8>,
    contents2: Seq<u8>,
    mime1: Option<Seq<char>>,
    mime2: Option<Seq<char>>,
    data1: Seq<u8>,
    data2: Seq<u8>,
)
    requires
        contents1 == contents2,
        mime1 == mime2,
        data1 == data2,
    ensures
        cover_name_of(md5_hex_of(contents1), mime1, data1) == cover_name_of(md5_hex_of(contents2), mime2, data2),
        data1.len() > 0 && mime1 is Some && mime_extension_of(mime1->Some_0) is Some ==> cover_name_of(
            md5_hex_of(contents1),
            mime1,
            data1,
        ) == Ok::<Seq<char>, CoverError>(md5_hex_of(contents1) + seq!['.'] + mime_extension_of(mime1->Some_0)->Some_0),
{
}

} // verus!
