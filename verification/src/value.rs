//! The typed-value model: the persisted record and its category tag.
//!
//! A stored item is a payload — plain text or encrypted bytes — together
//! with a category tag of the form `"<kind>/<encoding>"`. The kind selects
//! one of the four supported classes of data and decides whether retrieval
//! writes a file; the encoding is free-form and picks the output file
//! extension, with `bin` meaning "no extension".

use vstd::prelude::*;

use crate::YorError;

verus! {

use vstd::string::StringExecFns;

/// The payload of one stored item: encrypted bytes or plain text.
#[derive(Debug)]
pub enum YorDataType {
    Bytes(Vec<u8>),
    Str(String),
}

/// The persisted record for one key: a payload and its category tag.
#[derive(Debug)]
pub struct YorData {
    pub y_data: YorDataType,
    pub y_type: String,
}

/// The closed set of category kinds. `Data` is returned as text on
/// retrieval; the other three are written to a file.
#[derive(Clone, Copy, Debug, PartialEq, Eq, Structural)]
pub enum CategoryKind {
    Data,
    Image,
    Video,
    File,
}

impl CategoryKind {
    /// Kinds whose payloads are file contents, base64-encoded for storage.
    pub open spec fn spec_is_file(self) -> bool {
        self != CategoryKind::Data
    }

    /// Whether retrieval of this kind writes a file instead of returning text.
    pub fn is_file(self) -> (r: bool)
        ensures
            r == self.spec_is_file(),
    {
        match self {
            CategoryKind::Data => false,
            _ => true,
        }
    }
}

/// A category tag validated once at construction: its kind, and the
/// free-form encoding that follows the first slash.
#[derive(Debug)]
pub struct Category {
    pub kind: CategoryKind,
    pub encoding: String,
}

/// Index of the first `'/'` in `s`, or `s.len()` if there is none.
pub open spec fn sep_index(s: Seq<char>) -> nat
    decreases s.len(),
{
    if s.len() == 0 {
        0
    } else if s[0] == '/' {
        0
    } else {
        1 + sep_index(s.drop_first())
    }
}

/// The pieces of `s` between its `'/'` separators, in order; splitting on a
/// separator at the edge or on an empty string yields empty pieces, as
/// `str::split` does.
pub open spec fn split_slash(s: Seq<char>) -> Seq<Seq<char>>
    decreases s.len(),
{
    if sep_index(s) >= s.len() {
        seq![s]
    } else {
        seq![s.take(sep_index(s) as int)] + split_slash(s.skip(sep_index(s) as int + 1))
    }
}

/// `sep_index` is the unique position that has a `'/'` with none before it,
/// or the length when the string has no `'/'` at all.
proof fn lemma_sep_index_is_first(s: Seq<char>, i: int)
    requires
        0 <= i <= s.len(),
        forall|j: int| 0 <= j < i ==> s[j] != '/',
        i < s.len() ==> s[i] == '/',
    ensures
        sep_index(s) == i,
    decreases s.len(),
{
    if i == 0 {
        assert(sep_index(s) == 0);
    } else {
        assert(s[0] != '/');
        let t = s.drop_first();
        assert(forall|j: int| 0 <= j < i - 1 ==> t[j] == s[j + 1] && t[j] != '/');
        lemma_sep_index_is_first(t, i - 1);
    }
}

/// A string without `'/'` splits into the single piece that is itself.
proof fn lemma_split_no_sep(s: Seq<char>)
    requires
        forall|j: int| 0 <= j < s.len() ==> s[j] != '/',
    ensures
        split_slash(s) =~= seq![s],
{
    lemma_sep_index_is_first(s, s.len() as int);
}

/// Splitting at the first `'/'` peels off the prefix piece.
proof fn lemma_split_at_first(s: Seq<char>, i: int)
    requires
        0 <= i < s.len(),
        s[i] == '/',
        forall|j: int| 0 <= j < i ==> s[j] != '/',
    ensures
        split_slash(s) =~= seq![s.take(i)] + split_slash(s.skip(i + 1)),
{
    lemma_sep_index_is_first(s, i);
}

/// Split a category tag (or any string) on `'/'`, as the original storage
/// format does: `"image/png"` yields `["image", "png"]`.
pub fn split_type(string: &str) -> (parts: Vec<String>)
    ensures
        parts@.map_values(|p: String| p@) == split_slash(string@),
        parts@.len() >= 1,
{
    let n = string.unicode_len();
    let mut parts: Vec<String> = Vec::new();
    let mut start: usize = 0;
    let mut i: usize = 0;
    proof {
        assert(string@.skip(0) =~= string@);
        assert(parts@.map_values(|p: String| p@) =~= Seq::<Seq<char>>::empty());
        assert(Seq::<Seq<char>>::empty() + split_slash(string@) =~= split_slash(string@));
    }
    while i < n
        invariant
            n == string@.len(),
            0 <= start <= i <= n,
            forall|j: int| start <= j < i ==> string@[j] != '/',
            split_slash(string@) =~= parts@.map_values(|p: String| p@) + split_slash(
                string@.skip(start as int),
            ),
        decreases n - i,
    {
        if string.get_char(i) == '/' {
            let ghost before = parts@;
            let piece = string.substring_char(start, i).to_owned();
            parts.push(piece);
            proof {
                let tail = string@.skip(start as int);
                assert(forall|j: int|
                    0 <= j < i - start ==> tail[j] == string@[j + start] && tail[j] != '/');
                assert(tail[i - start] == '/');
                lemma_split_at_first(tail, i - start);
                assert(tail.take(i - start) =~= string@.subrange(start as int, i as int));
                assert(tail.skip(i - start + 1) =~= string@.skip(i as int + 1));
                assert(parts@.map_values(|p: String| p@) =~= before.map_values(
                    |p: String| p@,
                ).push(piece@));
            }
            start = i + 1;
        }
        i += 1;
    }
    let ghost before = parts@;
    let last = string.substring_char(start, n).to_owned();
    parts.push(last);
    proof {
        let tail = string@.skip(start as int);
        assert(forall|j: int|
            0 <= j < tail.len() ==> tail[j] == string@[j + start] && tail[j] != '/');
        lemma_split_no_sep(tail);
        assert(last@ =~= tail);
        assert(parts@.map_values(|p: String| p@) =~= before.map_values(|p: String| p@).push(
            last@,
        ));
        assert(parts@.map_values(|p: String| p@) =~= split_slash(string@));
    }
    parts
}

/// The kind a tag piece names, if any.
pub open spec fn kind_of(part: Seq<char>) -> Option<CategoryKind> {
    if part == "data"@ {
        Some(CategoryKind::Data)
    } else if part == "image"@ {
        Some(CategoryKind::Image)
    } else if part == "video"@ {
        Some(CategoryKind::Video)
    } else if part == "file"@ {
        Some(CategoryKind::File)
    } else {
        None
    }
}

/// Recognise a kind piece: exactly `data`, `image`, `video` or `file`.
pub fn parse_kind(part: &String) -> (r: Option<CategoryKind>)
    ensures
        r == kind_of(part@),
{
    if *part == String::from_str("data") {
        Some(CategoryKind::Data)
    } else if *part == String::from_str("image") {
        Some(CategoryKind::Image)
    } else if *part == String::from_str("video") {
        Some(CategoryKind::Video)
    } else if *part == String::from_str("file") {
        Some(CategoryKind::File)
    } else {
        None
    }
}

/// What a well-formed category tag must look like: at least two pieces, the
/// first naming a supported kind.
pub open spec fn tag_valid(tag: Seq<char>) -> bool {
    &&& split_slash(tag).len() >= 2
    &&& kind_of(split_slash(tag)[0]) is Some
}

/// The kind a well-formed tag names.
pub open spec fn tag_kind(tag: Seq<char>) -> CategoryKind
    recommends
        tag_valid(tag),
{
    kind_of(split_slash(tag)[0])->0
}

/// The encoding piece of a well-formed tag: the piece after the first slash.
pub open spec fn tag_encoding(tag: Seq<char>) -> Seq<char>
    recommends
        tag_valid(tag),
{
    split_slash(tag)[1]
}

/// Validate a category tag and take it apart. A tag whose kind lies outside
/// the supported set, or that lacks the `/`-separated encoding piece, is a
/// fatal user error.
pub fn parse_category(tag: &str) -> (r: Result<Category, YorError>)
    ensures
        r is Ok <==> tag_valid(tag@),
        r matches Ok(c) ==> c.kind == tag_kind(tag@) && c.encoding@ == tag_encoding(tag@),
        r matches Err(e) ==> e == YorError::UnsupportedCategory,
{
    let parts = split_type(tag);
    if parts.len() < 2 {
        return Err(YorError::UnsupportedCategory);
    }
    let kind = match parse_kind(&parts[0]) {
        Some(k) => k,
        None => {
            return Err(YorError::UnsupportedCategory);
        },
    };
    let encoding = parts[1].clone();
    Ok(Category { kind, encoding })
}

} // verus!
