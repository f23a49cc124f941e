//! Paths named by the settings: where the frames of a split GIF go.
use vstd::prelude::*;

verus! {

/// What `std::path::Path::file_stem` gives for `path`, as text; empty when it
/// gives nothing.
pub uninterp spec fn file_stem_of(path: Seq<char>) -> Seq<char>;

/// Relies on std::path::Path::file_stem: the file name of `path` without its
/// extension, read as text; empty when there is no file name.
#[verifier::external_body]
fn file_stem(path: &str) -> (r: String)
    ensures
        r@ == file_stem_of(path@),
{
    std::path::Path::new(path).file_stem().and_then(|s| s.to_str()).unwrap_or_default().to_string()
}

/// `name` placed under the directory `base`: a separator is put between them
/// unless `base` is empty or already ends with one.
pub open spec fn joined(base: Seq<char>, name: Seq<char>) -> Seq<char> {
    if base.len() == 0 {
        name
    } else if base.last() == '/' {
        base + name
    } else {
        base + seq!['/'] + name
    }
}

/// The directory for the frames of a file whose stem is `stem`.
pub open spec fn frames_dir_of(base: Seq<char>, stem: Seq<char>) -> Seq<char> {
    joined(base, stem + "_frames"@)
}

/// The values given on the command line for splitting a GIF, after any
/// shell expansion, and the directory under which a default frame
/// directory is placed.
#[derive(Clone, Debug)]
pub struct SplitArgs {
    pub file: Option<String>,
    pub dir: Option<String>,
    pub base_dir: String,
}

/// The file to split: the given one, else empty.
pub open spec fn file_or_empty(file: Option<String>) -> Seq<char> {
    match file {
        Some(f) => f@,
        None => Seq::empty(),
    }
}

/// The directory the frames go to: the given one, else the file's stem
/// followed by `_frames` under the base directory.
pub open spec fn split_dir(a: SplitArgs) -> Seq<char> {
    match a.dir {
        Some(d) => d@,
        None => frames_dir_of(a.base_dir@, file_stem_of(file_or_empty(a.file))),
    }
}

/// The directory for the frames of a file whose stem is `stem`, under `base`.
pub fn frames_dir(base: &str, stem: &str) -> (r: String)
    ensures
        r@ == frames_dir_of(base@, stem@),
{
    proof {
        reveal_strlit("_frames");
    }
    let mut name = String::from_str(stem);
    name.append("_frames");
    let n = base.unicode_len();
    if n == 0 {
        return name;
    }
    let mut r = String::from_str(base);
    if base.get_char(n - 1) != '/' {
        r.append("/");
        proof {
            reveal_strlit("/");
            assert("/"@ =~= seq!['/']);
        }
    }
    r.append(name.as_str());
    proof {
        assert(base@.len() > 0 && base@.last() == base@[n - 1]);
        assert(r@ =~= frames_dir_of(base@, stem@));
    }
    r
}

/// The file and the frame directory of a split.
pub fn split_paths(a: &SplitArgs) -> (r: (String, String))
    ensures
        r.0@ == file_or_empty(a.file),
        r.1@ == split_dir(*a),
{
    let file = match &a.file {
        Some(f) => f.clone(),
        None => String::new(),
    };
    let dir = match &a.dir {
        Some(d) => d.clone(),
        None => {
            let stem = file_stem(file.as_str());
            frames_dir(a.base_dir.as_str(), stem.as_str())
        },
    };
    (file, dir)
}

} // verus!
