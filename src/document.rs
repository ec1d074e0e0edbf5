use vstd::prelude::*;
use vstd::string::StrSliceExecFns;

verus! {

/// The string held by an optional `String`.
pub open spec fn opt_view(o: Option<String>) -> Option<Seq<char>> {
    match o {
        Some(s) => Some(s@),
        None => None,
    }
}

/// Percent-decoding of a string, or `None` where the decoded bytes are not UTF-8.
pub uninterp spec fn url_decoded(s: Seq<char>) -> Option<Seq<char>>;

/// Relies on `urlencoding::decode`: decodes `%xx` escapes, fails where the result
/// is not UTF-8, and hands back a string without `%` as it is.
#[verifier::external_body]
fn percent_decode(s: &str) -> (r: Option<String>)
    ensures
        opt_view(r) == url_decoded(s@),
        (forall|i: int| 0 <= i < s@.len() ==> s@[i] != '%') ==> opt_view(r) == Some(s@),
{
    urlencoding::decode(s).ok().map(|d| d.into_owned())
}

/// Index of the last `c` among the first `j` characters of `s`, or -1.
pub open spec fn last_index_before(s: Seq<char>, c: char, j: int) -> int
    decreases j,
{
    if j <= 0 || j > s.len() {
        -1
    } else if s[j - 1] == c {
        j - 1
    } else {
        last_index_before(s, c, j - 1)
    }
}

pub open spec fn last_index(s: Seq<char>, c: char) -> int {
    last_index_before(s, c, s.len() as int)
}

/// The last segment of a `/`-separated path; `None` where it is empty.
pub open spec fn file_name_of(p: Seq<char>) -> Option<Seq<char>> {
    let name = p.subrange(last_index(p, '/') + 1, p.len() as int);
    if name.len() == 0 {
        None
    } else {
        Some(name)
    }
}

/// What follows the last `.` of a file name; empty where there is no `.`, or
/// where the only `.` leads the name.
pub open spec fn extension_of(name: Seq<char>) -> Seq<char> {
    let d = last_index(name, '.');
    if d <= 0 {
        Seq::empty()
    } else {
        name.subrange(d + 1, name.len() as int)
    }
}

fn find_last(s: &str, c: char) -> (r: Option<usize>)
    ensures
        match r {
            Some(d) => d == last_index(s@, c) && d < s@.len(),
            None => last_index(s@, c) == -1,
        },
{
    let mut j: usize = s.unicode_len();
    while j > 0
        invariant
            j <= s@.len(),
            last_index(s@, c) == last_index_before(s@, c, j as int),
        decreases j,
    {
        if s.get_char(j - 1) == c {
            return Some(j - 1);
        }
        j = j - 1;
    }
    None
}

/// The last segment of the path `p`, as written.
pub fn file_name(p: &str) -> (r: Option<String>)
    ensures
        opt_view(r) == file_name_of(p@),
{
    let n = p.unicode_len();
    let start: usize = match find_last(p, '/') {
        Some(d) => d + 1,
        None => 0,
    };
    if start == n {
        None
    } else {
        Some(p.substring_char(start, n).to_owned())
    }
}

/// A document that the editor has open, by the path part of its URL.
pub struct Document {
    pub path: String,
}

impl Document {
    pub fn new(url_path: &str) -> (r: Self)
        ensures
            r.path@ == url_path@,
    {
        Document { path: url_path.to_owned() }
    }

    /// The file name for display: the last segment of the path, percent-decoded;
    /// `None` where there is none or it does not decode.
    pub fn get_filename(&self) -> (r: Option<String>)
        ensures
            opt_view(r) == match file_name_of(self.path@) {
                Some(name) => url_decoded(name),
                None => None,
            },
    {
        match file_name(self.path.as_str()) {
            Some(name) => percent_decode(name.as_str()),
            None => None,
        }
    }

    /// The extension of the file name; empty where there is none.
    pub fn get_extension(&self) -> (r: String)
        ensures
            r@ == match file_name_of(self.path@) {
                Some(name) => extension_of(name),
                None => Seq::empty(),
            },
    {
        match file_name(self.path.as_str()) {
            Some(name) => {
                let s = name.as_str();
                let n = s.unicode_len();
                match find_last(s, '.') {
                    Some(d) => {
                        if d == 0 {
                            String::new()
                        } else {
                            s.substring_char(d + 1, n).to_owned()
                        }
                    },
                    None => String::new(),
                }
            },
            None => String::new(),
        }
    }
}

} // verus!
