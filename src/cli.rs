//! The options of one run, with their defaults applied.

use vstd::prelude::*;

use crate::text::glue;

verus! {

/// Index of the last `c` in `s`, or -1 when there is none.
pub open spec fn last_index(s: Seq<char>, c: char) -> int
    decreases s.len(),
{
    if s.len() == 0 {
        -1
    } else if s.last() == c {
        s.len() - 1
    } else {
        last_index(s.drop_last(), c)
    }
}

/// What follows the last `/` of a path.
pub open spec fn base_name(path: Seq<char>) -> Seq<char> {
    path.subrange(last_index(path, '/') + 1, path.len() as int)
}

/// A file name without its last extension; a leading dot starts no extension.
pub open spec fn stem(name: Seq<char>) -> Seq<char> {
    if last_index(name, '.') > 0 {
        name.subrange(0, last_index(name, '.'))
    } else {
        name
    }
}

/// The output file for `input` when none is given: its base name without
/// extension, with `.pdf` after it (`cv.pdf` when that name is empty).
pub open spec fn default_output(input: Seq<char>) -> Seq<char> {
    if stem(base_name(input)).len() == 0 {
        "cv.pdf"@
    } else {
        stem(base_name(input)) + ".pdf"@
    }
}

proof fn lemma_last_index_bounds(s: Seq<char>, c: char)
    ensures
        -1 <= last_index(s, c) < s.len(),
        last_index(s, c) >= 0 ==> s[last_index(s, c)] == c,
    decreases s.len(),
{
    if s.len() > 0 {
        lemma_last_index_bounds(s.drop_last(), c);
    }
}

/// Index of the last `c` in `s`, if any.
fn find_last(s: &str, c: char) -> (r: Option<usize>)
    ensures
        match r {
            Some(i) => i as int == last_index(s@, c),
            None => last_index(s@, c) == -1,
        },
{
    let n = s.unicode_len();
    let mut found: Option<usize> = None;
    let mut i: usize = 0;
    while i < n
        invariant
            n == s@.len(),
            i <= n,
            match found {
                Some(j) => j as int == last_index(s@.take(i as int), c),
                None => last_index(s@.take(i as int), c) == -1,
            },
        decreases n - i,
    {
        assert(s@.take(i as int + 1).drop_last() =~= s@.take(i as int));
        if s.get_char(i) == c {
            found = Some(i);
        }
        i = i + 1;
    }
    assert(s@.take(n as int) =~= s@);
    found
}

/// The output file name used when none is given for `input`.
pub fn default_output_name(input: &str) -> (r: String)
    ensures
        r@ == default_output(input@),
{
    proof {
        lemma_last_index_bounds(input@, '/');
    }
    let n = input.unicode_len();
    let start: usize = match find_last(input, '/') {
        Some(i) => i + 1,
        None => 0,
    };
    let base = input.substring_char(start, n);
    proof {
        lemma_last_index_bounds(base@, '.');
    }
    let m = base.unicode_len();
    let end: usize = match find_last(base, '.') {
        Some(j) => if j > 0 {
            j
        } else {
            m
        },
        None => m,
    };
    let name = base.substring_char(0, end);
    assert(name@ =~= stem(base_name(input@)));
    if end == 0 {
        String::from_str("cv.pdf")
    } else {
        glue(name, ".pdf")
    }
}

/// The options of one run: the record file, the template identifier and the
/// output file.
#[derive(Clone, Debug, PartialEq, Eq)]
pub struct Cli {
    pub file: String,
    pub template: String,
    pub output: String,
}

impl Cli {
    /// Applies the defaults: the `"default"` template, and an output file
    /// named after the input.
    pub fn from_args(file: String, template: Option<String>, output: Option<String>) -> (r: Cli)
        ensures
            r.file == file,
            r.template@ == match template {
                Some(t) => t@,
                None => "default"@,
            },
            r.output@ == match output {
                Some(o) => o@,
                None => default_output(file@),
            },
    {
        let template = match template {
            Some(t) => t,
            None => String::from_str("default"),
        };
        let output = match output {
            Some(o) => o,
            None => default_output_name(file.as_str()),
        };
        Cli { file, template, output }
    }
}

} // verus!
