//! Utilities to describe and dissect the source of a log record.

use vstd::prelude::*;
use vstd::string::{StrSliceExecFns, StringSliceAdditionalSpecFns};
use vstd::utf8::{decode_utf8_encode_utf8, encode_utf8_decode_utf8};

verus! {

/// True when `s` holds the separator `::` starting at index `i`.
pub open spec fn sep_at(s: Seq<char>, i: int) -> bool {
    0 <= i && i + 1 < s.len() && s[i] == ':' && s[i + 1] == ':'
}

/// Index of the first `::` separator in `s`, or `-1` when there is none.
pub open spec fn first_sep(s: Seq<char>) -> int
    decreases s.len(),
{
    if s.len() < 2 {
        -1
    } else if s[0] == ':' && s[1] == ':' {
        0
    } else {
        let r = first_sep(s.drop_first());
        if r < 0 {
            -1
        } else {
            r + 1
        }
    }
}

/// The target: what stands before the first `::`, or all of `s` without one.
pub open spec fn spec_target(s: Seq<char>) -> Seq<char> {
    if first_sep(s) < 0 {
        s
    } else {
        s.take(first_sep(s))
    }
}

/// The module: what stands after the first `::`, or `main` without one.
pub open spec fn spec_module(s: Seq<char>) -> Seq<char> {
    if first_sep(s) < 0 {
        "main"@
    } else {
        s.skip(first_sep(s) + 2)
    }
}

/// `first_sep` finds a separator position, and the first one.
pub proof fn lemma_first_sep_correct(s: Seq<char>)
    ensures
        first_sep(s) >= 0 ==> sep_at(s, first_sep(s)),
        first_sep(s) >= 0 ==> forall|j: int| 0 <= j < first_sep(s) ==> !sep_at(s, j),
        first_sep(s) < 0 ==> forall|j: int| !sep_at(s, j),
    decreases s.len(),
{
    if s.len() < 2 {
    } else if s[0] == ':' && s[1] == ':' {
    } else {
        lemma_first_sep_correct(s.drop_first());
        let t = s.drop_first();
        assert forall|j: int| sep_at(s, j) && j >= 1 implies sep_at(t, j - 1) by {
            assert(t[j - 1] == s[j]);
            assert(t[j] == s[j + 1]);
        }
        assert forall|j: int| sep_at(t, j) implies sep_at(s, j + 1) by {
            assert(t[j] == s[j + 1]);
            assert(t[j + 1] == s[j + 2]);
        }
        if first_sep(t) >= 0 {
            assert(sep_at(t, first_sep(t)));
        }
    }
}

/// Extracts the target name and the module path (without the target name)
/// from a full module path string (ex: `app::net::client`).
///
/// Without a `::` separator the whole path is the target and the module
/// name falls back to `main`.
pub fn extract_target_module<'a>(base_string: &'a str) -> (r: (&'a str, &'a str))
    ensures
        r.0@ == spec_target(base_string@),
        r.1@ == spec_module(base_string@),
{
    proof {
        lemma_first_sep_correct(base_string@);
    }
    let n = base_string.unicode_len();
    if n >= 2 {
        let mut i: usize = 0;
        while i < n - 1
            invariant
                n >= 2,
                n == base_string@.len(),
                0 <= i <= n,
                forall|j: int| 0 <= j < i ==> !sep_at(base_string@, j),
            decreases n - i,
        {
            if base_string.get_char(i) == ':' && base_string.get_char(i + 1) == ':' {
                proof {
                    assert(sep_at(base_string@, i as int));
                    assert(first_sep(base_string@) == i as int) by {
                        lemma_first_sep_correct(base_string@);
                        if first_sep(base_string@) < 0 {
                            assert(!sep_at(base_string@, i as int));
                        }
                        if first_sep(base_string@) > i as int {
                            assert(!sep_at(base_string@, i as int));
                        }
                        if 0 <= first_sep(base_string@) < i as int {
                            assert(!sep_at(base_string@, first_sep(base_string@)));
                        }
                    }
                }
                let target = base_string.substring_char(0, i);
                let module = base_string.substring_char(i + 2, n);
                proof {
                    assert(target@ =~= spec_target(base_string@));
                    assert(module@ =~= spec_module(base_string@));
                }
                return (target, module);
            }
            i = i + 1;
        }
    }
    proof {
        assert(first_sep(base_string@) < 0) by {
            lemma_first_sep_correct(base_string@);
            if first_sep(base_string@) >= 0 {
                assert(sep_at(base_string@, first_sep(base_string@)));
            }
        }
    }
    (base_string, "main")
}

/// Compares two strings by content.
pub fn str_eq(a: &str, b: &str) -> (r: bool)
    ensures
        r == (a@ == b@),
{
    let ab = a.as_bytes();
    let bb = b.as_bytes();
    if ab.len() != bb.len() {
        proof {
            if a@ == b@ {
                assert(a.spec_bytes() == b.spec_bytes());
            }
        }
        return false;
    }
    let n = ab.len();
    let mut i: usize = 0;
    while i < n
        invariant
            n == ab@.len() == bb@.len(),
            0 <= i <= n,
            ab@ == a.spec_bytes(),
            bb@ == b.spec_bytes(),
            forall|j: int| 0 <= j < i ==> ab@[j] == bb@[j],
        decreases n - i,
    {
        if ab[i] != bb[i] {
            proof {
                if a@ == b@ {
                    assert(a.spec_bytes() == b.spec_bytes());
                }
            }
            return false;
        }
        i = i + 1;
    }
    proof {
        assert(a.spec_bytes() =~= b.spec_bytes());
        encode_utf8_decode_utf8(a@);
        encode_utf8_decode_utf8(b@);
    }
    true
}

/// The context of a log message: where in the sources it was issued.
#[derive(Clone, Copy)]
pub struct Location {
    mod_path: &'static str,
    file: &'static str,
    line: u32,
}

impl Location {
    /// Creates a new instance of a log message location.
    ///
    /// # Arguments
    ///
    /// * `mod_path`: the module path of the call site.
    /// * `file`: the source file of the call site.
    /// * `line`: the line number in the source file.
    pub fn new(mod_path: &'static str, file: &'static str, line: u32) -> (r: Self)
        ensures
            r.spec_mod_path() == mod_path@,
            r.spec_file() == file@,
            r.spec_line() == line,
    {
        Self { mod_path, file, line }
    }

    /// The module path which issued this log message.
    pub fn mod_path(&self) -> (r: &'static str)
        ensures
            r@ == self.spec_mod_path(),
    {
        self.mod_path
    }

    /// The source file which issued this log message.
    pub fn file(&self) -> (r: &'static str)
        ensures
            r@ == self.spec_file(),
    {
        self.file
    }

    /// The line in the source file which issued this log message.
    pub fn line(&self) -> (r: u32)
        ensures
            r == self.spec_line(),
    {
        self.line
    }

    /// The module path, at the specification level.
    pub closed spec fn spec_mod_path(self) -> Seq<char> {
        self.mod_path@
    }

    /// The source file, at the specification level.
    pub closed spec fn spec_file(self) -> Seq<char> {
        self.file@
    }

    /// The line, at the specification level.
    pub closed spec fn spec_line(self) -> u32 {
        self.line
    }

    /// Extracts the target name and the module name from the module path.
    pub fn get_target_module(&self) -> (r: (&'static str, &'static str))
        ensures
            r.0@ == spec_target(self.spec_mod_path()),
            r.1@ == spec_module(self.spec_mod_path()),
    {
        extract_target_module(self.mod_path)
    }
}

} // verus!
