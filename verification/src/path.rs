//! Path composition over plain text.
//!
//! The three on-disk roots and everything under them are addressed by
//! `/`-separated path strings. `path_join` is the single composition rule:
//! an absolute segment replaces what was built so far, anything else is
//! appended behind exactly one separator.

use vstd::prelude::*;

verus! {

/// Joins one segment onto a base path. An empty segment leaves the base
/// unchanged; a segment starting with `'/'` replaces the base; otherwise the
/// segment is appended, inserting a `'/'` unless the base is empty or
/// already ends with one.
pub open spec fn path_join(base: Seq<char>, seg: Seq<char>) -> Seq<char> {
    if seg.len() == 0 {
        base
    } else if seg[0] == '/' {
        seg
    } else if base.len() == 0 {
        seg
    } else if base[base.len() - 1] == '/' {
        base + seg
    } else {
        base + seq!['/'] + seg
    }
}

/// Builds a path string segment by segment, following `path_join`.
pub struct PathBuilder {
    buffer: String,
}

impl View for PathBuilder {
    type V = Seq<char>;

    closed spec fn view(&self) -> Seq<char> {
        self.buffer@
    }
}

impl Default for PathBuilder {
    fn default() -> (r: Self)
        ensures
            r@ == Seq::<char>::empty(),
    {
        PathBuilder { buffer: String::new() }
    }
}

impl PathBuilder {
    pub fn push(self, path: &str) -> (r: Self)
        ensures
            r@ == path_join(self@, path@),
    {
        let seg_len = path.unicode_len();
        if seg_len == 0 {
            return self;
        }
        if path.get_char(0) == '/' {
            return PathBuilder { buffer: String::from_str(path) };
        }
        let mut buffer = self.buffer;
        let base_len = buffer.as_str().unicode_len();
        if base_len > 0 && buffer.as_str().get_char(base_len - 1) != '/' {
            buffer.append("/");
            proof {
                reveal_strlit("/");
                assert(buffer@ =~= self@ + seq!['/']);
            }
        }
        buffer.append(path);
        proof {
            assert(buffer@ =~= path_join(self@, path@));
        }
        PathBuilder { buffer }
    }

    pub fn build(self) -> (r: String)
        ensures
            r@ == self@,
    {
        self.buffer
    }

    pub fn clone_from(path: &str) -> (r: Self)
        ensures
            r@ == path@,
    {
        PathBuilder { buffer: String::from_str(path) }
    }
}

} // verus!
