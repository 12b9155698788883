//! Deriving the storage location of a persisted cover image.
//!
//! A cover is stored under a fixed `books` directory as
//! `<book_id>.cover.jpg`, where `book_id` is the file-name stem of the source
//! book path: the final path component, trailing separators ignored, cut
//! before its last `.` (a leading `.` does not count as an extension). A path
//! with no usable final component (empty, `.` or `..`) falls back to the
//! literal `unknown_cover`.

use vstd::prelude::*;
use vstd::string::StrSliceExecFns;
use vstd::string::StringExecFns;

verus! {

/// Index of the last occurrence of `c` in `s`, or -1 when `c` is absent.
pub open spec fn last_pos(s: Seq<char>, c: char) -> int
    decreases s.len(),
{
    if s.len() == 0 {
        -1
    } else if s[s.len() - 1] == c {
        s.len() - 1
    } else {
        last_pos(s.drop_last(), c)
    }
}

/// `last_pos` finds `c`, and nothing after it is `c`.
proof fn lemma_last_pos(s: Seq<char>, c: char)
    ensures
        -1 <= last_pos(s, c) < s.len(),
        last_pos(s, c) >= 0 ==> s[last_pos(s, c)] == c,
        forall|k: int| last_pos(s, c) < k < s.len() ==> s[k] != c,
    decreases s.len(),
{
    if s.len() > 0 && s[s.len() - 1] != c {
        lemma_last_pos(s.drop_last(), c);
        assert forall|k: int| last_pos(s, c) < k < s.len() implies s[k] != c by {
            if k < s.len() - 1 {
                assert(s[k] == s.drop_last()[k]);
            }
        }
    }
}

/// The path with all trailing separators removed.
pub open spec fn strip_trailing_slashes(p: Seq<char>) -> Seq<char>
    decreases p.len(),
{
    if p.len() > 0 && p[p.len() - 1] == '/' {
        strip_trailing_slashes(p.drop_last())
    } else {
        p
    }
}

/// The final component of a path: what follows the last separator, trailing
/// separators ignored.
pub open spec fn file_name_spec(p: Seq<char>) -> Seq<char> {
    let q = strip_trailing_slashes(p);
    q.skip(last_pos(q, '/') + 1)
}

/// Whether a final component cannot serve as a book id.
pub open spec fn unusable_name(name: Seq<char>) -> bool {
    ||| name.len() == 0
    ||| (name.len() == 1 && name[0] == '.')
    ||| (name.len() == 2 && name[0] == '.' && name[1] == '.')
}

/// A file name cut before its last `.`; a `.` in front does not count as
/// separating an extension, nor does the absence of any `.`.
pub open spec fn stem_of_name(name: Seq<char>) -> Seq<char> {
    let i = last_pos(name, '.');
    if i <= 0 {
        name
    } else {
        name.take(i)
    }
}

/// The book id a path yields: the stem of its file name, or the documented
/// fallback where the path has no usable file name.
pub open spec fn book_id_spec(p: Seq<char>) -> Seq<char> {
    let name = file_name_spec(p);
    if unusable_name(name) {
        "unknown_cover"@
    } else {
        stem_of_name(name)
    }
}

/// Derives the book id of a source book path.
pub fn book_id_from_path(file_path: &str) -> (r: String)
    ensures
        r@ == book_id_spec(file_path@),
{
    let ghost p = file_path@;
    let n = file_path.unicode_len();
    proof {
        assert(p.take(n as int) =~= p);
    }

    let mut end = n;
    while end > 0 && file_path.get_char(end - 1) == '/'
        invariant
            p == file_path@,
            end <= n,
            n == p.len(),
            strip_trailing_slashes(p) == strip_trailing_slashes(p.take(end as int)),
        decreases end,
    {
        proof {
            assert(p.take(end as int)[end as int - 1] == '/');
            assert(p.take(end as int).drop_last() =~= p.take(end as int - 1));
        }
        end = end - 1;
    }
    let ghost q = strip_trailing_slashes(p);
    proof {
        if end > 0 {
            assert(p.take(end as int)[end as int - 1] != '/');
        }
        assert(q =~= p.take(end as int));
    }

    let mut start = end;
    while start > 0 && file_path.get_char(start - 1) != '/'
        invariant
            p == file_path@,
            start <= end <= n,
            n == p.len(),
            q == p.take(end as int),
            forall|k: int| start <= k < end ==> q[k] != '/',
        decreases start,
    {
        proof {
            assert(q[start as int - 1] == p[start as int - 1]);
        }
        start = start - 1;
    }
    proof {
        lemma_last_pos(q, '/');
        if start > 0 {
            assert(q[start as int - 1] == '/');
        }
        assert(last_pos(q, '/') == start as int - 1);
    }

    let name = file_path.substring_char(start, end);
    proof {
        assert(name@ =~= file_name_spec(p));
    }
    let name_len = end - start;

    if name_len == 0 {
        return String::from_str("unknown_cover");
    }
    if name_len == 1 && name.get_char(0) == '.' {
        return String::from_str("unknown_cover");
    }
    if name_len == 2 && name.get_char(0) == '.' && name.get_char(1) == '.' {
        return String::from_str("unknown_cover");
    }

    let mut dot = name_len;
    while dot > 0 && name.get_char(dot - 1) != '.'
        invariant
            dot <= name_len,
            name_len == name@.len(),
            forall|k: int| dot <= k < name_len ==> name@[k] != '.',
        decreases dot,
    {
        dot = dot - 1;
    }
    proof {
        lemma_last_pos(name@, '.');
        if dot > 0 {
            assert(name@[dot as int - 1] == '.');
        }
        assert(last_pos(name@, '.') == dot as int - 1);
    }

    if dot <= 1 {
        return name.to_owned();
    }
    let stem = name.substring_char(0, dot - 1);
    proof {
        assert(stem@ =~= stem_of_name(name@));
    }
    stem.to_owned()
}

/// The fixed directory that holds persisted covers: the `books` segment
/// joined onto the application data root.
pub open spec fn books_dir_spec(storage_root: Seq<char>) -> Seq<char> {
    storage_root + "/books"@
}

/// Joins the `books` segment onto the application data root.
pub fn books_dir(storage_root: &str) -> (r: String)
    ensures
        r@ == books_dir_spec(storage_root@),
{
    let mut r = storage_root.to_owned();
    r.append("/books");
    r
}

/// Where the cover of the book at `file_path` is persisted, inside the
/// `books` directory.
pub open spec fn cover_path_spec(books_dir: Seq<char>, file_path: Seq<char>) -> Seq<char> {
    books_dir + "/"@ + book_id_spec(file_path) + ".cover.jpg"@
}

/// Law: within one books directory the cover path determines the book id;
/// two books are persisted at the same cover file exactly when they share a
/// book id. The deterministic filename convention is thus the sole join key:
/// at most one cover file can exist per distinct book id.
pub proof fn lemma_cover_path_injective(dir: Seq<char>, p1: Seq<char>, p2: Seq<char>)
    ensures
        cover_path_spec(dir, p1) == cover_path_spec(dir, p2) <==> book_id_spec(p1) == book_id_spec(
            p2,
        ),
{
    let id1 = book_id_spec(p1);
    let id2 = book_id_spec(p2);
    let s1 = cover_path_spec(dir, p1);
    let s2 = cover_path_spec(dir, p2);
    if s1 == s2 {
        let a = (dir + "/"@).len() as int;
        assert(s1.len() == dir.len() + "/"@.len() + id1.len() + ".cover.jpg"@.len());
        assert(s2.len() == dir.len() + "/"@.len() + id2.len() + ".cover.jpg"@.len());
        assert(id1.len() == id2.len());
        assert(s1.subrange(a, a + id1.len()) =~= id1);
        assert(s2.subrange(a, a + id2.len()) =~= id2);
        assert(id1 == id2);
    }
    if id1 == id2 {
        assert(s1 == s2);
    }
}

/// Builds the full path of the persisted cover for the book at `file_path`.
pub fn cover_path_in(books_dir: &str, file_path: &str) -> (r: String)
    ensures
        r@ == cover_path_spec(books_dir@, file_path@),
{
    let mut r = books_dir.to_owned();
    r.append("/");
    let id = book_id_from_path(file_path);
    r.append(id.as_str());
    r.append(".cover.jpg");
    r
}

} // verus!
