//! Characters, strings and the parts of a `/`-separated path.
use vstd::prelude::*;
use vstd::string::*;

verus! {

/// Index of the last occurrence of `c` in `s`, or -1 where there is none.
pub open spec fn last_index_of(s: Seq<char>, c: char) -> int
    decreases s.len(),
{
    if s.len() == 0 {
        -1
    } else if s.last() == c {
        s.len() - 1
    } else {
        last_index_of(s.drop_last(), c)
    }
}

pub proof fn lemma_last_index_of_bounds(s: Seq<char>, c: char)
    ensures
        -1 <= last_index_of(s, c) < s.len(),
        last_index_of(s, c) >= 0 ==> s[last_index_of(s, c)] == c,
        forall|j: int| last_index_of(s, c) < j < s.len() ==> s[j] != c,
    decreases s.len(),
{
    if s.len() > 0 && s.last() != c {
        lemma_last_index_of_bounds(s.drop_last(), c);
        assert forall|j: int| last_index_of(s, c) < j < s.len() implies s[j] != c by {
            if j < s.len() - 1 {
                assert(s.drop_last()[j] == s[j]);
            }
        }
    }
}

/// What follows the last `/` of a path.
pub open spec fn last_segment_of(p: Seq<char>) -> Seq<char> {
    p.subrange(last_index_of(p, '/') + 1, p.len() as int)
}

/// A path without its trailing separators and trailing `.` components, which
/// name no file of their own.
pub open spec fn trimmed_path(p: Seq<char>) -> Seq<char>
    decreases p.len(),
{
    if p.len() > 0 && p.last() == '/' {
        trimmed_path(p.drop_last())
    } else if p.len() == 1 && p[0] == '.' {
        Seq::empty()
    } else if p.len() >= 2 && p.last() == '.' && p[p.len() - 2] == '/' {
        trimmed_path(p.drop_last())
    } else {
        p
    }
}

/// The file name of a path, as `std::path::Path::file_name` gives it: its last
/// component, where that is a plain name; none for the root, for an empty path
/// and for a path ending in `..`.
pub open spec fn file_name_of(p: Seq<char>) -> Option<Seq<char>> {
    let n = last_segment_of(trimmed_path(p));
    if n.len() == 0 || n == seq!['.', '.'] {
        None
    } else {
        Some(n)
    }
}

/// A name that starts with a dot is hidden.
pub open spec fn is_hidden_name(name: Seq<char>) -> bool {
    name.len() > 0 && name[0] == '.'
}

/// A path is hidden where its file name is.
pub open spec fn is_hidden_path(p: Seq<char>) -> bool {
    file_name_of(p) matches Some(n) && is_hidden_name(n)
}

/// The stem of a file name: all before its last dot, unless that dot leads the name.
pub open spec fn stem_of(name: Seq<char>) -> Seq<char> {
    let k = last_index_of(name, '.');
    if k > 0 {
        name.subrange(0, k)
    } else {
        name
    }
}

/// The extension of a file name: all after its last dot, unless that dot leads
/// the name; empty where there is none.
pub open spec fn extension_of(name: Seq<char>) -> Seq<char> {
    let k = last_index_of(name, '.');
    if k > 0 {
        name.subrange(k + 1, name.len() as int)
    } else {
        Seq::empty()
    }
}

/// The extension of a path: that of its file name; empty where it has none.
pub open spec fn path_extension(p: Seq<char>) -> Seq<char> {
    match file_name_of(p) {
        Some(n) => extension_of(n),
        None => Seq::empty(),
    }
}

/// The characters of a string, in order.
pub fn chars_of(s: &str) -> (r: Vec<char>)
    ensures
        r@ == s@,
{
    let n = s.unicode_len();
    let mut r: Vec<char> = Vec::new();
    let mut i: usize = 0;
    while i < n
        invariant
            n == s@.len(),
            i <= n,
            r@ == s@.subrange(0, i as int),
        decreases n - i,
    {
        r.push(s.get_char(i));
        i += 1;
        assert(r@ =~= s@.subrange(0, i as int));
    }
    assert(r@ =~= s@);
    r
}

/// Relies on `String: FromIterator<char>`: the string holds the characters in order.
#[verifier::external_body]
pub(crate) fn string_of(v: &[char]) -> (r: String)
    ensures
        r@ == v@,
{
    v.iter().collect()
}

/// Position of the last `c` in `v`.
pub fn last_index(v: &Vec<char>, c: char) -> (r: Option<usize>)
    ensures
        match r {
            Some(k) => last_index_of(v@, c) == k as int && k < v.len(),
            None => last_index_of(v@, c) == -1,
        },
{
    let mut i: usize = v.len();
    assert(v@.subrange(0, i as int) =~= v@);
    while i > 0
        invariant
            i <= v.len(),
            last_index_of(v@, c) == last_index_of(v@.subrange(0, i as int), c),
        decreases i,
    {
        assert(v@.subrange(0, i as int).drop_last() =~= v@.subrange(0, i - 1));
        if v[i - 1] == c {
            return Some(i - 1);
        }
        i -= 1;
    }
    None
}

/// The elements of `v` from `lo` up to `hi`.
pub fn slice_of(v: &Vec<char>, lo: usize, hi: usize) -> (r: Vec<char>)
    requires
        lo <= hi <= v.len(),
    ensures
        r@ == v@.subrange(lo as int, hi as int),
{
    let mut r: Vec<char> = Vec::new();
    let mut i: usize = lo;
    while i < hi
        invariant
            lo <= i <= hi <= v.len(),
            r@ == v@.subrange(lo as int, i as int),
        decreases hi - i,
    {
        r.push(v[i]);
        i += 1;
        assert(r@ =~= v@.subrange(lo as int, i as int));
    }
    r
}

/// Appends the characters of `s` to `out`.
pub fn push_str(out: &mut Vec<char>, s: &str)
    ensures
        final(out)@ == old(out)@ + s@,
{
    let v = chars_of(s);
    push_all(out, &v);
}

/// Appends `v` to `out`.
pub fn push_all(out: &mut Vec<char>, v: &Vec<char>)
    ensures
        final(out)@ == old(out)@ + v@,
{
    let ghost start = out@;
    let mut i: usize = 0;
    while i < v.len()
        invariant
            i <= v.len(),
            out@ == start + v@.subrange(0, i as int),
        decreases v.len() - i,
    {
        out.push(v[i]);
        i += 1;
        assert(out@ =~= start + v@.subrange(0, i as int));
    }
    assert(v@.subrange(0, v.len() as int) =~= v@);
}

proof fn lemma_last_index_of_concat(a: Seq<char>, b: Seq<char>, c: char)
    ensures
        last_index_of(a + b, c) == if last_index_of(b, c) >= 0 {
            a.len() + last_index_of(b, c)
        } else {
            last_index_of(a, c)
        },
    decreases b.len(),
{
    if b.len() == 0 {
        assert(a + b =~= a);
    } else {
        assert((a + b).last() == b.last());
        if b.last() != c {
            assert((a + b).drop_last() =~= a + b.drop_last());
            lemma_last_index_of_concat(a, b.drop_last(), c);
        }
    }
}

proof fn lemma_trimmed_under_prefix(a: Seq<char>, p: Seq<char>)
    requires
        trimmed_path(p).len() > 0,
    ensures
        trimmed_path(a + seq!['/'] + p) == a + seq!['/'] + trimmed_path(p),
    decreases p.len(),
{
    let q = a + seq!['/'] + p;
    assert(q.len() == a.len() + 1 + p.len());
    assert(q.last() == p.last());
    if p.len() > 0 && p.last() == '/' {
        assert(q.drop_last() =~= a + seq!['/'] + p.drop_last());
        lemma_trimmed_under_prefix(a, p.drop_last());
    } else if p.len() == 1 && p[0] == '.' {
    } else if p.len() >= 2 && p.last() == '.' && p[p.len() - 2] == '/' {
        assert(q[q.len() - 2] == p[p.len() - 2]);
        assert(q.drop_last() =~= a + seq!['/'] + p.drop_last());
        lemma_trimmed_under_prefix(a, p.drop_last());
    } else {
        if p.len() >= 2 {
            assert(q[q.len() - 2] == p[p.len() - 2]);
        }
    }
}

/// A path that has a file name keeps it when a directory is put in front of it.
pub proof fn lemma_file_name_under_prefix(a: Seq<char>, p: Seq<char>)
    requires
        file_name_of(p) is Some,
    ensures
        file_name_of(a + seq!['/'] + p) == file_name_of(p),
{
    let t = trimmed_path(p);
    let pre = a + seq!['/'];
    lemma_trimmed_under_prefix(a, p);
    assert(a + seq!['/'] + p == pre + p) by {
        assert(a + seq!['/'] + p =~= pre + p);
    }
    assert(trimmed_path(pre + p) == pre + t);
    lemma_last_index_of_concat(pre, t, '/');
    lemma_last_index_of_bounds(t, '/');
    lemma_last_index_of_bounds(pre, '/');
    assert(pre.last() == '/');
    assert(last_index_of(pre, '/') == pre.len() - 1);
    assert(last_segment_of(pre + t) =~= last_segment_of(t));
}

/// What follows the last `/` of a path, as characters.
pub fn last_segment(path: &Vec<char>) -> (r: Vec<char>)
    ensures
        r@ == last_segment_of(path@),
{
    proof {
        lemma_last_index_of_bounds(path@, '/');
    }
    let start: usize = match last_index(path, '/') {
        Some(k) => k + 1,
        None => 0,
    };
    slice_of(path, start, path.len())
}

/// The extension of a file name, as characters.
pub fn extension(name: &Vec<char>) -> (r: Vec<char>)
    ensures
        r@ == extension_of(name@),
{
    proof {
        lemma_last_index_of_bounds(name@, '.');
    }
    match last_index(name, '.') {
        Some(k) => {
            if k > 0 {
                slice_of(name, k + 1, name.len())
            } else {
                Vec::new()
            }
        },
        None => Vec::new(),
    }
}

/// The stem of a file name, as characters.
pub fn stem(name: &Vec<char>) -> (r: Vec<char>)
    ensures
        r@ == stem_of(name@),
{
    proof {
        lemma_last_index_of_bounds(name@, '.');
    }
    match last_index(name, '.') {
        Some(k) => {
            if k > 0 {
                slice_of(name, 0, k)
            } else {
                slice_of(name, 0, name.len())
            }
        },
        None => slice_of(name, 0, name.len()),
    }
}

/// The length of a path once its trailing separators and `.` components are gone.
fn trimmed_len(v: &Vec<char>) -> (r: usize)
    ensures
        r <= v.len(),
        v@.subrange(0, r as int) == trimmed_path(v@),
{
    let mut end: usize = v.len();
    assert(v@.subrange(0, end as int) =~= v@);
    while end > 0
        invariant
            end <= v.len(),
            trimmed_path(v@) == trimmed_path(v@.subrange(0, end as int)),
        decreases end,
    {
        let ghost cur = v@.subrange(0, end as int);
        assert(cur.drop_last() =~= v@.subrange(0, end - 1));
        if v[end - 1] == '/' {
            end -= 1;
        } else if end == 1 && v[0] == '.' {
            assert(v@.subrange(0, 0) =~= Seq::<char>::empty());
            assert(trimmed_path(Seq::<char>::empty()) =~= Seq::<char>::empty());
            end = 0;
        } else if end >= 2 && v[end - 1] == '.' && v[end - 2] == '/' {
            end -= 1;
        } else {
            return end;
        }
    }
    assert(v@.subrange(0, 0) =~= Seq::<char>::empty());
    assert(trimmed_path(Seq::<char>::empty()) =~= Seq::<char>::empty());
    0
}

/// The file name of a path, as characters, where it has one.
pub fn file_name(path: &Vec<char>) -> (r: Option<Vec<char>>)
    ensures
        match file_name_of(path@) {
            Some(n) => r matches Some(v) && v@ == n,
            None => r is None,
        },
{
    let end = trimmed_len(path);
    let t = slice_of(path, 0, end);
    let n = last_segment(&t);
    if n.len() == 0 {
        None
    } else if n.len() == 2 && n[0] == '.' && n[1] == '.' {
        assert(n@ =~= seq!['.', '.']);
        None
    } else {
        assert(n@ != seq!['.', '.']) by {
            if n.len() == 2 {
                if n@[0] == '.' {
                    assert(n@[1] != seq!['.', '.'][1]);
                } else {
                    assert(n@[0] != seq!['.', '.'][0]);
                }
            }
        }
        Some(n)
    }
}

/// Whether the file name of a path starts with a dot; a path without a file
/// name is not hidden.
pub fn path_is_hidden(path: &str) -> (r: bool)
    ensures
        r == is_hidden_path(path@),
{
    let p = chars_of(path);
    match file_name(&p) {
        Some(n) => n.len() > 0 && n[0] == '.',
        None => false,
    }
}

/// The extension of a path, as characters.
pub fn path_extension_chars(path: &Vec<char>) -> (r: Vec<char>)
    ensures
        r@ == path_extension(path@),
{
    match file_name(path) {
        Some(n) => extension(&n),
        None => Vec::new(),
    }
}

} // verus!
