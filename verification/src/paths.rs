use vstd::prelude::*;

verus! {

/// Length of the directory part of a path: everything up to and including
/// the last `'/'`, or `0` when the path holds no `'/'`.
pub open spec fn spec_dir_len(p: Seq<char>) -> int
    decreases p.len(),
{
    if p.len() == 0 {
        0
    } else if p.last() == '/' {
        p.len() as int
    } else {
        spec_dir_len(p.drop_last())
    }
}

pub proof fn lemma_dir_len_bounds(p: Seq<char>)
    ensures
        0 <= spec_dir_len(p) <= p.len(),
    decreases p.len(),
{
    if p.len() > 0 && p.last() != '/' {
        lemma_dir_len_bounds(p.drop_last());
    }
}

/// The base name of a path: the characters after the last `'/'`.
pub open spec fn spec_file_name(p: Seq<char>) -> Seq<char> {
    p.subrange(spec_dir_len(p), p.len() as int)
}

/// The directory part of a path, trailing `'/'` included.
pub open spec fn spec_dir_part(p: Seq<char>) -> Seq<char> {
    p.subrange(0, spec_dir_len(p))
}

/// The parent directory of a path: the directory part without its trailing
/// `'/'`, except that the root `"/"` stays itself; `None` when the path has
/// no `'/'` at all.
pub open spec fn spec_parent(p: Seq<char>) -> Option<Seq<char>> {
    if spec_dir_len(p) == 0 {
        None
    } else if spec_dir_len(p) == 1 {
        Some(seq!['/'])
    } else {
        Some(p.subrange(0, spec_dir_len(p) - 1))
    }
}

/// A path with its base name replaced: directory part plus the new name.
pub open spec fn spec_with_file_name(p: Seq<char>, name: Seq<char>) -> Seq<char> {
    spec_dir_part(p) + name
}

/// A directory path joined with a child name, avoiding a doubled `'/'`.
pub open spec fn spec_join(dir: Seq<char>, name: Seq<char>) -> Seq<char> {
    if dir.len() > 0 && dir.last() == '/' {
        dir + name
    } else {
        dir + seq!['/'] + name
    }
}

/// The index of the last `'.'` inside a base name, or `-1` when there is
/// no `'.'`; used to carve out the extension.
pub open spec fn spec_last_dot(f: Seq<char>) -> int
    decreases f.len(),
{
    if f.len() == 0 {
        -1
    } else if f.last() == '.' {
        f.len() - 1
    } else {
        spec_last_dot(f.drop_last())
    }
}

/// The extension of a path, dot included: the suffix of the base name from
/// its last `'.'`, provided that dot is not the base name's first
/// character; `None` otherwise (no dot, or a hidden-file leading dot).
pub open spec fn spec_extension(p: Seq<char>) -> Option<Seq<char>> {
    let f = spec_file_name(p);
    let d = spec_last_dot(f);
    if d >= 1 {
        Some(f.subrange(d, f.len() as int))
    } else {
        None
    }
}

/// Extending a path by one character moves the directory split only when
/// that character is a `'/'`.
pub proof fn lemma_dir_len_push(p: Seq<char>, c: char)
    ensures
        spec_dir_len(p.push(c)) == if c == '/' {
            p.len() + 1
        } else {
            spec_dir_len(p) as nat
        },
{
    lemma_dir_len_bounds(p);
    assert(p.push(c).last() == c);
    assert(p.push(c).drop_last() =~= p);
}

/// Extending a base name by one character moves the last dot only when
/// that character is a `'.'`.
pub proof fn lemma_last_dot_push(f: Seq<char>, c: char)
    ensures
        spec_last_dot(f.push(c)) == if c == '.' {
            f.len() as int
        } else {
            spec_last_dot(f)
        },
{
    assert(f.push(c).last() == c);
    assert(f.push(c).drop_last() =~= f);
}

/// Where the base name of `v` starts: one past the last `'/'`.
pub fn dir_split(v: &Vec<char>) -> (r: usize)
    ensures
        r == spec_dir_len(v@),
{
    let n = v.len();
    let mut r: usize = 0;
    let mut i: usize = 0;
    proof {
        assert(v@.subrange(0, 0) =~= Seq::<char>::empty());
    }
    while i < n
        invariant
            n == v@.len(),
            i <= n,
            0 <= r <= i,
            r == spec_dir_len(v@.subrange(0, i as int)),
        decreases n - i,
    {
        proof {
            lemma_dir_len_push(v@.subrange(0, i as int), v@[i as int]);
            assert(v@.subrange(0, i as int).push(v@[i as int]) =~= v@.subrange(0, i + 1));
        }
        if v[i] == '/' {
            r = i + 1;
        }
        i = i + 1;
    }
    proof {
        assert(v@.subrange(0, n as int) =~= v@);
    }
    r
}

/// The base name of a path.
pub fn file_name_chars(v: &Vec<char>) -> (r: Vec<char>)
    ensures
        r@ == spec_file_name(v@),
{
    let s = dir_split(v);
    proof {
        lemma_dir_len_bounds(v@);
    }
    let mut r: Vec<char> = Vec::new();
    let mut i: usize = s;
    while i < v.len()
        invariant
            s <= i <= v@.len(),
            s == spec_dir_len(v@),
            r@ == v@.subrange(s as int, i as int),
        decreases v@.len() - i,
    {
        r.push(v[i]);
        i = i + 1;
        proof {
            assert(r@ =~= v@.subrange(s as int, i as int));
        }
    }
    r
}

/// The parent directory of a path, or `None` when it has no `'/'`.
pub fn parent_chars(v: &Vec<char>) -> (r: Option<Vec<char>>)
    ensures
        match r {
            Some(d) => spec_parent(v@) == Some(d@),
            None => spec_parent(v@) is None,
        },
{
    let s = dir_split(v);
    proof {
        lemma_dir_len_bounds(v@);
    }
    if s == 0 {
        None
    } else if s == 1 {
        let mut d: Vec<char> = Vec::new();
        d.push('/');
        proof {
            assert(d@ =~= seq!['/']);
        }
        Some(d)
    } else {
        let mut d: Vec<char> = Vec::new();
        let mut i: usize = 0;
        while i < s - 1
            invariant
                1 < s <= v@.len(),
                i <= s - 1,
                d@ == v@.subrange(0, i as int),
            decreases s - i,
        {
            d.push(v[i]);
            i = i + 1;
            proof {
                assert(d@ =~= v@.subrange(0, i as int));
            }
        }
        Some(d)
    }
}

/// A path with its base name replaced by `name`.
pub fn with_file_name_chars(v: &Vec<char>, name: &Vec<char>) -> (r: Vec<char>)
    ensures
        r@ == spec_with_file_name(v@, name@),
{
    let s = dir_split(v);
    proof {
        lemma_dir_len_bounds(v@);
    }
    let mut r: Vec<char> = Vec::new();
    let mut i: usize = 0;
    while i < s
        invariant
            s <= v@.len(),
            i <= s,
            r@ == v@.subrange(0, i as int),
        decreases s - i,
    {
        r.push(v[i]);
        i = i + 1;
        proof {
            assert(r@ =~= v@.subrange(0, i as int));
        }
    }
    crate::text::push_all(&mut r, name);
    r
}

/// A directory path joined with a child name.
pub fn join_chars(dir: &Vec<char>, name: &Vec<char>) -> (r: Vec<char>)
    ensures
        r@ == spec_join(dir@, name@),
{
    let mut r: Vec<char> = Vec::new();
    crate::text::push_all(&mut r, dir);
    proof {
        assert(r@ =~= dir@);
    }
    if dir.len() == 0 || dir[dir.len() - 1] != '/' {
        r.push('/');
        proof {
            assert(r@ =~= dir@ + seq!['/']);
        }
    }
    crate::text::push_all(&mut r, name);
    proof {
        if dir@.len() > 0 && dir@.last() == '/' {
            assert(r@ =~= dir@ + name@);
        } else {
            assert(r@ =~= dir@ + seq!['/'] + name@);
        }
    }
    r
}

/// The extension of a path, dot included, or `None`.
pub fn extension_chars(v: &Vec<char>) -> (r: Option<Vec<char>>)
    ensures
        match r {
            Some(e) => spec_extension(v@) == Some(e@),
            None => spec_extension(v@) is None,
        },
{
    let f = file_name_chars(v);
    let n = f.len();
    // `d == 0` stands for "no dot past the first character so far".
    let mut d: usize = 0;
    let mut i: usize = 0;
    proof {
        assert(f@.subrange(0, 0) =~= Seq::<char>::empty());
    }
    while i < n
        invariant
            n == f@.len(),
            i <= n,
            d < i || d == 0,
            if spec_last_dot(f@.subrange(0, i as int)) >= 1 {
                d == spec_last_dot(f@.subrange(0, i as int))
            } else {
                d == 0
            },
        decreases n - i,
    {
        proof {
            lemma_last_dot_push(f@.subrange(0, i as int), f@[i as int]);
            assert(f@.subrange(0, i as int).push(f@[i as int]) =~= f@.subrange(0, i + 1));
        }
        if f[i] == '.' && i >= 1 {
            d = i;
        }
        i = i + 1;
    }
    proof {
        assert(f@.subrange(0, n as int) =~= f@);
    }
    if d >= 1 {
        let start: usize = d;
        let mut e: Vec<char> = Vec::new();
        let mut j: usize = start;
        while j < n
            invariant
                n == f@.len(),
                start <= j <= n,
                e@ == f@.subrange(start as int, j as int),
            decreases n - j,
        {
            e.push(f[j]);
            j = j + 1;
            proof {
                assert(e@ =~= f@.subrange(start as int, j as int));
            }
        }
        Some(e)
    } else {
        None
    }
}

} // verus!
