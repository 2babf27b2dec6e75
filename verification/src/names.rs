//! File names: what counts as a plain name, and the last component of a path.

use crate::text::{chars_of, join, occurs_in};
use vstd::prelude::*;

verus! {

/// A plain file name: not empty, without a separator, and neither `.` nor `..`.
pub open spec fn is_plain_name(s: Seq<char>) -> bool {
    &&& s.len() > 0
    &&& !s.contains('/')
    &&& s != seq!['.']
    &&& s != seq!['.', '.']
}

/// Where the last component of `p` begins: just behind its last separator,
/// or at 0 where it has none.
pub open spec fn last_component_start(p: Seq<char>) -> int
    decreases p.len(),
{
    if p.len() == 0 || p.last() == '/' {
        p.len() as int
    } else {
        last_component_start(p.drop_last())
    }
}

/// The final component of the path `p`, if it names a file or directory.
///
/// Separators at the end are passed over, and so is a final `.` behind a
/// separator. There is no such component where nothing is left, or where
/// what is left is `.` or ends in `..`.
pub open spec fn base_name_of(p: Seq<char>) -> Option<Seq<char>>
    decreases p.len(),
{
    if p.len() == 0 {
        None
    } else if p.last() == '/' {
        base_name_of(p.drop_last())
    } else {
        let last = p.subrange(last_component_start(p), p.len() as int);
        if last == seq!['.'] {
            if p.len() == 1 {
                None
            } else {
                base_name_of(p.drop_last())
            }
        } else if last == seq!['.', '.'] {
            None
        } else {
            Some(last)
        }
    }
}

/// The last component of a path begins inside it and holds no separator.
pub proof fn last_component_bounds(p: Seq<char>)
    ensures
        0 <= last_component_start(p) <= p.len(),
        forall|i: int| last_component_start(p) <= i < p.len() ==> p[i] != '/',
        last_component_start(p) > 0 ==> p[last_component_start(p) - 1] == '/',
    decreases p.len(),
{
    if p.len() == 0 || p.last() == '/' {
    } else {
        let q = p.drop_last();
        last_component_bounds(q);
        assert forall|i: int| last_component_start(p) <= i < p.len() implies p[i] != '/' by {
            if i < q.len() {
                assert(q[i] == p[i]);
            }
        }
        if last_component_start(p) > 0 {
            assert(q[last_component_start(p) - 1] == p[last_component_start(p) - 1]);
        }
    }
}

/// What lies in the front of a sequence lies in the sequence.
proof fn occurs_in_front(p: Seq<char>, b: Seq<char>)
    requires
        p.len() > 0,
        occurs_in(p.drop_last(), b),
    ensures
        occurs_in(p, b),
{
    let q = p.drop_last();
    let i = choose|i: int| 0 <= i && i + b.len() <= q.len() && #[trigger] q.subrange(i, i + b.len())
        == b;
    assert(p.subrange(i, i + b.len()) == q.subrange(i, i + b.len()));
}

/// A base name is a plain name, and the path holds it in one piece:
/// whatever directories the path names, none of them is part of it.
pub proof fn base_name_is_plain(p: Seq<char>)
    ensures
        base_name_of(p) matches Some(b) ==> is_plain_name(b) && occurs_in(p, b),
    decreases p.len(),
{
    if p.len() == 0 {
    } else if p.last() == '/' {
        base_name_is_plain(p.drop_last());
        if let Some(b) = base_name_of(p) {
            assert(base_name_of(p.drop_last()) == Some(b));
            occurs_in_front(p, b);
        }
    } else {
        last_component_bounds(p);
        let start = last_component_start(p);
        let last = p.subrange(start, p.len() as int);
        if last == seq!['.'] {
            if p.len() > 1 {
                base_name_is_plain(p.drop_last());
                if let Some(b) = base_name_of(p) {
                    assert(base_name_of(p.drop_last()) == Some(b));
                    occurs_in_front(p, b);
                }
            }
        } else if last == seq!['.', '.'] {
        } else {
            assert(base_name_of(p) == Some(last));
            assert(start < p.len()) by {
                if start == p.len() {
                    assert(p[start - 1] == '/');
                    assert(p.last() == p[p.len() - 1]);
                }
            }
            assert(last.len() > 0);
            assert(!last.contains('/')) by {
                if last.contains('/') {
                    let j = choose|j: int| 0 <= j < last.len() && last[j] == '/';
                    assert(p[start + j] == '/');
                }
            }
            assert(p.subrange(start, start + last.len()) == last);
            assert(occurs_in(p, last));
            assert(is_plain_name(last));
        }
    }
}

/// A plain name is its own base name.
pub proof fn plain_name_is_its_base_name(s: Seq<char>)
    requires
        is_plain_name(s),
    ensures
        base_name_of(s) == Some(s),
{
    no_separator_starts_at_zero(s);
    assert(s.subrange(0, s.len() as int) == s);
    assert(s.last() != '/') by {
        assert(s[s.len() - 1] == s.last());
    }
}

/// Without a separator the last component is the whole sequence.
pub proof fn no_separator_starts_at_zero(s: Seq<char>)
    requires
        !s.contains('/'),
    ensures
        last_component_start(s) == 0,
    decreases s.len(),
{
    if s.len() > 0 {
        assert(s[s.len() - 1] == s.last());
        let q = s.drop_last();
        assert(!q.contains('/')) by {
            if q.contains('/') {
                let j = choose|j: int| 0 <= j < q.len() && q[j] == '/';
                assert(s[j] == '/');
            }
        }
        no_separator_starts_at_zero(q);
    }
}

/// Whether `name` is a plain file name.
pub fn is_plain(name: &str) -> (r: bool)
    ensures
        r == is_plain_name(name@),
{
    let chars = chars_of(name);
    let n: usize = chars.len();
    if n == 0 {
        return false;
    }
    if n == 1 && chars[0] == '.' {
        assert(name@ == seq!['.']);
        return false;
    }
    if n == 2 && chars[0] == '.' && chars[1] == '.' {
        assert(name@ == seq!['.', '.']);
        return false;
    }
    let mut i: usize = 0;
    while i < n
        invariant
            chars@ == name@,
            n == chars@.len(),
            i <= n,
            forall|j: int| 0 <= j < i ==> chars@[j] != '/',
        decreases n - i,
    {
        if chars[i] == '/' {
            assert(name@[i as int] == '/');
            return false;
        }
        i += 1;
    }
    assert(name@ != seq!['.']) by {
        if name@ == seq!['.'] {
            assert(seq!['.'].len() == 1);
            assert(seq!['.'][0] == '.');
        }
    }
    assert(name@ != seq!['.', '.']) by {
        if name@ == seq!['.', '.'] {
            assert(seq!['.', '.'].len() == 2);
            assert(seq!['.', '.'][0] == '.');
            assert(seq!['.', '.'][1] == '.');
        }
    }
    true
}

/// Where the last component of the first `end` characters begins.
fn component_start(chars: &Vec<char>, end: usize) -> (r: usize)
    requires
        end <= chars@.len(),
    ensures
        r == last_component_start(chars@.take(end as int)),
{
    let mut k: usize = end;
    while k > 0 && chars[k - 1] != '/'
        invariant
            k <= end <= chars@.len(),
            last_component_start(chars@.take(end as int)) == last_component_start(
                chars@.take(k as int),
            ),
        decreases k,
    {
        assert(chars@.take(k as int).last() == chars@[k - 1]);
        assert(chars@.take(k as int).drop_last() == chars@.take(k - 1));
        k -= 1;
    }
    if k > 0 {
        assert(chars@.take(k as int).last() == chars@[k - 1]);
    }
    k
}

/// The final component of `path`, as [`base_name_of`] defines it.
pub fn base_name(path: &str) -> (r: Option<String>)
    ensures
        match base_name_of(path@) {
            Some(b) => r matches Some(s) && s@ == b,
            None => r is None,
        },
{
    let chars = chars_of(path);
    let mut end: usize = chars.len();
    assert(chars@.take(end as int) == path@);
    while end > 0
        invariant
            chars@ == path@,
            end <= chars@.len(),
            base_name_of(path@) == base_name_of(chars@.take(end as int)),
        decreases end,
    {
        let ghost p = chars@.take(end as int);
        assert(p.last() == chars@[end - 1]);
        assert(p.drop_last() == chars@.take(end - 1));
        if chars[end - 1] == '/' {
            end -= 1;
        } else {
            let start = component_start(&chars, end);
            proof {
                last_component_bounds(p);
            }
            let ghost last = p.subrange(start as int, end as int);
            assert(last.len() == end - start);
            assert(forall|j: int| 0 <= j < last.len() ==> last[j] == chars@[start + j]);
            if end - start == 1 && chars[start] == '.' {
                assert(last == seq!['.']);
                if end == 1 {
                    return None;
                }
                end -= 1;
            } else if end - start == 2 && chars[start] == '.' && chars[start + 1] == '.' {
                assert(last == seq!['.', '.']);
                return None;
            } else {
                assert(last != seq!['.']) by {
                    if last == seq!['.'] {
                        assert(seq!['.'].len() == 1);
                        assert(seq!['.'][0] == '.');
                        assert(last[0] == '.');
                    }
                }
                assert(last != seq!['.', '.']) by {
                    if last == seq!['.', '.'] {
                        assert(seq!['.', '.'].len() == 2);
                        assert(seq!['.', '.'][0] == '.');
                        assert(seq!['.', '.'][1] == '.');
                        assert(last[0] == '.');
                        assert(last[1] == '.');
                    }
                }
                assert(last == path@.subrange(start as int, end as int));
                let piece = path.substring_char(start, end);
                return Some(String::from_str(piece));
            }
        }
    }
    assert(chars@.take(0).len() == 0);
    None
}

/// The path of the file `name` in the directory `dir`: one separator stands
/// between them unless `dir` is empty or ends in one.
pub open spec fn path_in(dir: Seq<char>, name: Seq<char>) -> Seq<char> {
    if dir.len() == 0 || dir.last() == '/' {
        dir + name
    } else {
        dir + "/"@ + name
    }
}

/// The path of the file `name` in the directory `dir`.
pub fn child_path(dir: &str, name: &str) -> (r: String)
    ensures
        r@ == path_in(dir@, name@),
{
    let n: usize = dir.unicode_len();
    if n == 0 || dir.get_char(n - 1) == '/' {
        join(dir, name)
    } else {
        join(dir, "/").concat(name)
    }
}

} // verus!
