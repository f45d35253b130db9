//! Paths as sequences of components, and the mirroring of a source tree
//! under a destination root.

use vstd::prelude::*;
use vstd::string::*;

verus! {

/// Index of the last `'.'` in `name`, or `-1` where it holds none.
pub open spec fn last_dot(name: Seq<char>) -> int
    decreases name.len(),
{
    if name.len() == 0 {
        -1
    } else if name.last() == '.' {
        name.len() - 1
    } else {
        last_dot(name.drop_last())
    }
}

/// Length of the stem of a file name: everything before the last dot. A dot
/// that opens the name belongs to the stem, so a name such as `.profile` is
/// all stem.
pub open spec fn stem_len(name: Seq<char>) -> int {
    if last_dot(name) <= 0 {
        name.len() as int
    } else {
        last_dot(name)
    }
}

/// The stem of a file name.
pub open spec fn file_stem(name: Seq<char>) -> Seq<char> {
    name.subrange(0, stem_len(name))
}

/// The extension of a file name: what follows the last dot, if that dot does
/// not open the name.
pub open spec fn extension(name: Seq<char>) -> Option<Seq<char>> {
    if last_dot(name) <= 0 {
        None
    } else {
        Some(name.subrange(last_dot(name) + 1, name.len() as int))
    }
}

/// A file name with its extension replaced by `ext`; an empty `ext` leaves
/// the bare stem.
pub open spec fn with_extension(name: Seq<char>, ext: Seq<char>) -> Seq<char> {
    if ext.len() == 0 {
        file_stem(name)
    } else {
        file_stem(name) + seq!['.'] + ext
    }
}

/// The last dot lies inside the name, and a dot stands there.
pub proof fn lemma_last_dot_bounds(name: Seq<char>)
    ensures
        -1 <= last_dot(name) < name.len(),
        last_dot(name) >= 0 ==> name[last_dot(name)] == '.',
        forall|i: int| last_dot(name) < i < name.len() ==> name[i] != '.',
    decreases name.len(),
{
    if name.len() > 0 && name.last() != '.' {
        lemma_last_dot_bounds(name.drop_last());
        assert forall|i: int| last_dot(name) < i < name.len() implies name[i] != '.' by {
            if i < name.len() - 1 {
                assert(name[i] == name.drop_last()[i]);
            }
        }
    }
}

/// A dot at `d` with none behind it is the last dot.
pub proof fn lemma_last_dot_is(name: Seq<char>, d: int)
    requires
        -1 <= d < name.len(),
        d >= 0 ==> name[d] == '.',
        forall|i: int| d < i < name.len() ==> name[i] != '.',
    ensures
        last_dot(name) == d,
{
    lemma_last_dot_bounds(name);
    let l = last_dot(name);
    if l > d {
        assert(name[l] == '.');
    }
}

/// A name with an extension is its stem, a dot and that extension.
pub proof fn lemma_name_splits(name: Seq<char>)
    requires
        extension(name) is Some,
    ensures
        name == file_stem(name) + seq!['.'] + extension(name).unwrap(),
{
    lemma_last_dot_bounds(name);
    assert(name =~= file_stem(name) + seq!['.'] + extension(name).unwrap());
}

/// Replacing the extension of a non-empty name by a non-empty text without
/// a dot gives a name that has exactly that extension, and keeps the stem.
pub proof fn lemma_replaced_extension(name: Seq<char>, ext: Seq<char>)
    requires
        name.len() > 0,
        ext.len() > 0,
        !ext.contains('.'),
    ensures
        extension(with_extension(name, ext)) == Some(ext),
        file_stem(with_extension(name, ext)) == file_stem(name),
{
    lemma_last_dot_bounds(name);
    let stem = file_stem(name);
    let w = with_extension(name, ext);
    assert(stem.len() > 0);
    assert(w[stem.len() as int] == '.');
    assert forall|i: int| stem.len() < i < w.len() implies w[i] != '.' by {
        assert(w[i] == ext[i - stem.len() - 1]);
        assert(ext.contains(ext[i - stem.len() - 1]));
    }
    lemma_last_dot_is(w, stem.len() as int);
    assert(w.subrange(stem.len() as int + 1, w.len() as int) =~= ext);
    assert(w.subrange(0, stem.len() as int) =~= stem);
}

/// Two names with the same extension that are sent to the same name by a
/// replacement of the extension are the same name.
pub proof fn lemma_replacement_injective(a: Seq<char>, b: Seq<char>, ext: Seq<char>)
    requires
        extension(a) is Some,
        extension(a) == extension(b),
        with_extension(a, ext) == with_extension(b, ext),
    ensures
        a == b,
{
    let sa = file_stem(a);
    let sb = file_stem(b);
    let w = with_extension(a, ext);
    lemma_last_dot_bounds(a);
    lemma_last_dot_bounds(b);
    let tail = if ext.len() == 0 { 0 } else { ext.len() as int + 1 };
    assert(w.len() == sa.len() + tail);
    assert(with_extension(b, ext).len() == sb.len() + tail);
    assert(sa.len() == sb.len());
    assert(sa =~= w.subrange(0, sa.len() as int));
    assert(sb =~= w.subrange(0, sb.len() as int));
    lemma_name_splits(a);
    lemma_name_splits(b);
}

/// Position of the last dot of `name`, if it holds one.
pub fn find_last_dot(name: &str) -> (r: Option<usize>)
    ensures
        match r {
            Some(d) => last_dot(name@) == d,
            None => last_dot(name@) == -1,
        },
{
    let n: usize = name.unicode_len();
    let mut found: Option<usize> = None;
    let mut i: usize = 0;
    while i < n
        invariant
            n == name@.len(),
            i <= n,
            match found {
                Some(d) => last_dot(name@.subrange(0, i as int)) == d,
                None => last_dot(name@.subrange(0, i as int)) == -1,
            },
        decreases n - i,
    {
        let c = name.get_char(i);
        proof {
            assert(name@.subrange(0, i + 1).drop_last() =~= name@.subrange(0, i as int));
        }
        if c == '.' {
            found = Some(i);
        }
        i += 1;
    }
    proof {
        assert(name@.subrange(0, n as int) =~= name@);
    }
    found
}

/// Whether the extension of `name` is exactly `ext`, case and all.
pub fn has_extension(name: &str, ext: &str) -> (r: bool)
    ensures
        r == (extension(name@) == Some(ext@)),
{
    let n: usize = name.unicode_len();
    proof {
        lemma_last_dot_bounds(name@);
    }
    match find_last_dot(name) {
        None => false,
        Some(d) => {
            if d == 0 {
                false
            } else {
                let tail = String::from_str(name.substring_char(d + 1, n));
                let wanted = String::from_str(ext);
                tail == wanted
            }
        },
    }
}

/// `name` with its extension replaced by `ext`.
pub fn replace_extension(name: &str, ext: &str) -> (r: String)
    ensures
        r@ == with_extension(name@, ext@),
{
    let n: usize = name.unicode_len();
    proof {
        lemma_last_dot_bounds(name@);
    }
    let keep: usize = match find_last_dot(name) {
        None => n,
        Some(d) => if d == 0 { n } else { d },
    };
    let mut out = String::from_str(name.substring_char(0, keep));
    if ext.unicode_len() > 0 {
        proof {
            reveal_strlit(".");
            assert("."@ =~= seq!['.']);
        }
        out.append(".");
        out.append(ext);
    }
    out
}

} // verus!
