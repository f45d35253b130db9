//! The mirrored location of a source entry under the destination root.

use vstd::prelude::*;
use vstd::string::*;
use crate::path::{extension, with_extension, replace_extension, lemma_replaced_extension, lemma_replacement_injective};

verus! {

/// A path held as its components, outermost first.
#[derive(Debug)]
pub struct TreePath {
    pub components: Vec<String>,
}

impl View for TreePath {
    type V = Seq<Seq<char>>;

    open spec fn view(&self) -> Seq<Seq<char>> {
        Seq::new(self.components@.len(), |i: int| self.components@[i]@)
    }
}

/// Why a path could not be mapped.
#[derive(Debug, Clone, Copy, PartialEq, Eq, Structural)]
pub enum PathError {
    /// The path does not lie under the source root, or names no file.
    InvalidPath,
}

/// `path`, which lies under `source_root`, moved under `destination_root`.
pub open spec fn rebase(
    source_root: Seq<Seq<char>>,
    destination_root: Seq<Seq<char>>,
    path: Seq<Seq<char>>,
) -> Seq<Seq<char>> {
    destination_root + path.subrange(source_root.len() as int, path.len() as int)
}

/// Where a directory of the source tree is mirrored; `None` where it is not
/// under the source root. The root itself is mirrored by the destination
/// root.
pub open spec fn mapped_dir(
    source_root: Seq<Seq<char>>,
    destination_root: Seq<Seq<char>>,
    dir: Seq<Seq<char>>,
) -> Option<Seq<Seq<char>>> {
    if source_root.is_prefix_of(dir) {
        Some(rebase(source_root, destination_root, dir))
    } else {
        None
    }
}

/// Where a file of the source tree lands: the mirror of its directory, then
/// its name with the extension replaced. `None` where the file is not
/// strictly below the source root.
pub open spec fn mapped_file(
    source_root: Seq<Seq<char>>,
    destination_root: Seq<Seq<char>>,
    file: Seq<Seq<char>>,
    ext: Seq<char>,
) -> Option<Seq<Seq<char>>> {
    if source_root.is_prefix_of(file) && source_root.len() < file.len() {
        Some(
            rebase(source_root, destination_root, file.drop_last()).push(
                with_extension(file.last(), ext),
            ),
        )
    } else {
        None
    }
}

/// The components of `path` written out with `/` between them.
pub open spec fn joined(path: Seq<Seq<char>>) -> Seq<char>
    decreases path.len(),
{
    if path.len() == 0 {
        Seq::empty()
    } else if path.len() == 1 {
        path[0]
    } else {
        joined(path.drop_last()) + seq!['/'] + path.last()
    }
}

/// Where a lone source file lands: directly under the destination root,
/// under its own name with the extension replaced.
pub open spec fn single_destination(
    destination_root: Seq<Seq<char>>,
    file: Seq<Seq<char>>,
    ext: Seq<char>,
) -> Option<Seq<Seq<char>>> {
    if file.len() > 0 {
        Some(destination_root.push(with_extension(file.last(), ext)))
    } else {
        None
    }
}

/// Every file strictly below the source root has a destination. It lies in
/// the mirror of the file's directory, and, for a named file and an
/// extension without a dot, it carries the output extension.
pub proof fn lemma_mapping_total(
    source_root: Seq<Seq<char>>,
    destination_root: Seq<Seq<char>>,
    file: Seq<Seq<char>>,
    ext: Seq<char>,
)
    requires
        source_root.is_prefix_of(file),
        source_root.len() < file.len(),
    ensures
        mapped_file(source_root, destination_root, file, ext) is Some,
        mapped_dir(source_root, destination_root, file.drop_last()) == Some(
            mapped_file(source_root, destination_root, file, ext).unwrap().drop_last(),
        ),
        file.last().len() > 0 && ext.len() > 0 && !ext.contains('.') ==> extension(
            mapped_file(source_root, destination_root, file, ext).unwrap().last(),
        ) == Some(ext),
{
    let parent = file.drop_last();
    assert(source_root =~= parent.subrange(0, source_root.len() as int)) by {
        assert(source_root =~= file.subrange(0, source_root.len() as int));
    }
    let d = mapped_file(source_root, destination_root, file, ext).unwrap();
    assert(d.drop_last() =~= rebase(source_root, destination_root, parent));
    if file.last().len() > 0 && ext.len() > 0 && !ext.contains('.') {
        lemma_replaced_extension(file.last(), ext);
    }
}

/// A directory under the source root is mirrored at the same relative place
/// under the destination root, and so is each of its ancestors down to the
/// root.
pub proof fn lemma_mirror_keeps_shape(
    source_root: Seq<Seq<char>>,
    destination_root: Seq<Seq<char>>,
    dir: Seq<Seq<char>>,
)
    requires
        source_root.is_prefix_of(dir),
    ensures
        mapped_dir(source_root, destination_root, dir) is Some,
        destination_root.is_prefix_of(mapped_dir(source_root, destination_root, dir).unwrap()),
        mapped_dir(source_root, destination_root, source_root) == Some(destination_root),
        source_root.len() < dir.len() ==> mapped_dir(
            source_root,
            destination_root,
            dir.drop_last(),
        ) == Some(mapped_dir(source_root, destination_root, dir).unwrap().drop_last()),
{
    let d = rebase(source_root, destination_root, dir);
    assert(destination_root =~= d.subrange(0, destination_root.len() as int));
    assert(source_root =~= source_root.subrange(0, source_root.len() as int));
    assert(rebase(source_root, destination_root, source_root) =~= destination_root);
    if source_root.len() < dir.len() {
        let parent = dir.drop_last();
        assert(source_root =~= parent.subrange(0, source_root.len() as int)) by {
            assert(source_root =~= dir.subrange(0, source_root.len() as int));
        }
        assert(d.drop_last() =~= rebase(source_root, destination_root, parent));
    }
}

/// Two source files with the same extension never share a destination.
pub proof fn lemma_destinations_distinct(
    source_root: Seq<Seq<char>>,
    destination_root: Seq<Seq<char>>,
    a: Seq<Seq<char>>,
    b: Seq<Seq<char>>,
    ext: Seq<char>,
)
    requires
        mapped_file(source_root, destination_root, a, ext) is Some,
        mapped_file(source_root, destination_root, a, ext) == mapped_file(
            source_root,
            destination_root,
            b,
            ext,
        ),
        extension(a.last()) is Some,
        extension(a.last()) == extension(b.last()),
    ensures
        a == b,
{
    let da = mapped_file(source_root, destination_root, a, ext).unwrap();
    let db = mapped_file(source_root, destination_root, b, ext).unwrap();
    let n = source_root.len() as int;
    let m = destination_root.len() as int;
    assert(da.len() == m + a.len() - n);
    assert(db.len() == m + b.len() - n);
    assert(da.last() == with_extension(a.last(), ext));
    assert(db.last() == with_extension(b.last(), ext));
    lemma_replacement_injective(a.last(), b.last(), ext);
    assert(a =~= b) by {
        assert forall|i: int| 0 <= i < a.len() implies a[i] == b[i] by {
            if i < n {
                assert(a[i] == a.subrange(0, n)[i]);
                assert(b[i] == b.subrange(0, n)[i]);
            } else if i < a.len() - 1 {
                assert(da[m + i - n] == a.drop_last().subrange(n, a.len() - 1)[i - n]);
                assert(db[m + i - n] == b.drop_last().subrange(n, b.len() - 1)[i - n]);
            }
        }
    }
}

impl TreePath {
    /// The empty path.
    pub fn new() -> (r: TreePath)
        ensures
            r@ == Seq::<Seq<char>>::empty(),
    {
        let r = TreePath { components: Vec::new() };
        assert(r@ =~= Seq::<Seq<char>>::empty());
        r
    }

    /// The path made of `components`.
    pub fn from_components(components: Vec<String>) -> (r: TreePath)
        ensures
            r.components == components,
    {
        TreePath { components }
    }

    /// Number of components.
    pub fn len(&self) -> (n: usize)
        ensures
            n == self@.len(),
    {
        self.components.len()
    }

    /// Appends one component.
    pub fn push(&mut self, name: String)
        ensures
            final(self)@ == old(self)@.push(name@),
    {
        self.components.push(name);
        assert(self@ =~= old(self)@.push(name@));
    }

    /// The last component, if there is one.
    pub fn file_name(&self) -> (r: Option<&String>)
        ensures
            match r {
                Some(name) => self@.len() > 0 && name@ == self@.last(),
                None => self@.len() == 0,
            },
    {
        let n: usize = self.components.len();
        if n == 0 {
            None
        } else {
            Some(&self.components[n - 1])
        }
    }

    /// Whether `base` is a leading part of this path, component by component.
    pub fn starts_with(&self, base: &TreePath) -> (r: bool)
        ensures
            r == base@.is_prefix_of(self@),
    {
        let n: usize = base.components.len();
        if n > self.components.len() {
            return false;
        }
        let mut i: usize = 0;
        while i < n
            invariant
                n == base@.len(),
                n <= self@.len(),
                i <= n,
                forall|j: int| 0 <= j < i ==> self@[j] == base@[j],
            decreases n - i,
        {
            if self.components[i] != base.components[i] {
                assert(self@[i as int] != base@[i as int]);
                assert(self@.subrange(0, n as int)[i as int] != base@[i as int]);
                return false;
            }
            i += 1;
        }
        assert(base@ =~= self@.subrange(0, n as int));
        true
    }

    /// The path as text, with `/` between its components.
    pub fn display(&self) -> (r: String)
        ensures
            r@ == joined(self@),
    {
        let n: usize = self.components.len();
        let mut out = String::new();
        if n == 0 {
            return out;
        }
        out.append(self.components[0].as_str());
        assert(self@.subrange(0, 1) =~= seq![self@[0]]);
        let mut i: usize = 1;
        while i < n
            invariant
                n == self@.len(),
                1 <= i <= n,
                out@ == joined(self@.subrange(0, i as int)),
            decreases n - i,
        {
            proof {
                reveal_strlit("/");
                assert("/"@ =~= seq!['/']);
                assert(self@.subrange(0, i + 1).drop_last() =~= self@.subrange(0, i as int));
            }
            out.append("/");
            out.append(self.components[i].as_str());
            i += 1;
        }
        assert(self@.subrange(0, n as int) =~= self@);
        out
    }

    /// A copy of this path.
    pub fn duplicate(&self) -> (r: TreePath)
        ensures
            r@ == self@,
    {
        let mut out = TreePath::new();
        out.extend_from(self, 0, self.len());
        assert(out@ =~= self@);
        out
    }

    /// Appends the components of `other` from index `from` up to `to`.
    pub fn extend_from(&mut self, other: &TreePath, from: usize, to: usize)
        requires
            from <= to <= other@.len(),
        ensures
            final(self)@ == old(self)@ + other@.subrange(from as int, to as int),
    {
        let mut i: usize = from;
        assert(self@ =~= old(self)@ + other@.subrange(from as int, i as int));
        while i < to
            invariant
                from <= i <= to,
                to <= other@.len(),
                self@ == old(self)@ + other@.subrange(from as int, i as int),
            decreases to - i,
        {
            self.push(other.components[i].clone());
            i += 1;
            assert(self@ =~= old(self)@ + other@.subrange(from as int, i as int));
        }
    }
}

/// The mirror of the directory `dir` under `destination_root`.
pub fn map_dir(source_root: &TreePath, destination_root: &TreePath, dir: &TreePath) -> (r: Result<
    TreePath,
    PathError,
>)
    ensures
        match r {
            Ok(p) => mapped_dir(source_root@, destination_root@, dir@) == Some(p@),
            Err(e) => mapped_dir(source_root@, destination_root@, dir@) is None && e
                == PathError::InvalidPath,
        },
{
    if !dir.starts_with(source_root) {
        return Err(PathError::InvalidPath);
    }
    let mut out = TreePath::new();
    out.extend_from(destination_root, 0, destination_root.len());
    out.extend_from(dir, source_root.len(), dir.len());
    assert(out@ =~= rebase(source_root@, destination_root@, dir@));
    Ok(out)
}

/// The destination of the file `file`, with `ext` as its new extension.
pub fn map_file(
    source_root: &TreePath,
    destination_root: &TreePath,
    file: &TreePath,
    ext: &str,
) -> (r: Result<TreePath, PathError>)
    ensures
        match r {
            Ok(p) => mapped_file(source_root@, destination_root@, file@, ext@) == Some(p@),
            Err(e) => mapped_file(source_root@, destination_root@, file@, ext@) is None && e
                == PathError::InvalidPath,
        },
{
    let n: usize = file.len();
    if !file.starts_with(source_root) || source_root.len() >= n {
        return Err(PathError::InvalidPath);
    }
    let mut out = TreePath::new();
    out.extend_from(destination_root, 0, destination_root.len());
    out.extend_from(file, source_root.len(), n - 1);
    out.push(replace_extension(file.components[n - 1].as_str(), ext));
    assert(out@ =~= rebase(source_root@, destination_root@, file@.drop_last()).push(
        with_extension(file@.last(), ext@),
    ));
    Ok(out)
}

/// The destination of a lone source file, directly under the destination
/// root.
pub fn single_file_destination(destination_root: &TreePath, file: &TreePath, ext: &str) -> (r:
    Result<TreePath, PathError>)
    ensures
        match r {
            Ok(p) => single_destination(destination_root@, file@, ext@) == Some(p@),
            Err(e) => single_destination(destination_root@, file@, ext@) is None && e
                == PathError::InvalidPath,
        },
{
    match file.file_name() {
        None => Err(PathError::InvalidPath),
        Some(name) => {
            let mut out = TreePath::new();
            out.extend_from(destination_root, 0, destination_root.len());
            out.push(replace_extension(name.as_str(), ext));
            assert(out@ =~= destination_root@.push(with_extension(file@.last(), ext@)));
            Ok(out)
        },
    }
}

} // verus!
