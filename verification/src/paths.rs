//! File-system paths as sequences of components, the way `std::path::Path::components`
//! splits them, and the path operations that the folder rules use.

use vstd::prelude::*;
use crate::text::{chars_of, opt_text, str_eq};

verus! {

/// One component of a path.
#[derive(Debug, PartialEq, Eq)]
pub enum PathComponent {
    /// A Windows drive or UNC prefix, such as `C:`.
    Prefix(String),
    /// The root separator.
    RootDir,
    /// A `.` component.
    CurDir,
    /// A `..` component.
    ParentDir,
    /// A file or folder name.
    Normal(String),
}

/// The mathematical form of a path component.
pub enum Part {
    Prefix(Seq<char>),
    Root,
    Cur,
    Parent,
    Normal(Seq<char>),
}

impl View for PathComponent {
    type V = Part;

    open spec fn view(&self) -> Part {
        match self {
            PathComponent::Prefix(s) => Part::Prefix(s@),
            PathComponent::RootDir => Part::Root,
            PathComponent::CurDir => Part::Cur,
            PathComponent::ParentDir => Part::Parent,
            PathComponent::Normal(s) => Part::Normal(s@),
        }
    }
}

impl PathComponent {
    /// A copy of this component.
    pub fn duplicate(&self) -> (r: PathComponent)
        ensures
            r@ == self@,
    {
        match self {
            PathComponent::Prefix(s) => PathComponent::Prefix(s.clone()),
            PathComponent::RootDir => PathComponent::RootDir,
            PathComponent::CurDir => PathComponent::CurDir,
            PathComponent::ParentDir => PathComponent::ParentDir,
            PathComponent::Normal(s) => PathComponent::Normal(s.clone()),
        }
    }

    /// Whether two components are the same.
    pub fn same(&self, other: &PathComponent) -> (r: bool)
        ensures
            r == (self@ == other@),
    {
        match (self, other) {
            (PathComponent::Prefix(a), PathComponent::Prefix(b)) => str_eq(a.as_str(), b.as_str()),
            (PathComponent::RootDir, PathComponent::RootDir) => true,
            (PathComponent::CurDir, PathComponent::CurDir) => true,
            (PathComponent::ParentDir, PathComponent::ParentDir) => true,
            (PathComponent::Normal(a), PathComponent::Normal(b)) => str_eq(a.as_str(), b.as_str()),
            _ => false,
        }
    }
}

/// A path, as the sequence of its components.
#[derive(Debug, PartialEq, Eq)]
pub struct FsPath {
    pub components: Vec<PathComponent>,
}

impl View for FsPath {
    type V = Seq<Part>;

    open spec fn view(&self) -> Seq<Part> {
        self.components@.map_values(|c: PathComponent| c@)
    }
}

/// The view of an optional path.
pub open spec fn opt_path(o: Option<FsPath>) -> Option<Seq<Part>> {
    match o {
        Some(p) => Some(p@),
        None => None,
    }
}

/// The final name of a path, if it ends in a name (`Path::file_name`).
pub open spec fn file_name_of(p: Seq<Part>) -> Option<Seq<char>> {
    if p.len() > 0 && p.last() is Normal {
        Some(p.last()->Normal_0)
    } else {
        None
    }
}

/// The path without its final component (`Path::parent`): none for an empty path or
/// one that ends in a root or prefix.
pub open spec fn parent_of(p: Seq<Part>) -> Option<Seq<Part>> {
    if p.len() == 0 || p.last() is Root || p.last() is Prefix {
        None
    } else {
        Some(p.drop_last())
    }
}

/// The first of `p`'s ancestors (`p` itself, then its parent, and so on) whose final
/// name is `name` (`Path::ancestors().find(..)`).
pub open spec fn ancestor_named(p: Seq<Part>, name: Seq<char>) -> Option<Seq<Part>>
    decreases p.len(),
{
    if p.len() == 0 {
        None
    } else if file_name_of(p) == Some(name) {
        Some(p)
    } else if p.last() is Root || p.last() is Prefix {
        None
    } else {
        ancestor_named(p.drop_last(), name)
    }
}

/// A single plain name that `PathBuf::join` appends as one new component.
pub open spec fn is_plain_name(n: Seq<char>) -> bool {
    &&& n.len() > 0
    &&& n != seq!['.']
    &&& n != seq!['.', '.']
    &&& forall|i: int| 0 <= i < n.len() ==> #[trigger] n[i] != '/' && n[i] != '\\' && n[i] != ':'
}

/// Whether a name can be appended as one component.
pub fn plain_name(n: &str) -> (r: bool)
    ensures
        r == is_plain_name(n@),
{
    let cs = chars_of(n);
    if cs.len() == 0 {
        return false;
    }
    if cs.len() == 1 && cs[0] == '.' {
        assert(n@ =~= seq!['.']);
        return false;
    }
    if cs.len() == 2 && cs[0] == '.' && cs[1] == '.' {
        assert(n@ =~= seq!['.', '.']);
        return false;
    }
    assert(n@ != seq!['.']) by {
        if cs.len() == 1 {
            assert(n@[0] != seq!['.'][0]);
        }
    }
    assert(n@ != seq!['.', '.']) by {
        if cs.len() == 2 {
            assert(n@[0] != '.' || n@[1] != '.');
        }
    }
    let mut i: usize = 0;
    while i < cs.len()
        invariant
            i <= cs.len(),
            cs@ == n@,
            forall|k: int| 0 <= k < i ==> #[trigger] cs@[k] != '/' && cs@[k] != '\\' && cs@[k] != ':',
        decreases cs.len() - i,
    {
        let c = cs[i];
        if c == '/' || c == '\\' || c == ':' {
            return false;
        }
        i += 1;
    }
    true
}

impl FsPath {
    /// The path made of the first `k` components.
    pub fn prefix(&self, k: usize) -> (r: FsPath)
        requires
            k <= self@.len(),
        ensures
            r@ == self@.take(k as int),
    {
        let mut out: Vec<PathComponent> = Vec::new();
        let mut i: usize = 0;
        while i < k
            invariant
                i <= k <= self.components@.len(),
                out@.len() == i,
                forall|j: int| 0 <= j < i ==> (#[trigger] out@[j])@ == self.components@[j]@,
            decreases k - i,
        {
            out.push(self.components[i].duplicate());
            i += 1;
        }
        let r = FsPath { components: out };
        assert(r@ =~= self@.take(k as int));
        r
    }

    /// A copy of this path.
    pub fn duplicate(&self) -> (r: FsPath)
        ensures
            r@ == self@,
    {
        let r = self.prefix(self.components.len());
        assert(self@.take(self@.len() as int) =~= self@);
        r
    }

    /// The final name, if the path ends in one.
    pub fn file_name(&self) -> (r: Option<String>)
        ensures
            opt_text(r) == file_name_of(self@),
    {
        let n = self.components.len();
        if n == 0 {
            return None;
        }
        match &self.components[n - 1] {
            PathComponent::Normal(s) => Some(s.clone()),
            _ => None,
        }
    }

    /// Whether the final name is exactly `name`.
    pub fn file_name_is(&self, name: &str) -> (r: bool)
        ensures
            r == (file_name_of(self@) == Some(name@)),
    {
        let n = self.components.len();
        if n == 0 {
            return false;
        }
        match &self.components[n - 1] {
            PathComponent::Normal(s) => str_eq(s.as_str(), name),
            _ => false,
        }
    }

    /// The parent path (`Path::parent`).
    pub fn parent(&self) -> (r: Option<FsPath>)
        ensures
            opt_path(r) == parent_of(self@),
    {
        let n = self.components.len();
        if n == 0 {
            return None;
        }
        match &self.components[n - 1] {
            PathComponent::RootDir => None,
            PathComponent::Prefix(_) => None,
            _ => {
                let p = self.prefix(n - 1);
                assert(self@.take(n - 1) =~= self@.drop_last());
                Some(p)
            },
        }
    }

    /// This path with the plain name `name` appended (`Path::join`).
    pub fn join(&self, name: &str) -> (r: FsPath)
        requires
            is_plain_name(name@),
        ensures
            r@ == self@.push(Part::Normal(name@)),
    {
        let mut r = self.duplicate();
        r.components.push(PathComponent::Normal(name.to_owned()));
        assert(r@ =~= self@.push(Part::Normal(name@)));
        r
    }

    /// Whether the two paths have the same components.
    pub fn same(&self, other: &FsPath) -> (r: bool)
        ensures
            r == (self@ == other@),
    {
        if self.components.len() != other.components.len() {
            assert(self@.len() != other@.len());
            return false;
        }
        let mut i: usize = 0;
        while i < self.components.len()
            invariant
                i <= self.components@.len(),
                self.components@.len() == other.components@.len(),
                forall|k: int| 0 <= k < i ==> self@[k] == other@[k],
            decreases self.components.len() - i,
        {
            if !self.components[i].same(&other.components[i]) {
                assert(self@[i as int] != other@[i as int]);
                return false;
            }
            i += 1;
        }
        assert(self@ =~= other@);
        true
    }

    /// Whether `base` is a leading part of this path, component by component
    /// (`Path::starts_with`).
    pub fn starts_with(&self, base: &FsPath) -> (r: bool)
        ensures
            r == base@.is_prefix_of(self@),
    {
        if base.components.len() > self.components.len() {
            return false;
        }
        let mut i: usize = 0;
        while i < base.components.len()
            invariant
                i <= base.components@.len() <= self.components@.len(),
                forall|k: int| 0 <= k < i ==> self@[k] == base@[k],
            decreases base.components.len() - i,
        {
            if !self.components[i].same(&base.components[i]) {
                assert(self@.subrange(0, base@.len() as int)[i as int] != base@[i as int]);
                return false;
            }
            i += 1;
        }
        assert(base@ =~= self@.subrange(0, base@.len() as int));
        true
    }

    /// The first ancestor whose final name is `name`.
    pub fn ancestor_named(&self, name: &str) -> (r: Option<FsPath>)
        ensures
            opt_path(r) == ancestor_named(self@, name@),
    {
        let mut k: usize = self.components.len();
        assert(self@.take(k as int) =~= self@);
        loop
            invariant
                k <= self@.len(),
                ancestor_named(self@.take(k as int), name@) == ancestor_named(self@, name@),
            decreases k,
        {
            let ghost t = self@.take(k as int);
            if k == 0 {
                return None;
            }
            assert(t.last() == self@[k - 1]);
            let matched = match &self.components[k - 1] {
                PathComponent::Normal(s) => str_eq(s.as_str(), name),
                _ => false,
            };
            if matched {
                return Some(self.prefix(k));
            }
            match &self.components[k - 1] {
                PathComponent::RootDir => {
                    return None;
                },
                PathComponent::Prefix(_) => {
                    return None;
                },
                _ => {},
            }
            assert(t.drop_last() =~= self@.take(k - 1));
            k = k - 1;
        }
    }
}


/// The application's own data folder: `vrchat-photo-manager` under the platform data
/// folder, or under the current folder when there is none.
pub open spec fn app_dir_spec(data_dir: Option<Seq<Part>>) -> Seq<Part> {
    match data_dir {
        Some(d) => d,
        None => seq![Part::Cur],
    }.push(Part::Normal("vrchat-photo-manager"@))
}

/// `data_dir/vrchat-photo-manager`, with `.` standing in for a missing data folder.
pub fn app_dir(data_dir: Option<FsPath>) -> (r: FsPath)
    ensures
        r@ == app_dir_spec(opt_path(data_dir)),
{
    let base = match data_dir {
        Some(d) => d,
        None => {
            let mut cs: Vec<PathComponent> = Vec::new();
            cs.push(PathComponent::CurDir);
            let p = FsPath { components: cs };
            assert(p@ =~= seq![Part::Cur]);
            p
        },
    };
    proof {
        reveal_strlit("vrchat-photo-manager");
        assert("vrchat-photo-manager"@ =~= seq![
            'v', 'r', 'c', 'h', 'a', 't', '-', 'p', 'h', 'o', 't', 'o', '-', 'm', 'a', 'n', 'a', 'g', 'e', 'r',
        ]);
    }
    base.join("vrchat-photo-manager")
}

} // verus!
