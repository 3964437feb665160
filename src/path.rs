//! Absolute directory paths, held as the sequence of their components.
use vstd::prelude::*;
use vstd::string::*;

verus! {

/// A single path component: non-empty, without a separator, and neither
/// `.` nor `..`.
pub open spec fn is_component(s: Seq<char>) -> bool {
    &&& s.len() > 0
    &&& !s.contains('/')
    &&& s != seq!['.']
    &&& s != seq!['.', '.']
}

/// The components of a path, each preceded by a separator.
pub open spec fn slash_joined(parts: Seq<Seq<char>>) -> Seq<char>
    decreases parts.len(),
{
    if parts.len() == 0 {
        Seq::empty()
    } else {
        slash_joined(parts.drop_last()) + seq!['/'] + parts.last()
    }
}

/// The text of an absolute path: `/` for the root, `/a/b` otherwise.
pub open spec fn path_text(parts: Seq<Seq<char>>) -> Seq<char> {
    if parts.len() == 0 {
        seq!['/']
    } else {
        slash_joined(parts)
    }
}

/// The parent of a path; the root is its own parent.
pub open spec fn parent_of(parts: Seq<Seq<char>>) -> Seq<Seq<char>> {
    if parts.len() == 0 {
        parts
    } else {
        parts.drop_last()
    }
}

/// An absolute directory path. The root has no components.
#[derive(Clone, Debug)]
pub struct DirPath {
    parts: Vec<String>,
}

impl View for DirPath {
    type V = Seq<Seq<char>>;

    closed spec fn view(&self) -> Seq<Seq<char>> {
        self.parts@.map_values(|s: String| s@)
    }
}

/// Tells whether `s` may stand as one component of a path.
pub fn is_component_name(s: &String) -> (r: bool)
    ensures
        r == is_component(s@),
{
    let t = s.as_str();
    let n = t.unicode_len();
    if n == 0 {
        return false;
    }
    let mut i: usize = 0;
    while i < n
        invariant
            n == t@.len(),
            t@ == s@,
            i <= n,
            forall|j: int| 0 <= j < i ==> t@[j] != '/',
        decreases n - i,
    {
        if t.get_char(i) == '/' {
            return false;
        }
        i = i + 1;
    }
    if n <= 2 && t.get_char(0) == '.' && (n == 1 || t.get_char(1) == '.') {
        proof {
            if n == 1 {
                assert(s@ =~= seq!['.']);
            } else {
                assert(s@ =~= seq!['.', '.']);
            }
        }
        return false;
    }
    proof {
        assert(s@ != seq!['.']) by {
            if s@ =~= seq!['.'] {
                assert(s@[0] == '.');
            }
        }
        assert(s@ != seq!['.', '.']) by {
            if s@ =~= seq!['.', '.'] {
                assert(s@[0] == '.' && s@[1] == '.');
            }
        }
    }
    true
}

impl DirPath {
    /// Every component is a valid one.
    pub open spec fn wf(&self) -> bool {
        forall|i: int| 0 <= i < self@.len() ==> is_component(#[trigger] self@[i])
    }

    /// The filesystem root.
    pub fn root() -> (r: DirPath)
        ensures
            r@ == Seq::<Seq<char>>::empty(),
            r.wf(),
    {
        let r = DirPath { parts: Vec::new() };
        assert(r@ =~= Seq::<Seq<char>>::empty());
        r
    }

    /// Whether this is the root.
    pub fn is_root(&self) -> (r: bool)
        ensures
            r == (self@.len() == 0),
    {
        self.parts.len() == 0
    }

    /// The number of components.
    pub fn depth(&self) -> (r: usize)
        ensures
            r == self@.len(),
    {
        self.parts.len()
    }

    /// A copy that holds the same components.
    pub fn duplicate(&self) -> (r: DirPath)
        ensures
            r@ == self@,
    {
        let mut parts: Vec<String> = Vec::new();
        let mut i: usize = 0;
        while i < self.parts.len()
            invariant
                i <= self.parts.len(),
                parts@.len() == i,
                forall|j: int| 0 <= j < i ==> parts@[j]@ == self.parts@[j]@,
            decreases self.parts.len() - i,
        {
            parts.push(self.parts[i].clone());
            i = i + 1;
        }
        let r = DirPath { parts };
        assert(r@ =~= self@);
        r
    }

    /// The path of the child called `name`.
    pub fn join(&self, name: &String) -> (r: DirPath)
        requires
            is_component(name@),
        ensures
            r@ == self@.push(name@),
            self.wf() ==> r.wf(),
    {
        let mut r = self.duplicate();
        r.parts.push(name.clone());
        assert(r@ =~= self@.push(name@));
        r
    }

    /// The parent directory; the root is its own parent.
    pub fn parent(&self) -> (r: DirPath)
        ensures
            r@ == parent_of(self@),
            self.wf() ==> r.wf(),
    {
        let mut r = self.duplicate();
        if r.parts.len() > 0 {
            r.parts.pop();
            assert(r@ =~= self@.drop_last());
        }
        r
    }

    /// The final component, or `None` for the root.
    pub fn file_name(&self) -> (r: Option<String>)
        ensures
            self@.len() == 0 <==> r is None,
            r matches Some(s) ==> s@ == self@.last(),
    {
        let n = self.parts.len();
        if n == 0 {
            None
        } else {
            Some(self.parts[n - 1].clone())
        }
    }

    /// The path as text, `/` for the root and `/a/b` below it.
    pub fn to_text(&self) -> (r: String)
        ensures
            r@ == path_text(self@),
    {
        if self.parts.len() == 0 {
            let mut s = String::new();
            s.append("/");
            proof {
                reveal_strlit("/");
            }
            assert(s@ =~= seq!['/']);
            return s;
        }
        let mut s = String::new();
        let mut i: usize = 0;
        while i < self.parts.len()
            invariant
                i <= self.parts.len(),
                s@ == slash_joined(self@.subrange(0, i as int)),
            decreases self.parts.len() - i,
        {
            proof {
                reveal_strlit("/");
                assert(self@.subrange(0, i + 1).drop_last() =~= self@.subrange(0, i as int));
            }
            s.append("/");
            s.append(self.parts[i].as_str());
            i = i + 1;
        }
        assert(self@.subrange(0, self@.len() as int) =~= self@);
        s
    }
}

} // verus!
