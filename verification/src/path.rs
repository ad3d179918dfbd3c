use vstd::prelude::*;

verus! {

/// A file system path, kept as the pieces that are pushed one after the other
/// onto an empty path. The first piece may be a whole path given by the user
/// (such as `C:\WiX\bin`); the others are single names. Joining the pieces is
/// left to the platform's own path type where a path meets the file system.
#[derive(Debug)]
pub struct PathSpec {
    pub parts: Vec<String>,
}

impl View for PathSpec {
    type V = Seq<Seq<char>>;

    open spec fn view(&self) -> Seq<Seq<char>> {
        self.parts@.map_values(|s: String| s@)
    }
}

impl PathSpec {
    /// The empty path.
    pub fn new() -> (r: PathSpec)
        ensures
            r@ == Seq::<Seq<char>>::empty(),
    {
        let r = PathSpec { parts: Vec::new() };
        assert(r@ =~= Seq::<Seq<char>>::empty());
        r
    }

    /// The path made of `first` alone.
    pub fn from_str(first: &str) -> (r: PathSpec)
        ensures
            r@ == seq![first@],
    {
        let mut parts: Vec<String> = Vec::new();
        parts.push(first.to_owned());
        let r = PathSpec { parts };
        assert(r@ =~= seq![first@]);
        r
    }

    /// Pushes `part` onto the end of the path.
    pub fn push(&mut self, part: &str)
        ensures
            final(self)@ == old(self)@.push(part@),
    {
        self.parts.push(part.to_owned());
        assert(self@ =~= old(self)@.push(part@));
    }

    /// A path made of the same pieces.
    pub fn duplicate(&self) -> (r: PathSpec)
        ensures
            r@ == self@,
    {
        let mut parts: Vec<String> = Vec::new();
        let n = self.parts.len();
        for i in 0..n
            invariant
                n == self.parts.len(),
                parts@.len() == i,
                forall|j: int| 0 <= j < i ==> #[trigger] parts@[j]@ == self.parts@[j]@,
        {
            parts.push(self.parts[i].clone());
        }
        let r = PathSpec { parts };
        assert(r@ =~= self@);
        r
    }
}

} // verus!
