use vstd::prelude::*;

verus! {

/// Variables read from an environment file, in file order.
#[derive(Clone, Debug)]
pub struct EnvFile(Vec<(String, String)>);

/// Owned name/value pairs as plain values.
pub open spec fn owned_pairs(v: Seq<(String, String)>) -> Seq<(Seq<char>, Seq<char>)> {
    v.map_values(|p: (String, String)| (p.0@, p.1@))
}

/// Borrowed name/value pairs as plain values.
pub open spec fn borrowed_pairs(v: Seq<(&str, &str)>) -> Seq<(Seq<char>, Seq<char>)> {
    v.map_values(|p: (&str, &str)| (p.0@, p.1@))
}

impl EnvFile {
    /// The variables, in file order.
    pub closed spec fn vars(&self) -> Seq<(Seq<char>, Seq<char>)> {
        owned_pairs(self.0@)
    }

    /// An environment file holding `pairs`.
    pub fn new(pairs: Vec<(String, String)>) -> (e: EnvFile)
        ensures
            e.vars() == owned_pairs(pairs@),
    {
        EnvFile(pairs)
    }

    /// The variables as borrowed name/value pairs, in file order.
    pub fn iter(&self) -> (r: Vec<(&str, &str)>)
        ensures
            borrowed_pairs(r@) == self.vars(),
    {
        let mut out: Vec<(&str, &str)> = Vec::new();
        let mut i: usize = 0;
        while i < self.0.len()
            invariant
                i <= self.0.len(),
                out@.len() == i,
                borrowed_pairs(out@) =~= owned_pairs(self.0@).subrange(0, i as int),
            decreases self.0.len() - i,
        {
            let ghost before = out@;
            let pair = &self.0[i];
            out.push((pair.0.as_str(), pair.1.as_str()));
            proof {
                let want = owned_pairs(self.0@).subrange(0, i + 1);
                assert forall|j: int| 0 <= j < i + 1 implies #[trigger] borrowed_pairs(out@)[j]
                    == want[j] by {
                    if j < i {
                        assert(out@[j] == before[j]);
                        assert(borrowed_pairs(before)[j] == owned_pairs(self.0@).subrange(
                            0,
                            i as int,
                        )[j]);
                    }
                }
                assert(borrowed_pairs(out@) =~= want);
            }
            i = i + 1;
        }
        assert(owned_pairs(self.0@).subrange(0, self.0@.len() as int) =~= owned_pairs(self.0@));
        out
    }
}

} // verus!
