use crate::text::texts;
use vstd::prelude::*;

verus! {

/// What one call of the utility asks for: how much to log, and the paths,
/// the last of which is the destination. There are always at least two paths.
#[derive(Debug)]
pub struct Invocation {
    verbosity: u8,
    paths: Vec<String>,
}

impl Invocation {
    #[verifier::type_invariant]
    spec fn enough_paths(&self) -> bool {
        self.paths.len() >= 2
    }

    /// The verbosity asked for.
    pub closed spec fn verbosity_spec(&self) -> u8 {
        self.verbosity
    }

    /// The paths given, the destination last.
    pub closed spec fn paths_spec(&self) -> Seq<Seq<char>> {
        texts(self.paths@)
    }

    /// Takes the arguments of a call. Fewer than two paths name no source
    /// or no destination, and make no invocation.
    pub fn new(verbosity: u8, paths: Vec<String>) -> (made: Option<Invocation>)
        ensures
            made is Some <==> paths.len() >= 2,
            made matches Some(invocation) ==> invocation.verbosity_spec() == verbosity
                && invocation.paths_spec() == texts(paths@),
    {
        if paths.len() >= 2 {
            Some(Invocation { verbosity, paths })
        } else {
            None
        }
    }

    /// The verbosity asked for.
    pub fn verbosity(&self) -> (verbosity: u8)
        ensures
            verbosity == self.verbosity_spec(),
    {
        self.verbosity
    }

    /// The paths given, the destination last.
    pub fn paths(&self) -> (paths: &Vec<String>)
        ensures
            texts(paths@) == self.paths_spec(),
            paths.len() >= 2,
    {
        proof {
            use_type_invariant(self);
        }
        &self.paths
    }

    /// Parts the paths into the sources, in their order, and the
    /// destination, which is the last path. There is at least one source.
    pub fn split(self) -> (parts: (Vec<String>, String))
        ensures
            texts(parts.0@) == self.paths_spec().drop_last(),
            parts.1@ == self.paths_spec().last(),
            parts.0.len() >= 1,
    {
        proof {
            use_type_invariant(&self);
        }
        let mut sources = self.paths;
        let ghost all = sources@;
        let destination = sources.pop().unwrap();
        assert(texts(sources@) =~= texts(all).drop_last());
        (sources, destination)
    }
}

} // verus!
