use vstd::prelude::*;
use vstd::string::StringExecFns;

verus! {

/// A raffle entrant: a display name, and whether a completed spin has
/// declared this entrant a winner. Identity is structural: two participants
/// are the same when their names and winner flags agree.
#[derive(Debug)]
pub struct Participant {
    pub name: String,
    pub is_winner: bool,
}

impl Participant {
    /// A fresh entrant who has not won anything yet.
    pub fn from_name(name: String) -> (p: Participant)
        ensures
            p.name == name,
            !p.is_winner,
    {
        Participant { name, is_winner: false }
    }

    /// The display label: the name alone, or decorated with a gift when a
    /// spin has declared this entrant a winner.
    pub fn label(&self) -> (r: String)
        ensures
            self.is_winner ==> r@ == "\u{1F381} "@ + self.name@,
            !self.is_winner ==> r@ == self.name@,
    {
        if self.is_winner {
            let mut decorated = "\u{1F381} ".to_owned();
            decorated.append(self.name.as_str());
            decorated
        } else {
            self.name.clone()
        }
    }
}

impl Clone for Participant {
    fn clone(&self) -> (res: Self)
        ensures
            res == *self,
    {
        Participant { name: self.name.clone(), is_winner: self.is_winner }
    }
}

impl PartialEq for Participant {
    fn eq(&self, other: &Self) -> (r: bool) {
        self.name == other.name && self.is_winner == other.is_winner
    }
}

impl vstd::std_specs::cmp::PartialEqSpecImpl for Participant {
    open spec fn obeys_eq_spec() -> bool {
        true
    }

    open spec fn eq_spec(&self, other: &Self) -> bool {
        self.name@ == other.name@ && self.is_winner == other.is_winner
    }
}

} // verus!
