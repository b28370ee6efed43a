use vstd::prelude::*;
use vstd::std_specs::cmp::PartialEqSpecImpl;

verus! {

/// A participant, known by name and nothing else. Two players are the same
/// player exactly when their names are the same text.
#[derive(Debug)]
pub struct Player(String);

impl View for Player {
    type V = Seq<char>;

    /// A player is modelled by the characters of the name.
    closed spec fn view(&self) -> Seq<char> {
        self.0@
    }
}

impl Player {
    pub fn new(name: String) -> (player: Player)
        ensures
            player@ == name@,
    {
        Player(name)
    }

    pub fn name(&self) -> (name: &str)
        ensures
            name@ == self@,
    {
        self.0.as_str()
    }

    /// Whether this player goes by `name`.
    pub fn is_named(&self, name: &str) -> (named: bool)
        ensures
            named == (self@ == name@),
    {
        let wanted = name.to_owned();
        self.0 == wanted
    }
}

impl PartialEq for Player {
    fn eq(&self, other: &Self) -> (equal: bool) {
        self.0 == other.0
    }
}

impl PartialEqSpecImpl for Player {
    open spec fn obeys_eq_spec() -> bool {
        true
    }

    open spec fn eq_spec(&self, other: &Self) -> bool {
        self@ == other@
    }
}

impl Eq for Player {

}

} // verus!
