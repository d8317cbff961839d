//! A set of session identifiers, kept in the order in which they came.

use vstd::prelude::*;

verus! {

/// A set of session identifiers.
pub struct SessionSet {
    names: Vec<String>,
}

impl View for SessionSet {
    type V = Set<Seq<char>>;

    closed spec fn view(&self) -> Set<Seq<char>> {
        Set::new(
            |session_id: Seq<char>|
                exists|i: int| 0 <= i < self.names.len() && (#[trigger] self.names[i])@ == session_id,
        )
    }
}

impl SessionSet {
    /// The set without members.
    pub fn new() -> (set: SessionSet)
        ensures
            set@ == Set::<Seq<char>>::empty(),
    {
        let set = SessionSet { names: Vec::new() };
        assert(set@ =~= Set::<Seq<char>>::empty());
        set
    }

    /// Whether `session_id` is a member.
    pub fn contains(&self, session_id: &String) -> (member: bool)
        ensures
            member == self@.contains(session_id@),
    {
        let mut at: usize = 0;
        while at < self.names.len()
            invariant
                at <= self.names.len(),
                forall|i: int| 0 <= i < at ==> (#[trigger] self.names[i])@ != session_id@,
            decreases self.names.len() - at,
        {
            if self.names[at] == *session_id {
                return true;
            }
            at += 1;
        }
        false
    }

    /// Makes `session_id` a member; every other identifier is a member or not
    /// as before.
    pub fn insert(&mut self, session_id: String)
        ensures
            final(self)@ == old(self)@.insert(session_id@),
    {
        if !self.contains(&session_id) {
            let ghost before = self.names@;
            self.names.push(session_id);
            assert forall|other: Seq<char>| #[trigger]
                self@.contains(other) == old(self)@.insert(session_id@).contains(other) by {
                if other == session_id@ {
                    assert(self.names[before.len() as int]@ == other);
                } else if old(self)@.contains(other) {
                    let i = choose|i: int| 0 <= i < before.len() && (#[trigger] before[i])@ == other;
                    assert(self.names[i]@ == other);
                } else if self@.contains(other) {
                    let i = choose|i: int|
                        0 <= i < self.names.len() && (#[trigger] self.names[i])@ == other;
                    assert(before[i]@ == other);
                }
            }
            assert(self@ =~= old(self)@.insert(session_id@));
        } else {
            assert(self@ =~= old(self)@.insert(session_id@));
        }
    }
}

} // verus!
