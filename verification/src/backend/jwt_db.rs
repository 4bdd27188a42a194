//! The tokens that this process has handed out.

use crate::text::same_text;
use vstd::prelude::*;

verus! {

/// The set of issued tokens. It lives in memory only, and only ever grows.
///
/// The tokens are kept in a list and found by comparing texts: vstd models
/// hash maps only for keys whose hashing it knows, and `String` is not among
/// them, so of a map keyed by the token nothing could be proved.
pub struct JwtDb {
    tokens: Vec<String>,
}

/// The texts of a run of strings, as a set.
pub open spec fn texts(tokens: Seq<String>) -> Set<Seq<char>> {
    Set::new(|t: Seq<char>| exists|i: int| 0 <= i < tokens.len() && #[trigger] tokens[i]@ == t)
}

impl View for JwtDb {
    type V = Set<Seq<char>>;

    closed spec fn view(&self) -> Set<Seq<char>> {
        texts(self.tokens@)
    }
}

impl JwtDb {
    /// A set with no token in it.
    pub fn new() -> (db: JwtDb)
        ensures
            db@ == Set::<Seq<char>>::empty(),
    {
        let db = JwtDb { tokens: Vec::new() };
        proof {
            assert(db@ =~= Set::<Seq<char>>::empty());
        }
        db
    }

    /// Whether `token` was issued.
    pub fn contains_key(&self, token: &str) -> (known: bool)
        ensures
            known == self@.contains(token@),
    {
        let mut i: usize = 0;
        while i < self.tokens.len()
            invariant
                i <= self.tokens.len(),
                forall|k: int| 0 <= k < i ==> self.tokens@[k]@ != token@,
            decreases self.tokens.len() - i,
        {
            if same_text(self.tokens[i].as_str(), token) {
                return true;
            }
            i += 1;
        }
        false
    }

    /// Records `token` as issued.
    pub fn insert(&mut self, token: String)
        ensures
            final(self)@ == old(self)@.insert(token@),
    {
        if !self.contains_key(token.as_str()) {
            let ghost before = self.tokens@;
            self.tokens.push(token);
            proof {
                assert forall|t: Seq<char>| #[trigger]
                    texts(self.tokens@).contains(t) <==> texts(before).insert(token@).contains(
                        t,
                    ) by {
                    if texts(self.tokens@).contains(t) {
                        let i = choose|i: int|
                            0 <= i < self.tokens@.len() && #[trigger] self.tokens@[i]@ == t;
                        if i < before.len() {
                            assert(before[i]@ == t);
                        }
                    }
                    if texts(before).contains(t) {
                        let i = choose|i: int| 0 <= i < before.len() && #[trigger] before[i]@ == t;
                        assert(self.tokens@[i]@ == t);
                    }
                    if t == token@ {
                        assert(self.tokens@[before.len() as int]@ == t);
                    }
                }
                assert(self@ =~= old(self)@.insert(token@));
            }
        } else {
            proof {
                assert(self@ =~= old(self)@.insert(token@));
            }
        }
    }
}

} // verus!
