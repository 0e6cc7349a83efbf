//! A read-only snapshot of environment-variable state, consulted by the
//! conditional style rules during one prompt render.

use vstd::prelude::*;

verus! {

/// The value bound to `name` among `entries`, a later entry shadowing an
/// earlier one with the same name; `None` when no entry carries the name.
pub open spec fn env_lookup(entries: Seq<(String, String)>, name: Seq<char>) -> Option<Seq<char>>
    decreases entries.len(),
{
    if entries.len() == 0 {
        None
    } else if entries.last().0@ == name {
        Some(entries.last().1@)
    } else {
        env_lookup(entries.drop_last(), name)
    }
}

/// Environment-variable state as seen by one render pass: built fresh per
/// prompt draw, read many times, never consulted across draws.
pub struct Context {
    pub env: Vec<(String, String)>,
}

impl Context {
    /// A context with no variables bound: every lookup comes back absent.
    pub fn new() -> (r: Context)
        ensures
            r.env@.len() == 0,
            forall|n: Seq<char>| #[trigger] env_lookup(r.env@, n) is None,
    {
        Context { env: Vec::new() }
    }

    /// Binds `name` to `value`; the new binding shadows any earlier one
    /// carrying the same name and leaves every other name untouched.
    pub fn insert(&mut self, name: String, value: String)
        ensures
            final(self).env@ == old(self).env@.push((name, value)),
            forall|n: Seq<char>|
                #[trigger] env_lookup(final(self).env@, n) == (if n == name@ {
                    Some(value@)
                } else {
                    env_lookup(old(self).env@, n)
                }),
    {
        let ghost before = self.env@;
        self.env.push((name, value));
        proof {
            assert(self.env@.drop_last() =~= before);
        }
    }

    /// The value bound to `name`, or `None` when the variable is absent;
    /// absence is a valid state, not an error.
    pub fn get_env(&self, name: &String) -> (r: Option<String>)
        ensures
            r.deep_view() == env_lookup(self.env@, name@),
    {
        let mut i: usize = self.env.len();
        proof {
            assert(self.env@.take(i as int) =~= self.env@);
        }
        while i > 0
            invariant
                i <= self.env@.len(),
                env_lookup(self.env@, name@) == env_lookup(self.env@.take(i as int), name@),
            decreases i,
        {
            i = i - 1;
            proof {
                assert(self.env@.take(i as int + 1).drop_last() =~= self.env@.take(i as int));
                assert(self.env@.take(i as int + 1).last() == self.env@[i as int]);
            }
            let pair = &self.env[i];
            if pair.0 == *name {
                return Some(pair.1.clone());
            }
        }
        proof {
            assert(self.env@.take(0).len() == 0);
        }
        None
    }
}

} // verus!
