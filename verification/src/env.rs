//! A snapshot of the process environment, looked up by name.
use vstd::prelude::*;
use crate::text::str_eq;

verus! {

/// The value of an optional string, by its characters.
pub open spec fn view_opt(o: Option<String>) -> Option<Seq<char>> {
    match o {
        Some(s) => Some(s@),
        None => None,
    }
}

/// The value bound to `name` by the first pair that names it.
pub open spec fn lookup_in(vars: Seq<(String, String)>, name: Seq<char>) -> Option<Seq<char>>
    decreases vars.len(),
{
    if vars.len() == 0 {
        None
    } else if vars[0].0@ == name {
        Some(vars[0].1@)
    } else {
        lookup_in(vars.drop_first(), name)
    }
}

/// Environment variables as (name, value) pairs, in the order the process holds them.
#[derive(Clone, Debug)]
pub struct EnvVars {
    pub vars: Vec<(String, String)>,
}

impl EnvVars {
    pub open spec fn lookup(&self, name: Seq<char>) -> Option<Seq<char>> {
        lookup_in(self.vars@, name)
    }

    /// The value of the variable `name`, as `std::env::var(name).ok()` gives it.
    pub fn get(&self, name: &str) -> (r: Option<String>)
        ensures
            view_opt(r) == self.lookup(name@),
    {
        let n: usize = self.vars.len();
        let mut i: usize = 0;
        assert(self.vars@.subrange(0, n as int) =~= self.vars@);
        while i < n
            invariant
                n == self.vars@.len(),
                i <= n,
                lookup_in(self.vars@, name@) == lookup_in(
                    self.vars@.subrange(i as int, n as int),
                    name@,
                ),
            decreases n - i,
        {
            let ghost rest = self.vars@.subrange(i as int, n as int);
            assert(rest[0] == self.vars@[i as int]);
            assert(rest.drop_first() =~= self.vars@.subrange(i + 1, n as int));
            if str_eq(self.vars[i].0.as_str(), name) {
                return Some(self.vars[i].1.clone());
            }
            i += 1;
        }
        assert(self.vars@.subrange(n as int, n as int).len() == 0);
        None
    }
}

} // verus!
