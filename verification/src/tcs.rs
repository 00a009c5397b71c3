//! The checking state: local context and environment with a stack
//! discipline, and the append-only global table populated by the external
//! elaboration driver in dependency order.  The state is value-like: it
//! is consumed and re-produced by every checking operation, never
//! aliased.

use vstd::prelude::*;
use crate::common::DBI;
use crate::error::TCE;
use crate::term::{LocalEnv, Term, TermInfo};

verus! {

/// The result of an operation that threads the checking state.
pub type TCM = Result<TCS, TCE>;

/// The result of elaboration: a located core term plus the state.
pub type TermTCM = Result<(TermInfo, TCS), TCE>;

/// Type-checking state.
///
/// `local_gamma` holds the types and `local_env` the values of the local
/// bindings, innermost last; the two are always pushed and popped
/// together.  `global_gamma` and `global_env` are the append-only global
/// table, indexed directly.
#[derive(Debug)]
pub struct TCS {
    pub local_gamma: Vec<TermInfo>,
    pub local_env: Vec<TermInfo>,
    pub global_gamma: Vec<TermInfo>,
    pub global_env: Vec<TermInfo>,
}

/// De Bruijn lookup in a stack of entries whose innermost entry is last.
pub open spec fn spec_lookup_stack(s: Seq<TermInfo>, dbi: nat) -> Option<TermInfo> {
    if dbi < s.len() {
        Some(s[s.len() - 1 - dbi])
    } else {
        None
    }
}

/// Direct lookup in the global table.
pub open spec fn spec_lookup_global(s: Seq<TermInfo>, dbi: nat) -> Option<TermInfo> {
    if dbi < s.len() {
        Some(s[dbi as int])
    } else {
        None
    }
}

/// The evaluation environment whose values are the terms of a local
/// binding stack: the innermost (last pushed) entry first.
pub open spec fn stack_env_list(s: Seq<TermInfo>) -> LocalEnv
    decreases s.len(),
{
    if s.len() == 0 {
        LocalEnv::Nil
    } else {
        LocalEnv::Cons(Box::new(s[s.len() - 1].ast), Box::new(stack_env_list(s.drop_last())))
    }
}

impl TCS {
    /// An empty checking state.
    pub fn new() -> (r: TCS)
        ensures
            r.local_gamma@ == Seq::<TermInfo>::empty(),
            r.local_env@ == Seq::<TermInfo>::empty(),
            r.global_gamma@ == Seq::<TermInfo>::empty(),
            r.global_env@ == Seq::<TermInfo>::empty(),
    {
        TCS {
            local_gamma: Vec::new(),
            local_env: Vec::new(),
            global_gamma: Vec::new(),
            global_env: Vec::new(),
        }
    }

    /// The type of the local binding at a de Bruijn index.
    pub fn local_type(&self, dbi: DBI) -> (r: Option<&TermInfo>)
        ensures
            match r {
                Some(ti) => spec_lookup_stack(self.local_gamma@, dbi as nat) == Some(*ti),
                None => spec_lookup_stack(self.local_gamma@, dbi as nat) is None,
            },
    {
        let n = self.local_gamma.len();
        if dbi < n {
            Some(&self.local_gamma[n - 1 - dbi])
        } else {
            None
        }
    }

    /// The value of the local binding at a de Bruijn index.
    pub fn local_val(&self, dbi: DBI) -> (r: Option<&TermInfo>)
        ensures
            match r {
                Some(ti) => spec_lookup_stack(self.local_env@, dbi as nat) == Some(*ti),
                None => spec_lookup_stack(self.local_env@, dbi as nat) is None,
            },
    {
        let n = self.local_env.len();
        if dbi < n {
            Some(&self.local_env[n - 1 - dbi])
        } else {
            None
        }
    }

    /// The type of the global definition at an index.
    pub fn glob_type(&self, dbi: DBI) -> (r: Option<&TermInfo>)
        ensures
            match r {
                Some(ti) => spec_lookup_global(self.global_gamma@, dbi as nat) == Some(*ti),
                None => spec_lookup_global(self.global_gamma@, dbi as nat) is None,
            },
    {
        if dbi < self.global_gamma.len() {
            Some(&self.global_gamma[dbi])
        } else {
            None
        }
    }

    /// The value of the global definition at an index.
    pub fn glob_val(&self, dbi: DBI) -> (r: Option<&TermInfo>)
        ensures
            match r {
                Some(ti) => spec_lookup_global(self.global_env@, dbi as nat) == Some(*ti),
                None => spec_lookup_global(self.global_env@, dbi as nat) is None,
            },
    {
        if dbi < self.global_env.len() {
            Some(&self.global_env[dbi])
        } else {
            None
        }
    }

    /// Push one local binding: its type onto the context and its value
    /// onto the environment, together.
    pub fn push_local(&mut self, ty: TermInfo, val: TermInfo)
        ensures
            final(self).local_gamma@ == old(self).local_gamma@.push(ty),
            final(self).local_env@ == old(self).local_env@.push(val),
            final(self).global_gamma@ == old(self).global_gamma@,
            final(self).global_env@ == old(self).global_env@,
    {
        self.local_gamma.push(ty);
        self.local_env.push(val);
    }

    /// Pop one local binding from both the context and the environment.
    pub fn pop_local(&mut self)
        requires
            old(self).local_gamma@.len() > 0,
            old(self).local_env@.len() > 0,
        ensures
            final(self).local_gamma@ == old(self).local_gamma@.drop_last(),
            final(self).local_env@ == old(self).local_env@.drop_last(),
            final(self).global_gamma@ == old(self).global_gamma@,
            final(self).global_env@ == old(self).global_env@,
    {
        self.local_gamma.pop();
        self.local_env.pop();
    }

    /// The evaluation environment in effect right now: the values of the
    /// local bindings, innermost first, as a closure-capturable snapshot.
    pub fn current_env(&self) -> (r: LocalEnv)
        ensures
            r == stack_env_list(self.local_env@),
    {
        let ghost s = self.local_env@;
        let mut env = LocalEnv::new();
        let n = self.local_env.len();
        let mut i: usize = 0;
        while i < n
            invariant
                0 <= i <= n,
                n == s.len(),
                s == self.local_env@,
                env == stack_env_list(s.subrange(0, i as int)),
            decreases n - i,
        {
            env = env.cons(self.local_env[i].ast.duplicate());
            proof {
                let sub = s.subrange(0, i + 1 as int);
                assert(sub.drop_last() =~= s.subrange(0, i as int));
                assert(sub[sub.len() - 1] == s[i as int]);
            }
            i = i + 1;
        }
        proof {
            assert(s.subrange(0, n as int) =~= s);
        }
        env
    }
}

} // verus!
