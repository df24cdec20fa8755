//! The order in which actions are performed.
use crate::action::Action;
use vstd::prelude::*;

verus! {

/// Actions that are still to be performed.
///
/// What follows from a probe comes before everything that was to be done after the probe.
pub struct Program {
    /// The actions, the next one last.
    stack: Vec<Action>,
}

impl View for Program {
    type V = Seq<Action>;

    /// The actions, the next one first.
    closed spec fn view(&self) -> Seq<Action> {
        self.stack@.reverse()
    }
}

impl Program {
    /// A program of these actions.
    pub fn new(actions: &[Action]) -> (r: Program)
        ensures
            r@ == actions@,
    {
        let mut program = Program { stack: Vec::new() };
        program.precede(actions);
        assert(program@ =~= actions@);
        program
    }

    /// Takes the next action.
    pub fn next(&mut self) -> (r: Option<Action>)
        ensures
            old(self)@.len() == 0 ==> r is None && final(self)@ == old(self)@,
            old(self)@.len() > 0 ==> r == Some(old(self)@[0]) && final(self)@ == old(self)@.skip(1),
    {
        let ghost before = self.stack@;
        let r = self.stack.pop();
        assert(before.len() > 0 ==> self.stack@.reverse() =~= before.reverse().skip(1));
        r
    }

    /// Puts actions before all that are left.
    pub fn precede(&mut self, actions: &[Action])
        ensures
            final(self)@ == actions@ + old(self)@,
    {
        let ghost before = self.stack@;
        let mut k: usize = actions.len();
        while k > 0
            invariant
                k <= actions@.len(),
                self.stack@ == before + actions@.skip(k as int).reverse(),
            decreases k,
        {
            k = k - 1;
            self.stack.push(actions[k]);
            proof {
                assert(self.stack@ =~= before + actions@.skip(k as int).reverse());
            }
        }
        proof {
            assert(actions@.skip(0) =~= actions@);
            assert((before + actions@.reverse()).reverse() =~= actions@ + before.reverse());
        }
    }
}

} // verus!
