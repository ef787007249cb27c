use vstd::prelude::*;

verus! {

/// A rule that picks the next action from the state of a model.
pub trait Policy<Model, Action> {
    /// The states of the model on which the policy can be asked.
    spec fn ready(&self, model: &Model) -> bool;

    /// The actions the policy may answer with on `model`.
    spec fn may_choose(&self, model: &Model, action: Action) -> bool;

    fn get_action(&mut self, model: &Model) -> (action: Action)
        requires
            old(self).ready(model),
        ensures
            old(self).may_choose(model, action),
    ;
}

} // verus!
