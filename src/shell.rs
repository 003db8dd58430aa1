//! The application shell: loading, then one page at a time.

use crate::group_theory::{group_theory_updated, GroupTheoryMessage, IcedGroupTheory};
use crate::matrix::{calculation_updated, IcedMatrixOperation, MatrixCalculationState, MatrixMessage};
use vstd::prelude::*;

verus! {

/// Which page is open.
#[derive(Debug, Clone)]
pub enum SubState<M> {
    Home,
    Matrix(MatrixCalculationState<M>),
    GroupTheory(IcedGroupTheory),
}

/// The state of the loaded application.
#[derive(Debug, Clone)]
pub struct State<M> {
    pub current: SubState<M>,
}

impl<M> Default for State<M> {
    fn default() -> (r: Self)
        ensures
            r.current == SubState::<M>::Home,
    {
        State { current: SubState::Home }
    }
}

impl<M> State<M> {
    /// The state the application starts from; loading it cannot fail.
    pub fn load() -> (r: Result<Self, LoadError>)
        ensures
            r.is_ok(),
            r.unwrap().current == SubState::<M>::Home,
    {
        Ok(State::default())
    }
}

/// Loading the application state failed.
#[derive(Clone, Copy, Debug, PartialEq, Eq, Structural)]
pub enum LoadError {
    Unavailable,
}

/// The events of the application: loading ended, an event of one of the
/// pages, a page was chosen, or nothing to do.
#[derive(Debug)]
pub enum Message<M> {
    Loaded(Result<State<M>, LoadError>),
    MatrixMessage(MatrixMessage<M>),
    GroupTheoryMessage(GroupTheoryMessage),
    SwitchState(SubState<M>),
    Noop,
}

/// The application: loading, then loaded.
#[derive(Debug)]
pub enum Pyruvate<M> {
    Loading,
    Loaded(State<M>),
}

/// Every matrix page that `s` holds has its two entry widgets.
pub open spec fn sub_state_wf<M: Clone>(s: SubState<M>) -> bool {
    match s {
        SubState::Matrix(m) => m.wf(),
        _ => true,
    }
}

pub open spec fn pyruvate_wf<M: Clone>(p: Pyruvate<M>) -> bool {
    match p {
        Pyruvate::Loaded(state) => sub_state_wf(state.current),
        Pyruvate::Loading => true,
    }
}

/// Every state that `message` could bring in is well formed.
pub open spec fn message_wf<M: Clone>(message: Message<M>) -> bool {
    match message {
        Message::Loaded(Ok(state)) => sub_state_wf(state.current),
        Message::SwitchState(s) => sub_state_wf(s),
        _ => true,
    }
}

/// `new` is what `update` makes of `old` on `message`. While loading, only
/// the end of loading counts: its state, or the default one if it failed.
/// Once loaded, switching replaces the page and a page's message goes to
/// that page when it is open; anything else is dropped.
pub open spec fn pyruvate_updated<M: Clone, F: Fn(IcedMatrixOperation, &M, &M) -> M>(
    old: Pyruvate<M>,
    message: Message<M>,
    compute: F,
    new: Pyruvate<M>,
) -> bool {
    match old {
        Pyruvate::Loading => match message {
            Message::Loaded(Ok(state)) => new == Pyruvate::Loaded(state),
            Message::Loaded(Err(_)) => new == Pyruvate::<M>::Loaded(State { current: SubState::Home }),
            _ => new == old,
        },
        Pyruvate::Loaded(state) => match new {
            Pyruvate::Loaded(new_state) => match message {
                Message::SwitchState(s) => new_state.current == s,
                Message::MatrixMessage(m) => match state.current {
                    SubState::Matrix(page) => match new_state.current {
                        SubState::Matrix(new_page) => calculation_updated(page, m, compute, new_page),
                        _ => false,
                    },
                    _ => new_state == state,
                },
                Message::GroupTheoryMessage(m) => match state.current {
                    SubState::GroupTheory(page) => match new_state.current {
                        SubState::GroupTheory(new_page) => group_theory_updated(page, m, new_page),
                        _ => false,
                    },
                    _ => new_state == state,
                },
                _ => new_state == state,
            },
            Pyruvate::Loading => false,
        },
    }
}

impl<M: Clone> Pyruvate<M> {
    pub fn new() -> (r: Self)
        ensures
            r == Pyruvate::<M>::Loading,
    {
        Pyruvate::Loading
    }

    pub fn title(&self) -> (r: String)
        ensures
            r@ == "Pyruvate"@,
    {
        String::from_str("Pyruvate")
    }

    pub fn update<F: Fn(IcedMatrixOperation, &M, &M) -> M>(&mut self, message: Message<M>, compute: F)
        requires
            pyruvate_wf(*old(self)),
            message_wf(message),
            forall|op: IcedMatrixOperation, a: &M, b: &M| #[trigger] compute.requires((op, a, b)),
        ensures
            pyruvate_wf(*final(self)),
            pyruvate_updated(*old(self), message, compute, *final(self)),
    {
        match self {
            Pyruvate::Loading => match message {
                Message::Loaded(Ok(state)) => {
                    *self = Pyruvate::Loaded(state);
                },
                Message::Loaded(Err(_)) => {
                    *self = Pyruvate::Loaded(State::default());
                },
                _ => {},
            },
            Pyruvate::Loaded(state) => match message {
                Message::SwitchState(new) => {
                    state.current = new;
                },
                Message::MatrixMessage(sub_message) => match &mut state.current {
                    SubState::Matrix(sub_state) => sub_state.update(sub_message, compute),
                    _ => {},
                },
                Message::GroupTheoryMessage(sub_message) => match &mut state.current {
                    SubState::GroupTheory(sub_state) => sub_state.update(sub_message),
                    _ => {},
                },
                _ => {},
            },
        }
    }
}

} // verus!
