use crate::command::string_view;
use crate::protocol::{request_view, Reply, ReplyView, Request, RequestView};
use crate::utils::text::{is_affirmative, is_yes, text_view, trim, trimmed};
use vstd::prelude::*;

verus! {

/// What has to be there before an entry runs: a working directory, and
/// environment variables that the user is asked for where they are not set.
#[derive(PartialEq, Eq, Debug)]
pub struct SetupItem {
    env_vars: Option<Vec<String>>,
    working_dir: Option<String>,
}

/// A [`SetupItem`] as a mathematical value.
pub struct SetupItemView {
    /// The names of the environment variables that the entry needs.
    pub env_vars: Option<Seq<Seq<char>>>,
    /// The directory that the entry works in, created if it is not there.
    pub working_dir: Option<Seq<char>>,
}

/// The views of `texts`, in order.
pub open spec fn texts_view(texts: Seq<String>) -> Seq<Seq<char>> {
    Seq::new(texts.len(), |i: int| texts[i]@)
}

/// The views of texts that may be absent.
pub open spec fn names_view(names: Option<Vec<String>>) -> Option<Seq<Seq<char>>> {
    match names {
        Some(names) => Some(texts_view(names@)),
        None => None,
    }
}

impl View for SetupItem {
    type V = SetupItemView;

    closed spec fn view(&self) -> SetupItemView {
        SetupItemView {
            env_vars: names_view(self.env_vars),
            working_dir: string_view(self.working_dir),
        }
    }
}

/// Where the preparation of an entry stands.
#[derive(PartialEq, Eq, Debug)]
pub enum PreparationState {
    /// It is being looked up whether the working directory is there.
    Directory,
    /// The working directory is being created.
    Creating,
    /// It is being looked up whether the variable at this place is set.
    Lookup(usize),
    /// The user is being asked for the value of the variable at this place.
    Value(usize),
    /// The user is being asked whether this value is right.
    Confirmation(usize, String),
    /// The variable at this place is being set to this value.
    Store(usize, String),
    /// Everything is there.
    Ready,
    /// Something could not be done, and the entry cannot run.
    Failed,
}

/// A [`PreparationState`] as a mathematical value.
pub enum PreparationView {
    Directory,
    Creating,
    Lookup(int),
    Value(int),
    Confirmation(int, Seq<char>),
    Store(int, Seq<char>),
    Ready,
    Failed,
}

impl View for PreparationState {
    type V = PreparationView;

    open spec fn view(&self) -> PreparationView {
        match self {
            PreparationState::Directory => PreparationView::Directory,
            PreparationState::Creating => PreparationView::Creating,
            PreparationState::Lookup(place) => PreparationView::Lookup(*place as int),
            PreparationState::Value(place) => PreparationView::Value(*place as int),
            PreparationState::Confirmation(place, value) => PreparationView::Confirmation(
                *place as int,
                value@,
            ),
            PreparationState::Store(place, value) => PreparationView::Store(*place as int, value@),
            PreparationState::Ready => PreparationView::Ready,
            PreparationState::Failed => PreparationView::Failed,
        }
    }
}

impl PreparationView {
    /// The place of the variable that the state is about, if it is about one.
    pub open spec fn place(self) -> Option<int> {
        match self {
            PreparationView::Lookup(place) => Some(place),
            PreparationView::Value(place) => Some(place),
            PreparationView::Confirmation(place, _) => Some(place),
            PreparationView::Store(place, _) => Some(place),
            _ => None,
        }
    }
}

impl SetupItemView {
    /// Whether `place` is the place of a variable.
    pub open spec fn has_variable(self, place: int) -> bool {
        self.env_vars matches Some(names) && 0 <= place < names.len()
    }

    /// The state in which the variable at `place` is taken up, or in which
    /// the preparation is done where there is no such variable.
    pub open spec fn enter_variable(self, place: int) -> PreparationView {
        if self.has_variable(place) {
            PreparationView::Lookup(place)
        } else {
            PreparationView::Ready
        }
    }

    /// The state in which the preparation begins: with the working
    /// directory where one is declared, else with the first variable.
    pub open spec fn begin(self) -> PreparationView {
        if self.working_dir is Some {
            PreparationView::Directory
        } else {
            self.enter_variable(0)
        }
    }

    /// The states that a preparation can be in.
    pub open spec fn fits(self, state: PreparationView) -> bool {
        match state {
            PreparationView::Directory => self.working_dir is Some,
            PreparationView::Creating => self.working_dir is Some,
            PreparationView::Ready => true,
            PreparationView::Failed => true,
            _ => self.has_variable(state.place()->0),
        }
    }

    /// The number of variables.
    pub open spec fn variables(self) -> nat {
        match self.env_vars {
            Some(names) => names.len(),
            None => 0,
        }
    }

    /// How many requests the preparation may still make, at most: two for
    /// the directory, and four for each variable.
    pub open spec fn remaining(self, state: PreparationView) -> nat {
        if !self.fits(state) {
            0
        } else {
            match state {
                PreparationView::Directory => 4 * self.variables() + 2,
                PreparationView::Creating => 4 * self.variables() + 1,
                PreparationView::Lookup(place) => (4 * (self.variables() - place)) as nat,
                PreparationView::Value(place) => (4 * (self.variables() - place) - 1) as nat,
                PreparationView::Confirmation(place, _) => (4 * (self.variables() - place)
                    - 2) as nat,
                PreparationView::Store(place, _) => (4 * (self.variables() - place) - 3) as nat,
                PreparationView::Ready => 0,
                PreparationView::Failed => 0,
            }
        }
    }

    /// What the preparation waits for in `state`.
    pub open spec fn request(self, state: PreparationView) -> Option<RequestView> {
        if !self.fits(state) {
            None
        } else {
            match state {
                PreparationView::Directory => Some(
                    RequestView::LookupDirectory(self.working_dir->0),
                ),
                PreparationView::Creating => Some(
                    RequestView::CreateDirectory(self.working_dir->0),
                ),
                PreparationView::Lookup(place) => Some(
                    RequestView::LookupVariable(self.env_vars->0[place]),
                ),
                PreparationView::Value(place) => Some(
                    RequestView::AskValue(self.env_vars->0[place]),
                ),
                PreparationView::Confirmation(place, value) => Some(
                    RequestView::AskConfirmation { name: self.env_vars->0[place], value },
                ),
                PreparationView::Store(place, value) => Some(
                    RequestView::SetVariable { name: self.env_vars->0[place], value },
                ),
                PreparationView::Ready => None,
                PreparationView::Failed => None,
            }
        }
    }

    /// One step in the turn of the working directory. A directory that is
    /// there is left alone; one that is not is created, with its parents.
    /// Then the variables follow. Where the directory cannot be created,
    /// the preparation fails.
    pub open spec fn ensure_working_dir(self, state: PreparationView, reply: ReplyView)
        -> PreparationView {
        if self.working_dir is None {
            state
        } else {
            match (state, reply) {
                (PreparationView::Directory, ReplyView::Found(true)) => self.enter_variable(0),
                (PreparationView::Directory, ReplyView::Found(false)) => PreparationView::Creating,
                (PreparationView::Creating, ReplyView::Done) => self.enter_variable(0),
                (PreparationView::Creating, ReplyView::Failed(_)) => PreparationView::Failed,
                _ => state,
            }
        }
    }

    /// One step in the turn of a variable. A variable that is set is left
    /// alone. For one that is not, the user is asked for a value, which is
    /// taken without the whitespace around it, and then asked to confirm
    /// it; the variable is set only where the user says yes, and the
    /// preparation goes on to the next variable either way. Where nothing
    /// can be read from the user, the preparation fails.
    pub open spec fn ensure_env_vars(self, state: PreparationView, reply: ReplyView)
        -> PreparationView {
        if !(state.place() matches Some(place) && self.has_variable(place)) {
            state
        } else {
            self.variable_step(state, reply)
        }
    }

    /// One step in the turn of a variable that is there.
    pub open spec fn variable_step(self, state: PreparationView, reply: ReplyView)
        -> PreparationView {
        match (state, reply) {
            (PreparationView::Lookup(place), ReplyView::Found(true)) => self.enter_variable(
                place + 1,
            ),
            (PreparationView::Lookup(place), ReplyView::Found(false)) => PreparationView::Value(
                place,
            ),
            (PreparationView::Value(place), ReplyView::Line(line)) => PreparationView::Confirmation(
                place,
                trimmed(line),
            ),
            (PreparationView::Value(_), ReplyView::Failed(_)) => PreparationView::Failed,
            (PreparationView::Confirmation(place, value), ReplyView::Line(answer)) => {
                if is_affirmative(answer) {
                    PreparationView::Store(place, value)
                } else {
                    self.enter_variable(place + 1)
                }
            },
            (PreparationView::Confirmation(_, _), ReplyView::Failed(_)) => PreparationView::Failed,
            (PreparationView::Store(place, _), ReplyView::Done) => self.enter_variable(place + 1),
            _ => state,
        }
    }

    /// Where the preparation stands after `reply`. A state that waits for
    /// nothing, and a reply that does not answer what is waited for, change
    /// nothing.
    pub open spec fn advance(self, state: PreparationView, reply: ReplyView) -> PreparationView {
        match state {
            PreparationView::Directory => self.ensure_working_dir(state, reply),
            PreparationView::Creating => self.ensure_working_dir(state, reply),
            PreparationView::Ready => state,
            PreparationView::Failed => state,
            _ => self.ensure_env_vars(state, reply),
        }
    }
}

impl SetupItem {
    /// The preconditions of an entry that needs these variables and works
    /// in this directory.
    pub fn new(env_vars: Option<Vec<String>>, working_dir: Option<&str>) -> (item: SetupItem)
        ensures
            item@ == (SetupItemView {
                env_vars: names_view(env_vars),
                working_dir: text_view(working_dir),
            }),
    {
        let working_dir = match working_dir {
            Some(path) => Some(path.to_owned()),
            None => None,
        };
        SetupItem { env_vars, working_dir }
    }

    /// The names of the environment variables that the entry needs.
    pub fn env_vars(&self) -> (names: Option<&Vec<String>>)
        ensures
            names is Some == self@.env_vars is Some,
            names matches Some(names) ==> Some(texts_view(names@)) == self@.env_vars,
    {
        self.env_vars.as_ref()
    }

    /// The directory that the entry works in.
    pub fn working_dir(&self) -> (path: Option<&str>)
        ensures
            text_view(path) == self@.working_dir,
    {
        match &self.working_dir {
            Some(path) => Some(path.as_str()),
            None => None,
        }
    }

    /// The name of the variable at `place`, if there is one.
    fn variable(&self, place: usize) -> (name: Option<&str>)
        ensures
            name is Some == self@.has_variable(place as int),
            name is Some ==> place < usize::MAX,
            name matches Some(name) ==> name@ == self@.env_vars->0[place as int],
    {
        match &self.env_vars {
            Some(names) => {
                if place < names.len() {
                    Some(names[place].as_str())
                } else {
                    None
                }
            },
            None => None,
        }
    }

    fn enter_variable(&self, place: usize) -> (state: PreparationState)
        ensures
            state@ == self@.enter_variable(place as int),
            self@.fits(state@),
    {
        match self.variable(place) {
            Some(_) => PreparationState::Lookup(place),
            None => PreparationState::Ready,
        }
    }

    /// The state in which the preparation begins.
    pub fn begin(&self) -> (state: PreparationState)
        ensures
            state@ == self@.begin(),
            self@.fits(state@),
    {
        if self.working_dir.is_some() {
            PreparationState::Directory
        } else {
            self.enter_variable(0)
        }
    }

    /// What the preparation waits for in `state`; nothing once it is done
    /// or has failed.
    pub fn request(&self, state: &PreparationState) -> (request: Option<Request>)
        ensures
            request_view(request) == self@.request(state@),
            self@.fits(state@) ==> (request is None <==> (state@ is Ready || state@ is Failed)),
    {
        match state {
            PreparationState::Directory => match &self.working_dir {
                Some(path) => Some(Request::LookupDirectory(path.clone())),
                None => None,
            },
            PreparationState::Creating => match &self.working_dir {
                Some(path) => Some(Request::CreateDirectory(path.clone())),
                None => None,
            },
            PreparationState::Lookup(place) => match self.variable(*place) {
                Some(name) => Some(Request::LookupVariable(name.to_owned())),
                None => None,
            },
            PreparationState::Value(place) => match self.variable(*place) {
                Some(name) => Some(Request::AskValue(name.to_owned())),
                None => None,
            },
            PreparationState::Confirmation(place, value) => match self.variable(*place) {
                Some(name) => Some(
                    Request::AskConfirmation { name: name.to_owned(), value: value.clone() },
                ),
                None => None,
            },
            PreparationState::Store(place, value) => match self.variable(*place) {
                Some(name) => Some(
                    Request::SetVariable { name: name.to_owned(), value: value.clone() },
                ),
                None => None,
            },
            PreparationState::Ready => None,
            PreparationState::Failed => None,
        }
    }

    /// One step in the turn of the working directory.
    pub fn ensure_working_dir(&self, state: PreparationState, reply: &Reply) -> (next:
        PreparationState)
        ensures
            next@ == self@.ensure_working_dir(state@, reply@),
            self@.fits(state@) ==> self@.fits(next@),
    {
        if self.working_dir.is_none() {
            return state;
        }
        match (state, reply) {
            (PreparationState::Directory, Reply::Found(true)) => self.enter_variable(0),
            (PreparationState::Directory, Reply::Found(false)) => PreparationState::Creating,
            (PreparationState::Creating, Reply::Done) => self.enter_variable(0),
            (PreparationState::Creating, Reply::Failed(_)) => PreparationState::Failed,
            (state, _) => state,
        }
    }

    /// One step in the turn of a variable.
    pub fn ensure_env_vars(&self, state: PreparationState, reply: &Reply) -> (next:
        PreparationState)
        ensures
            next@ == self@.ensure_env_vars(state@, reply@),
            self@.fits(state@) ==> self@.fits(next@),
    {
        let place = match &state {
            PreparationState::Lookup(place) => *place,
            PreparationState::Value(place) => *place,
            PreparationState::Confirmation(place, _) => *place,
            PreparationState::Store(place, _) => *place,
            _ => { return state; },
        };
        if self.variable(place).is_none() {
            return state;
        }
        match (state, reply) {
            (PreparationState::Lookup(place), Reply::Found(true)) => self.enter_variable(place + 1),
            (PreparationState::Lookup(place), Reply::Found(false)) => PreparationState::Value(
                place,
            ),
            (PreparationState::Value(place), Reply::Line(line)) => PreparationState::Confirmation(
                place,
                trim(line.as_str()),
            ),
            (PreparationState::Value(_), Reply::Failed(_)) => PreparationState::Failed,
            (PreparationState::Confirmation(place, value), Reply::Line(answer)) => {
                if is_yes(answer.as_str()) {
                    PreparationState::Store(place, value)
                } else {
                    self.enter_variable(place + 1)
                }
            },
            (PreparationState::Confirmation(_, _), Reply::Failed(_)) => PreparationState::Failed,
            (PreparationState::Store(place, _), Reply::Done) => self.enter_variable(place + 1),
            (state, _) => state,
        }
    }

    /// One step of the preparation: where it stands after `reply`.
    pub fn advance(&self, state: PreparationState, reply: &Reply) -> (next: PreparationState)
        ensures
            next@ == self@.advance(state@, reply@),
            self@.fits(state@) ==> self@.fits(next@),
    {
        match state {
            PreparationState::Directory => self.ensure_working_dir(state, reply),
            PreparationState::Creating => self.ensure_working_dir(state, reply),
            PreparationState::Ready => state,
            PreparationState::Failed => state,
            _ => self.ensure_env_vars(state, reply),
        }
    }
}

} // verus!
