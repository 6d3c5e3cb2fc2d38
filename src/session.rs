use vstd::prelude::*;
use vstd::string::*;
use crate::linking::{LinkSpec, LinkToCreate};

verus! {

/// How applying a link went.
#[derive(Debug, Clone, Copy, PartialEq, Eq, Structural)]
pub enum LinkingSuccessState {
    Linked,
    AlreadyLinked,
}

pub open spec fn success_text(s: LinkingSuccessState) -> Seq<char> {
    match s {
        LinkingSuccessState::Linked => "Successfully linked."@,
        LinkingSuccessState::AlreadyLinked => "Already linked."@,
    }
}

impl LinkingSuccessState {
    /// The human-readable description of the outcome.
    pub fn message(&self) -> (r: &'static str)
        ensures
            r@ == success_text(*self),
    {
        match self {
            LinkingSuccessState::Linked => "Successfully linked.",
            LinkingSuccessState::AlreadyLinked => "Already linked.",
        }
    }
}

/// Why applying one link failed.
pub enum LinkError {
    AlreadyExists,
    DestinationCreationError(std::io::Error),
    IoError(std::io::Error),
    FromPathError(std::io::Error),
}

/// The fixed text that opens the description of an error; for the errors
/// that carry an I/O error, that error's own description follows it.
pub open spec fn error_text(e: LinkError) -> Seq<char> {
    match e {
        LinkError::AlreadyExists => "An item already exists at the link location."@,
        LinkError::DestinationCreationError(_) => "Could not create the destination directory - "@,
        LinkError::IoError(_) => seq![],
        LinkError::FromPathError(_) => "The 'from' path has an error - "@,
    }
}

/// Relies on the `Display` impl of std::io::Error: a human-readable
/// description of the error, which depends on the platform.
#[verifier::external_body]
fn io_error_text(e: &std::io::Error) -> (r: String) {
    e.to_string()
}

impl LinkError {
    /// The human-readable description of the error.
    pub fn message(&self) -> (r: String)
        ensures
            *self is AlreadyExists ==> r@ == error_text(*self),
            exists|t: Seq<char>| r@ == error_text(*self) + t,
    {
        match self {
            LinkError::AlreadyExists => {
                let r = String::from_str("An item already exists at the link location.");
                assert(r@ == error_text(*self) + Seq::<char>::empty());
                r
            },
            LinkError::DestinationCreationError(e) => {
                let t = io_error_text(e);
                let r = String::from_str("Could not create the destination directory - ").concat(
                    t.as_str(),
                );
                assert(r@ == error_text(*self) + t@);
                r
            },
            LinkError::IoError(e) => {
                let t = io_error_text(e);
                assert(t@ == error_text(*self) + t@);
                t
            },
            LinkError::FromPathError(e) => {
                let t = io_error_text(e);
                let r = String::from_str("The 'from' path has an error - ").concat(t.as_str());
                assert(r@ == error_text(*self) + t@);
                r
            },
        }
    }
}

/// The outcome of applying one link, success or failure, as contracts see it.
#[derive(PartialEq, Eq, Structural)]
pub enum Outcome {
    Linked,
    AlreadyLinked,
    AlreadyExists,
    DestinationCreationError,
    IoError,
    FromPathError,
}

pub open spec fn error_outcome(e: LinkError) -> Outcome {
    match e {
        LinkError::AlreadyExists => Outcome::AlreadyExists,
        LinkError::DestinationCreationError(_) => Outcome::DestinationCreationError,
        LinkError::IoError(_) => Outcome::IoError,
        LinkError::FromPathError(_) => Outcome::FromPathError,
    }
}

pub open spec fn state_outcome(s: LinkingSuccessState) -> Outcome {
    match s {
        LinkingSuccessState::Linked => Outcome::Linked,
        LinkingSuccessState::AlreadyLinked => Outcome::AlreadyLinked,
    }
}

/// The result of applying one link; either way it keeps the link.
pub enum LinkResult {
    Success { item: LinkToCreate, state: LinkingSuccessState },
    Failure { item: LinkToCreate, error: LinkError },
}

pub open spec fn result_item(r: LinkResult) -> LinkSpec {
    match r {
        LinkResult::Success { item, .. } => item@,
        LinkResult::Failure { item, .. } => item@,
    }
}

/// The start of a report line: a mark for success or failure, then the link.
pub open spec fn report_head(r: LinkResult) -> Seq<char> {
    let mark = match r {
        LinkResult::Success { .. } => "\u{2705} "@,
        LinkResult::Failure { .. } => "\u{274c} "@,
    };
    mark + result_item(r).from + " -> "@ + result_item(r).to + ": "@
}

impl LinkResult {
    /// The link this result is about.
    pub fn item(&self) -> (r: &LinkToCreate)
        ensures
            r@ == result_item(*self),
    {
        match self {
            LinkResult::Success { item, .. } => item,
            LinkResult::Failure { item, .. } => item,
        }
    }

    /// One report line: the mark, the link, and what happened to it.
    pub fn to_string(&self) -> (r: String)
        ensures
            *self is Success ==> r@ == report_head(*self) + success_text(self->state),
            *self is Failure ==> exists|t: Seq<char>|
                r@ == report_head(*self) + error_text(self->error) + t,
            *self is Failure && self->error is AlreadyExists ==> r@ == report_head(*self)
                + error_text(self->error),
    {
        let item = self.item();
        let mut r = match self {
            LinkResult::Success { .. } => String::from_str("\u{2705} "),
            LinkResult::Failure { .. } => String::from_str("\u{274c} "),
        };
        r.append(item.from().as_str());
        r.append(" -> ");
        r.append(item.to().as_str());
        r.append(": ");
        assert(r@ == report_head(*self));
        let ghost head = r@;
        match self {
            LinkResult::Success { state, .. } => {
                r.append(state.message());
            },
            LinkResult::Failure { error, .. } => {
                let m = error.message();
                r.append(m.as_str());
                assert(r@ == head + m@);
                let ghost t = choose|t: Seq<char>| m@ == error_text(*error) + t;
                assert(r@ == head + error_text(*error) + t);
            },
        }
        r
    }
}

pub open spec fn result_outcome(r: LinkResult) -> Outcome {
    match r {
        LinkResult::Success { state, .. } => state_outcome(state),
        LinkResult::Failure { error, .. } => error_outcome(error),
    }
}

/// The parent directory of a path, as the standard library computes it.
pub uninterp spec fn path_parent(p: Seq<char>) -> Option<Seq<char>>;

/// Relies on std::path::Path::parent: the path without its final component,
/// or `None` for a root or an empty path. It depends on the path alone.
#[verifier::external_body]
fn parent_of(p: &str) -> (r: Option<String>)
    ensures
        opt_view(r) == path_parent(p@),
{
    match std::path::Path::new(p).parent() {
        Some(q) => Some(q.to_string_lossy().into_owned()),
        None => None,
    }
}

pub open spec fn opt_view(o: Option<String>) -> Option<Seq<char>> {
    match o {
        Some(s) => Some(s@),
        None => None,
    }
}

/// Where a session stands: the next filesystem step it asks for.
#[derive(Debug, Clone, Copy, PartialEq, Eq, Structural)]
pub enum Phase {
    Canonicalize,
    Inspect,
    CreateParent,
    Remove,
    Link,
    Finished,
}

/// What the filesystem answered to the last action.
pub enum Event {
    /// The source path resolved to an absolute, symlink-free path, or failed.
    Canonicalized(Result<String, std::io::Error>),
    /// What stands at the destination: whether an entry exists there, the
    /// target if it is a symbolic link, and whether its parent exists.
    Inspected { exists: bool, link_target: Option<String>, parent_exists: bool },
    ParentCreated(Result<(), std::io::Error>),
    Removed(Result<(), std::io::Error>),
    Linked(Result<(), std::io::Error>),
}

/// What an `Event` stands for in contracts: only whether a step failed,
/// never why.
pub enum EventModel {
    Canonicalized(Option<Seq<char>>),
    Inspected { exists: bool, link_target: Option<Seq<char>>, parent_exists: bool },
    ParentCreated(bool),
    Removed(bool),
    Linked(bool),
}

impl View for Event {
    type V = EventModel;

    open spec fn view(&self) -> EventModel {
        match self {
            Event::Canonicalized(r) => EventModel::Canonicalized(
                match r {
                    Ok(p) => Some(p@),
                    Err(_) => None,
                },
            ),
            Event::Inspected { exists, link_target, parent_exists } => EventModel::Inspected {
                exists: *exists,
                link_target: opt_view(*link_target),
                parent_exists: *parent_exists,
            },
            Event::ParentCreated(r) => EventModel::ParentCreated(r is Ok),
            Event::Removed(r) => EventModel::Removed(r is Ok),
            Event::Linked(r) => EventModel::Linked(r is Ok),
        }
    }
}

/// The filesystem step a session asks for next.
pub enum Action {
    Canonicalize { source: String },
    Inspect { destination: String, parent: Option<String> },
    CreateParent { parent: String },
    Remove { destination: String },
    Link { source: String, destination: String },
    Finish,
}

/// What an `Action` stands for in contracts.
pub enum ActionModel {
    Canonicalize { source: Seq<char> },
    Inspect { destination: Seq<char>, parent: Option<Seq<char>> },
    CreateParent { parent: Seq<char> },
    Remove { destination: Seq<char> },
    Link { source: Seq<char>, destination: Seq<char> },
    Finish,
}

impl View for Action {
    type V = ActionModel;

    open spec fn view(&self) -> ActionModel {
        match self {
            Action::Canonicalize { source } => ActionModel::Canonicalize { source: source@ },
            Action::Inspect { destination, parent } => ActionModel::Inspect {
                destination: destination@,
                parent: opt_view(*parent),
            },
            Action::CreateParent { parent } => ActionModel::CreateParent { parent: parent@ },
            Action::Remove { destination } => ActionModel::Remove { destination: destination@ },
            Action::Link { source, destination } => ActionModel::Link {
                source: source@,
                destination: destination@,
            },
            Action::Finish => ActionModel::Finish,
        }
    }
}

/// What a `LinkSession` stands for in contracts: the link, its parent
/// directory, the canonicalized source once known, whether an entry stood at
/// the destination, the pending step, and the outcome once finished.
pub struct SessionModel {
    pub item: LinkSpec,
    pub parent: Option<Seq<char>>,
    pub from_path: Seq<char>,
    pub existed: bool,
    pub phase: Phase,
    pub outcome: Option<Outcome>,
}

/// A session that has not yet touched the filesystem.
pub open spec fn start(item: LinkSpec) -> SessionModel {
    SessionModel {
        item,
        parent: path_parent(item.to),
        from_path: seq![],
        existed: false,
        phase: Phase::Canonicalize,
        outcome: None,
    }
}

pub open spec fn finished(s: SessionModel, o: Outcome) -> SessionModel {
    SessionModel { phase: Phase::Finished, outcome: Some(o), ..s }
}

/// Once the parent directory is there: replace an existing entry (only a
/// forced link gets this far with one), else create the link.
pub open spec fn after_parent(s: SessionModel) -> SessionModel {
    if s.existed {
        SessionModel { phase: Phase::Remove, ..s }
    } else {
        SessionModel { phase: Phase::Link, ..s }
    }
}

/// The decision a session takes on an event; an event that does not answer
/// the pending action leaves it as it is.
pub open spec fn next(s: SessionModel, e: EventModel) -> SessionModel {
    match (s.phase, e) {
        (Phase::Canonicalize, EventModel::Canonicalized(c)) => match c {
            None => finished(s, Outcome::FromPathError),
            Some(p) => SessionModel { from_path: p, phase: Phase::Inspect, ..s },
        },
        (Phase::Inspect, EventModel::Inspected { exists, link_target, parent_exists }) => {
            if exists && link_target == Some(s.from_path) {
                finished(s, Outcome::AlreadyLinked)
            } else if exists && !s.item.force {
                finished(s, Outcome::AlreadyExists)
            } else if s.parent is Some && !parent_exists {
                SessionModel { existed: exists, phase: Phase::CreateParent, ..s }
            } else {
                after_parent(SessionModel { existed: exists, ..s })
            }
        },
        (Phase::CreateParent, EventModel::ParentCreated(ok)) => {
            if ok {
                after_parent(s)
            } else {
                finished(s, Outcome::DestinationCreationError)
            }
        },
        (Phase::Remove, EventModel::Removed(ok)) => {
            if ok {
                SessionModel { phase: Phase::Link, ..s }
            } else {
                finished(s, Outcome::IoError)
            }
        },
        (Phase::Link, EventModel::Linked(ok)) => {
            if ok {
                finished(s, Outcome::Linked)
            } else {
                finished(s, Outcome::IoError)
            }
        },
        _ => s,
    }
}

/// The action a session asks for in its current state.
pub open spec fn action_of(s: SessionModel) -> ActionModel {
    match s.phase {
        Phase::Canonicalize => ActionModel::Canonicalize { source: s.item.from },
        Phase::Inspect => ActionModel::Inspect { destination: s.item.to, parent: s.parent },
        Phase::CreateParent => ActionModel::CreateParent { parent: s.parent->Some_0 },
        Phase::Remove => ActionModel::Remove { destination: s.item.to },
        Phase::Link => ActionModel::Link { source: s.from_path, destination: s.item.to },
        Phase::Finished => ActionModel::Finish,
    }
}

/// Applying one link to the filesystem, one step at a time: the session
/// names an action, the caller performs it and hands back the event.
pub struct LinkSession {
    item: LinkToCreate,
    parent: Option<String>,
    from_path: String,
    existed: bool,
    phase: Phase,
    outcome: Option<Result<LinkingSuccessState, LinkError>>,
}

pub open spec fn outcome_of(o: Result<LinkingSuccessState, LinkError>) -> Outcome {
    match o {
        Ok(s) => state_outcome(s),
        Err(e) => error_outcome(e),
    }
}

impl View for LinkSession {
    type V = SessionModel;

    closed spec fn view(&self) -> SessionModel {
        SessionModel {
            item: self.item@,
            parent: opt_view(self.parent),
            from_path: self.from_path@,
            existed: self.existed,
            phase: self.phase,
            outcome: match self.outcome {
                Some(o) => Some(outcome_of(o)),
                None => None,
            },
        }
    }
}

impl LinkSession {
    pub closed spec fn wf(&self) -> bool {
        &&& (self.phase == Phase::CreateParent ==> self.parent is Some)
        &&& (self.phase == Phase::Finished <==> self.outcome is Some)
    }

    /// A session for `item` that has not yet touched the filesystem.
    pub fn new(item: LinkToCreate) -> (r: LinkSession)
        ensures
            r.wf(),
            r@ == start(item@),
    {
        let parent = parent_of(item.to().as_str());
        LinkSession {
            item,
            parent,
            from_path: String::new(),
            existed: false,
            phase: Phase::Canonicalize,
            outcome: None,
        }
    }

    /// The filesystem step this session asks for next.
    pub fn action(&self) -> (r: Action)
        requires
            self.wf(),
        ensures
            r@ == action_of(self@),
    {
        match self.phase {
            Phase::Canonicalize => Action::Canonicalize { source: self.item.from().clone() },
            Phase::Inspect => Action::Inspect {
                destination: self.item.to().clone(),
                parent: self.parent.clone(),
            },
            Phase::CreateParent => Action::CreateParent {
                parent: self.parent.as_ref().unwrap().clone(),
            },
            Phase::Remove => Action::Remove { destination: self.item.to().clone() },
            Phase::Link => Action::Link {
                source: self.from_path.clone(),
                destination: self.item.to().clone(),
            },
            Phase::Finished => Action::Finish,
        }
    }

    pub fn is_finished(&self) -> (r: bool)
        ensures
            r == (self@.phase == Phase::Finished),
    {
        self.phase == Phase::Finished
    }

    fn finish(&mut self, o: Result<LinkingSuccessState, LinkError>)
        ensures
            final(self)@ == finished(old(self)@, outcome_of(o)),
            final(self).wf(),
    {
        self.phase = Phase::Finished;
        self.outcome = Some(o);
    }

    /// Takes the answer to the pending action and decides what comes next.
    pub fn advance(&mut self, event: Event)
        requires
            old(self).wf(),
        ensures
            final(self).wf(),
            final(self)@ == next(old(self)@, event@),
    {
        match self.phase {
            Phase::Canonicalize => match event {
                Event::Canonicalized(Ok(p)) => {
                    self.from_path = p;
                    self.phase = Phase::Inspect;
                },
                Event::Canonicalized(Err(e)) => {
                    self.finish(Err(LinkError::FromPathError(e)));
                },
                _ => {},
            },
            Phase::Inspect => match event {
                Event::Inspected { exists, link_target, parent_exists } => {
                    let same = match &link_target {
                        Some(t) => *t == self.from_path,
                        None => false,
                    };
                    if exists && same {
                        self.finish(Ok(LinkingSuccessState::AlreadyLinked));
                    } else if exists && !self.item.force() {
                        self.finish(Err(LinkError::AlreadyExists));
                    } else {
                        self.existed = exists;
                        if self.parent.is_some() && !parent_exists {
                            self.phase = Phase::CreateParent;
                        } else if exists {
                            self.phase = Phase::Remove;
                        } else {
                            self.phase = Phase::Link;
                        }
                    }
                },
                _ => {},
            },
            Phase::CreateParent => match event {
                Event::ParentCreated(Ok(())) => {
                    if self.existed {
                        self.phase = Phase::Remove;
                    } else {
                        self.phase = Phase::Link;
                    }
                },
                Event::ParentCreated(Err(e)) => {
                    self.finish(Err(LinkError::DestinationCreationError(e)));
                },
                _ => {},
            },
            Phase::Remove => match event {
                Event::Removed(Ok(())) => {
                    self.phase = Phase::Link;
                },
                Event::Removed(Err(e)) => {
                    self.finish(Err(LinkError::IoError(e)));
                },
                _ => {},
            },
            Phase::Link => match event {
                Event::Linked(Ok(())) => {
                    self.finish(Ok(LinkingSuccessState::Linked));
                },
                Event::Linked(Err(e)) => {
                    self.finish(Err(LinkError::IoError(e)));
                },
                _ => {},
            },
            Phase::Finished => {},
        }
    }

    /// The result of a finished session; `None` while steps are pending.
    pub fn into_result(self) -> (r: Option<LinkResult>)
        requires
            self.wf(),
        ensures
            r is Some <==> self@.phase == Phase::Finished,
            r is Some ==> result_item(r->Some_0) == self@.item && Some(result_outcome(r->Some_0))
                == self@.outcome,
    {
        let LinkSession { item, parent: _, from_path: _, existed: _, phase: _, outcome } = self;
        match outcome {
            None => None,
            Some(Ok(state)) => Some(LinkResult::Success { item, state }),
            Some(Err(error)) => Some(LinkResult::Failure { item, error }),
        }
    }
}

} // verus!
