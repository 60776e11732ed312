use vstd::prelude::*;
use vstd::string::StringExecFns;

verus! {

/// The three kinds of timer session.
#[derive(Clone, Copy, Debug, PartialEq, Eq, Structural)]
pub enum SessionKind {
    Work,
    ShortBreak,
    LongBreak,
}

/// The text by which a session kind is stored.
pub open spec fn kind_name(k: SessionKind) -> Seq<char> {
    match k {
        SessionKind::Work => "work"@,
        SessionKind::ShortBreak => "short_break"@,
        SessionKind::LongBreak => "long_break"@,
    }
}

/// The session kind that a stored text names, if any.
pub open spec fn kind_of(s: Seq<char>) -> Option<SessionKind> {
    if s == "work"@ {
        Some(SessionKind::Work)
    } else if s == "short_break"@ {
        Some(SessionKind::ShortBreak)
    } else if s == "long_break"@ {
        Some(SessionKind::LongBreak)
    } else {
        None
    }
}

/// Whether a stored text is one of the three session kinds.
pub open spec fn is_session_type(s: Seq<char>) -> bool {
    s == "work"@ || s == "short_break"@ || s == "long_break"@
}

impl SessionKind {
    /// Reads a session kind from its stored text; any other text is rejected.
    pub fn parse(s: &str) -> (r: Option<SessionKind>)
        ensures
            r == kind_of(s@),
    {
        let text = String::from_str(s);
        if text == String::from_str("work") {
            Some(SessionKind::Work)
        } else if text == String::from_str("short_break") {
            Some(SessionKind::ShortBreak)
        } else if text == String::from_str("long_break") {
            Some(SessionKind::LongBreak)
        } else {
            None
        }
    }
}

impl SessionKind {
    /// The text by which this kind is stored.
    pub fn name(&self) -> (r: String)
        ensures
            r@ == kind_name(*self),
    {
        match self {
            SessionKind::Work => String::from_str("work"),
            SessionKind::ShortBreak => String::from_str("short_break"),
            SessionKind::LongBreak => String::from_str("long_break"),
        }
    }
}

/// A finished timer session: the task it was spent on, if any, its length in
/// seconds, when it finished (an encoded date and time), and its kind, stored
/// as text.
#[derive(Clone, Debug, PartialEq, Eq)]
pub struct PomodoroSession {
    task_id: Option<String>,
    duration: u32,
    completed_at: String,
    session_type: String,
}

/// The four fields of a session, as plain values.
pub struct SessionModel {
    pub task_id: Option<Seq<char>>,
    pub duration: u32,
    pub completed_at: Seq<char>,
    pub session_type: Seq<char>,
}

/// The model of an optional text.
pub open spec fn opt_view(o: Option<String>) -> Option<Seq<char>> {
    match o {
        Some(s) => Some(s@),
        None => None,
    }
}

impl View for PomodoroSession {
    type V = SessionModel;

    closed spec fn view(&self) -> SessionModel {
        SessionModel {
            task_id: opt_view(self.task_id),
            duration: self.duration,
            completed_at: self.completed_at@,
            session_type: self.session_type@,
        }
    }
}

impl PomodoroSession {
    /// A session with the given fields, taken as they are; the session type
    /// is not checked here (see `kind` and `has_valid_type`).
    pub fn new(task_id: Option<String>, duration: u32, completed_at: String, session_type: String) -> (r:
        PomodoroSession)
        ensures
            r@ == (SessionModel {
                task_id: opt_view(task_id),
                duration,
                completed_at: completed_at@,
                session_type: session_type@,
            }),
    {
        PomodoroSession { task_id, duration, completed_at, session_type }
    }

    /// A session of the given kind, whose session type is that kind's text.
    pub fn of_kind(task_id: Option<String>, duration: u32, completed_at: String, kind: SessionKind) -> (r:
        PomodoroSession)
        ensures
            r@ == (SessionModel {
                task_id: opt_view(task_id),
                duration,
                completed_at: completed_at@,
                session_type: kind_name(kind),
            }),
            r.kind() == Some(kind),
    {
        proof {
            lemma_kind_name_round_trip(kind);
        }
        PomodoroSession::new(task_id, duration, completed_at, kind.name())
    }

    pub fn task_id(&self) -> (r: &Option<String>)
        ensures
            opt_view(*r) == self@.task_id,
    {
        &self.task_id
    }

    pub fn duration(&self) -> (r: u32)
        ensures
            r == self@.duration,
    {
        self.duration
    }

    pub fn completed_at(&self) -> (r: &String)
        ensures
            r@ == self@.completed_at,
    {
        &self.completed_at
    }

    pub fn session_type(&self) -> (r: &String)
        ensures
            r@ == self@.session_type,
    {
        &self.session_type
    }

    /// The kind that the session type names, or `None` where it names none.
    #[verifier::when_used_as_spec(spec_kind)]
    pub fn kind(&self) -> (r: Option<SessionKind>)
        ensures
            r == kind_of(self@.session_type),
    {
        SessionKind::parse(self.session_type.as_str())
    }

    pub open spec fn spec_kind(&self) -> Option<SessionKind> {
        kind_of(self@.session_type)
    }

    /// Whether the session type is one of `work`, `short_break` and
    /// `long_break`.
    pub fn has_valid_type(&self) -> (r: bool)
        ensures
            r == is_session_type(self@.session_type),
    {
        self.kind().is_some()
    }
}

/// Each kind's text is read back as that kind.
pub proof fn lemma_kind_name_round_trip(k: SessionKind)
    ensures
        kind_of(kind_name(k)) == Some(k),
        is_session_type(kind_name(k)),
{
    reveal_strlit("work");
    reveal_strlit("short_break");
    reveal_strlit("long_break");
    assert("work"@.len() == 4 && "short_break"@.len() == 11 && "long_break"@.len() == 10);
}

/// A session type is accepted exactly when it is `work`, `short_break` or
/// `long_break`; an accepted one is read as the kind whose text it is, and
/// every other text is rejected.
pub proof fn lemma_session_type_constrained(s: Seq<char>)
    ensures
        kind_of(s) is Some <==> is_session_type(s),
        kind_of(s) is Some ==> kind_name(kind_of(s)->Some_0) == s,
        !is_session_type(s) ==> kind_of(s) is None,
{
}

} // verus!
