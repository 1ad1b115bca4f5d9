use vstd::prelude::*;

use crate::text::{lower_of, lowercase, same_text};

verus! {

/// Identifier of the process that receives the keyboard events.
pub type Pid = libc::pid_t;

/// A keyboard action to be taken.
#[derive(Clone, Copy, Debug, PartialEq, Eq, Structural)]
pub enum KeyboardAction {
    /// Release the key.
    Up,
    /// Press the key.
    Down,
    /// Press, then release the key.
    Cycle,
}

impl KeyboardAction {
    /// The action that a lowercase name stands for, or `None`.
    pub open spec fn of_name(name: Seq<char>) -> Option<KeyboardAction> {
        if name == "up"@ {
            Some(KeyboardAction::Up)
        } else if name == "down"@ {
            Some(KeyboardAction::Down)
        } else if name == "cycle"@ {
            Some(KeyboardAction::Cycle)
        } else {
            None
        }
    }

    /// Returns the action that a name already in lowercase stands for, or `None`.
    pub fn from_lowercase(name: &str) -> (r: Option<KeyboardAction>)
        ensures
            r == KeyboardAction::of_name(name@),
    {
        if same_text(name, "up") {
            Some(KeyboardAction::Up)
        } else if same_text(name, "down") {
            Some(KeyboardAction::Down)
        } else if same_text(name, "cycle") {
            Some(KeyboardAction::Cycle)
        } else {
            None
        }
    }

    /// Parses an action name, ignoring case. An unknown name gives the message
    /// `Invalid action: <name>`.
    pub fn from_str(s: &str) -> (r: Result<KeyboardAction, String>)
        ensures
            match KeyboardAction::of_name(lower_of(s@)) {
                Some(a) => r == Ok::<KeyboardAction, String>(a),
                None => r matches Err(m) && m@ == "Invalid action: "@ + s@,
            },
    {
        let lowered = lowercase(s);
        match KeyboardAction::from_lowercase(lowered.as_str()) {
            Some(a) => Ok(a),
            None => Err(String::from_str("Invalid action: ").concat(s)),
        }
    }

    /// The key-down flags of the events that the action posts, in order.
    pub open spec fn posts(self) -> Seq<bool> {
        match self {
            KeyboardAction::Up => seq![false],
            KeyboardAction::Down => seq![true],
            KeyboardAction::Cycle => seq![true, false],
        }
    }
}

/// The platform could not create the event source or the event.
#[derive(Clone, Copy, Debug, PartialEq, Eq, Structural)]
pub struct InjectionError;

/// What a key press does next.
#[derive(Clone, Copy, Debug, PartialEq, Eq)]
pub enum PressStep {
    /// Post one key event, key-down or key-up.
    Post { key_down: bool },
    /// Stop; the press ended with this outcome.
    Finish(Result<(), InjectionError>),
}

/// The step after `posted` posts of `action`, the last of which succeeded
/// when `last_ok` holds. A failed post ends the press at once with its error.
pub open spec fn next_press_step(action: KeyboardAction, posted: nat, last_ok: bool) -> PressStep {
    if posted > 0 && !last_ok {
        PressStep::Finish(Err(InjectionError))
    } else if posted >= action.posts().len() {
        PressStep::Finish(Ok(()))
    } else {
        PressStep::Post { key_down: action.posts()[posted as int] }
    }
}

/// Decides the next step of a key press: `posted` events of `action` have been
/// posted so far, and `last_ok` tells whether the last of them succeeded
/// (it is not read before the first post).
pub fn press_step(action: KeyboardAction, posted: usize, last_ok: bool) -> (r: PressStep)
    requires
        posted <= action.posts().len(),
    ensures
        r == next_press_step(action, posted as nat, last_ok),
{
    let total: usize = match action {
        KeyboardAction::Up => 1,
        KeyboardAction::Down => 1,
        KeyboardAction::Cycle => 2,
    };
    if posted > 0 && !last_ok {
        PressStep::Finish(Err(InjectionError))
    } else if posted >= total {
        PressStep::Finish(Ok(()))
    } else {
        let key_down = match action {
            KeyboardAction::Up => false,
            KeyboardAction::Down => true,
            KeyboardAction::Cycle => posted == 0,
        };
        PressStep::Post { key_down }
    }
}

/// A press of `action` driven by `press_step` from `posted` posts on, where
/// the platform answers post number `i` with `answers[i]` (true: success).
/// Gives the key-down flags of the events posted and the press's outcome.
pub open spec fn press_run(
    action: KeyboardAction,
    answers: Seq<bool>,
    posted: nat,
    last_ok: bool,
) -> (Seq<bool>, Result<(), InjectionError>)
    decreases action.posts().len() - posted,
{
    match next_press_step(action, posted, last_ok) {
        PressStep::Finish(outcome) => (seq![], outcome),
        PressStep::Post { key_down } => {
            if posted < action.posts().len() {
                let rest = press_run(action, answers, posted + 1, answers[posted as int]);
                (seq![key_down] + rest.0, rest.1)
            } else {
                (seq![key_down], Ok(()))
            }
        },
    }
}

/// A cycle posts key-down first. When it succeeds, key-up follows, and the
/// press ends with that post's outcome after exactly two posts. When key-down
/// fails, the press fails at once: key-up is never posted.
pub proof fn cycle_posts_down_then_up(answers: Seq<bool>)
    requires
        answers.len() == 2,
    ensures
        answers[0] && answers[1] ==> press_run(KeyboardAction::Cycle, answers, 0, true) == (
            seq![true, false],
            Ok::<(), InjectionError>(()),
        ),
        answers[0] && !answers[1] ==> press_run(KeyboardAction::Cycle, answers, 0, true) == (
            seq![true, false],
            Err::<(), InjectionError>(InjectionError),
        ),
        !answers[0] ==> press_run(KeyboardAction::Cycle, answers, 0, true) == (
            seq![true],
            Err::<(), InjectionError>(InjectionError),
        ),
{
    let a = KeyboardAction::Cycle;
    reveal_with_fuel(press_run, 4);
    assert(press_run(a, answers, 2, answers[1]).0 =~= seq![]);
    assert(press_run(a, answers, 1, answers[0]).0 =~= (if answers[0] { seq![false] } else { seq![] }));
    assert(press_run(a, answers, 0, true).0 =~= seq![true] + press_run(a, answers, 1, answers[0]).0);
}

/// A virtual keyboard that sends its events to one process, pausing before
/// each post.
pub struct VirtualKeyboard {
    /// Process that receives the keyboard events.
    pid: Pid,
    /// Pause before each event post, in milliseconds. Without it some targets
    /// drop events; the value is tuned per application.
    delay_duration: u64,
}

impl VirtualKeyboard {
    /// The process that receives the events.
    pub closed spec fn target(&self) -> Pid {
        self.pid
    }

    /// The pause before each post, in milliseconds.
    pub closed spec fn delay(&self) -> u64 {
        self.delay_duration
    }

    /// Creates a keyboard that posts to `pid`, pausing `delay_duration`
    /// milliseconds before each post.
    pub fn new(pid: Pid, delay_duration: u64) -> (r: VirtualKeyboard)
        ensures
            r.target() == pid,
            r.delay() == delay_duration,
    {
        VirtualKeyboard { pid, delay_duration }
    }

    /// The process that receives the events.
    pub fn pid(&self) -> (r: Pid)
        ensures
            r == self.target(),
    {
        self.pid
    }

    /// The pause before each post, in milliseconds.
    pub fn delay_ms(&self) -> (r: u64)
        ensures
            r == self.delay(),
    {
        self.delay_duration
    }
}

} // verus!
