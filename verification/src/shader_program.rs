//! The shader program: the verdict on a link, the names of its uniforms, and
//! its life cycle from uncompiled sources to the bound program.

use crate::shader::{info_log_text, is_failure, is_log_text, status_is_failure, Shader};
use vstd::prelude::*;

verus! {

/// A linked program, by the handle that the GPU gave it.
#[derive(Clone, Copy, Debug, PartialEq, Eq, Structural)]
pub struct ShaderProgram {
    pub program_id: u32,
}

/// A link that failed, with the linker's message.
#[derive(Debug)]
pub struct LinkError {
    pub log: Vec<u8>,
}

/// The inputs that the shaders read by name.
#[derive(Clone, Copy, Debug, PartialEq, Eq, Structural)]
pub enum Uniform {
    Model,
    View,
    Projection,
}

/// The name under which the shaders declare a uniform.
pub open spec fn uniform_name(uniform: Uniform) -> Seq<char> {
    match uniform {
        Uniform::Model => "u_Model"@,
        Uniform::View => "u_View"@,
        Uniform::Projection => "u_Projection"@,
    }
}

impl Uniform {
    pub fn name(self) -> (name: &'static str)
        ensures
            name@ == uniform_name(self),
    {
        match self {
            Uniform::Model => "u_Model",
            Uniform::View => "u_View",
            Uniform::Projection => "u_Projection",
        }
    }

    /// Whether the uniform is uploaded again in every frame. The model
    /// matrix is set once at startup; view and projection follow the camera
    /// and the window.
    pub fn is_per_frame(self) -> (per_frame: bool)
        ensures
            per_frame == (self != Uniform::Model),
    {
        match self {
            Uniform::Model => false,
            Uniform::View => true,
            Uniform::Projection => true,
        }
    }
}

impl ShaderProgram {
    /// Judges a finished link: the program where it succeeded, and where it
    /// failed the linker's message, on which the caller gives up.
    pub fn new(program_id: u32, link_status: i32, info_log: &[u8]) -> (result: Result<
        ShaderProgram,
        LinkError,
    >)
        ensures
            !is_failure(link_status) ==> result == Ok::<ShaderProgram, LinkError>(
                ShaderProgram { program_id },
            ),
            is_failure(link_status) ==> result is Err && is_log_text(
                result->Err_0.log@,
                info_log@,
            ),
    {
        if status_is_failure(link_status) {
            Err(LinkError { log: info_log_text(info_log) })
        } else {
            Ok(ShaderProgram { program_id })
        }
    }
}

/// Where a program stands between its sources and its use.
#[derive(Clone, Copy, Debug, PartialEq, Eq, Structural)]
pub enum ProgramState {
    /// Nothing was compiled yet.
    Uncompiled,
    /// Both stages went through the compiler.
    Compiled { vertex: Shader, fragment: Shader },
    /// The stages were linked into a program.
    Linked { program: ShaderProgram },
    /// The program is the active one.
    Bound { program: ShaderProgram },
    /// The link failed; there is no program.
    Failed,
}

/// What the caller reports back after it did what was asked.
#[derive(Clone, Copy, Debug, PartialEq, Eq, Structural)]
pub enum ProgramEvent {
    ShadersCompiled { vertex: Shader, fragment: Shader },
    LinkSucceeded { program: ShaderProgram },
    LinkFailed,
    ProgramBound,
}

/// What the caller is asked to do next.
#[derive(Clone, Copy, Debug, PartialEq, Eq, Structural)]
pub enum ProgramAction {
    /// Compile the vertex and the fragment stage.
    CompileShaders,
    /// Attach both stages to a new program and link it.
    Link { vertex: Shader, fragment: Shader },
    /// Make the program the active one.
    Bind { program: ShaderProgram },
    /// The program is in use: draw with it.
    Draw { program: ShaderProgram },
    /// Give up with the linker's message.
    Abort,
}

/// The state after an event. An event that the state did not ask for is
/// ignored.
pub open spec fn next_state(state: ProgramState, event: ProgramEvent) -> ProgramState {
    match (state, event) {
        (
            ProgramState::Uncompiled,
            ProgramEvent::ShadersCompiled { vertex, fragment },
        ) => ProgramState::Compiled { vertex, fragment },
        (
            ProgramState::Compiled { .. },
            ProgramEvent::LinkSucceeded { program },
        ) => ProgramState::Linked { program },
        (ProgramState::Compiled { .. }, ProgramEvent::LinkFailed) => ProgramState::Failed,
        (ProgramState::Linked { program }, ProgramEvent::ProgramBound) => ProgramState::Bound {
            program,
        },
        _ => state,
    }
}

/// What a state asks of the caller.
pub open spec fn action_of(state: ProgramState) -> ProgramAction {
    match state {
        ProgramState::Uncompiled => ProgramAction::CompileShaders,
        ProgramState::Compiled { vertex, fragment } => ProgramAction::Link { vertex, fragment },
        ProgramState::Linked { program } => ProgramAction::Bind { program },
        ProgramState::Bound { program } => ProgramAction::Draw { program },
        ProgramState::Failed => ProgramAction::Abort,
    }
}

/// The state after a run of events, oldest first.
pub open spec fn run(state: ProgramState, events: Seq<ProgramEvent>) -> ProgramState
    decreases events.len(),
{
    if events.len() == 0 {
        state
    } else {
        next_state(run(state, events.drop_last()), events.last())
    }
}

/// How far a state is along the life cycle.
pub open spec fn stage(state: ProgramState) -> int {
    match state {
        ProgramState::Uncompiled => 0,
        ProgramState::Compiled { .. } => 1,
        ProgramState::Linked { .. } => 2,
        ProgramState::Bound { .. } => 3,
        ProgramState::Failed => 2,
    }
}

/// Whether the events account for the state: the stages were compiled
/// before any link, a linked program is the one that a successful link
/// reported after that, a bound program was linked first, and a failed
/// state follows a failed link.
pub open spec fn history_explains(state: ProgramState, events: Seq<ProgramEvent>) -> bool {
    match state {
        ProgramState::Uncompiled => true,
        ProgramState::Compiled { vertex, fragment } => exists|i: int|
            0 <= i < events.len() && #[trigger] events[i] == (ProgramEvent::ShadersCompiled {
                vertex,
                fragment,
            }),
        ProgramState::Linked { program } => exists|i: int, j: int|
            0 <= i < j < events.len() && #[trigger] events[i] is ShadersCompiled
                && #[trigger] events[j] == (ProgramEvent::LinkSucceeded { program }),
        ProgramState::Bound { program } => exists|i: int, j: int, k: int|
            0 <= i < j < k < events.len() && #[trigger] events[i] is ShadersCompiled
                && #[trigger] events[j] == (ProgramEvent::LinkSucceeded { program })
                && #[trigger] events[k] is ProgramBound,
        ProgramState::Failed => exists|i: int, j: int|
            0 <= i < j < events.len() && #[trigger] events[i] is ShadersCompiled
                && #[trigger] events[j] is LinkFailed,
    }
}

impl ProgramState {
    pub fn new() -> (state: ProgramState)
        ensures
            state == ProgramState::Uncompiled,
    {
        ProgramState::Uncompiled
    }

    /// Takes in what the caller reports and moves on.
    pub fn advance(self, event: ProgramEvent) -> (next: ProgramState)
        ensures
            next == next_state(self, event),
    {
        match self {
            ProgramState::Uncompiled => match event {
                ProgramEvent::ShadersCompiled { vertex, fragment } => ProgramState::Compiled {
                    vertex,
                    fragment,
                },
                _ => self,
            },
            ProgramState::Compiled { .. } => match event {
                ProgramEvent::LinkSucceeded { program } => ProgramState::Linked { program },
                ProgramEvent::LinkFailed => ProgramState::Failed,
                _ => self,
            },
            ProgramState::Linked { program } => match event {
                ProgramEvent::ProgramBound => ProgramState::Bound { program },
                _ => self,
            },
            _ => self,
        }
    }

    /// Tells the caller what to do next.
    pub fn action(&self) -> (action: ProgramAction)
        ensures
            action == action_of(*self),
    {
        match *self {
            ProgramState::Uncompiled => ProgramAction::CompileShaders,
            ProgramState::Compiled { vertex, fragment } => ProgramAction::Link { vertex, fragment },
            ProgramState::Linked { program } => ProgramAction::Bind { program },
            ProgramState::Bound { program } => ProgramAction::Draw { program },
            ProgramState::Failed => ProgramAction::Abort,
        }
    }
}

/// An event moves the life cycle on by one stage or leaves it where it is;
/// it never goes back and never skips a stage.
pub proof fn lemma_stages_in_order(state: ProgramState, event: ProgramEvent)
    ensures
        next_state(state, event) == state || stage(next_state(state, event)) == stage(state) + 1,
{
}

/// Once a program is bound, and once a link failed, no event changes the
/// state.
pub proof fn lemma_final_states(events: Seq<ProgramEvent>, program: ShaderProgram)
    ensures
        run(ProgramState::Failed, events) == ProgramState::Failed,
        run(ProgramState::Bound { program }, events) == (ProgramState::Bound { program }),
    decreases events.len(),
{
    if events.len() > 0 {
        lemma_final_states(events.drop_last(), program);
    }
}

/// Whatever events arrive, the state they lead to from the start is
/// accounted for by them: no program is linked before its stages were
/// compiled, and none is bound that was not linked.
pub proof fn lemma_run_is_explained(events: Seq<ProgramEvent>)
    ensures
        history_explains(run(ProgramState::Uncompiled, events), events),
    decreases events.len(),
{
    if events.len() > 0 {
        let front = events.drop_last();
        let last = events.len() - 1;
        let before = run(ProgramState::Uncompiled, front);
        let after = run(ProgramState::Uncompiled, events);
        lemma_run_is_explained(front);
        assert(forall|i: int| 0 <= i < front.len() ==> front[i] == events[i]);
        assert(after == next_state(before, events[last]));
        if after == before {
            match before {
                ProgramState::Uncompiled => {},
                ProgramState::Compiled { vertex, fragment } => {
                    let i = choose|i: int|
                        0 <= i < front.len() && #[trigger] front[i] == (
                        ProgramEvent::ShadersCompiled { vertex, fragment });
                    assert(events[i] == front[i]);
                },
                ProgramState::Linked { program } => {
                    let (i, j) = choose|i: int, j: int|
                        0 <= i < j < front.len() && #[trigger] front[i] is ShadersCompiled
                            && #[trigger] front[j] == (ProgramEvent::LinkSucceeded { program });
                    assert(events[i] == front[i] && events[j] == front[j]);
                },
                ProgramState::Bound { program } => {
                    let (i, j, k) = choose|i: int, j: int, k: int|
                        0 <= i < j < k < front.len() && #[trigger] front[i] is ShadersCompiled
                            && #[trigger] front[j] == (ProgramEvent::LinkSucceeded { program })
                            && #[trigger] front[k] is ProgramBound;
                    assert(events[i] == front[i] && events[j] == front[j] && events[k]
                        == front[k]);
                },
                ProgramState::Failed => {
                    let (i, j) = choose|i: int, j: int|
                        0 <= i < j < front.len() && #[trigger] front[i] is ShadersCompiled
                            && #[trigger] front[j] is LinkFailed;
                    assert(events[i] == front[i] && events[j] == front[j]);
                },
            }
        } else {
            match before {
                ProgramState::Uncompiled => {
                    assert(events[last] is ShadersCompiled);
                },
                ProgramState::Compiled { vertex, fragment } => {
                    let i = choose|i: int|
                        0 <= i < front.len() && #[trigger] front[i] == (
                        ProgramEvent::ShadersCompiled { vertex, fragment });
                    assert(events[i] is ShadersCompiled);
                    assert(events[last] is LinkSucceeded || events[last] is LinkFailed);
                },
                ProgramState::Linked { program } => {
                    let (i, j) = choose|i: int, j: int|
                        0 <= i < j < front.len() && #[trigger] front[i] is ShadersCompiled
                            && #[trigger] front[j] == (ProgramEvent::LinkSucceeded { program });
                    assert(events[i] == front[i] && events[j] == front[j]);
                    assert(events[last] is ProgramBound);
                },
                ProgramState::Bound { .. } => {},
                ProgramState::Failed => {},
            }
        }
    }
}

} // verus!
