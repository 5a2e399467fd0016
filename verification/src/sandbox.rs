use vstd::prelude::*;

use crate::verletcore::ToolTypes;

verus! {

/// What a click of the mouse asks the sandbox to do.
#[derive(Clone, Copy, Debug, PartialEq, Eq, Structural)]
pub enum ClickAction {
    /// Nothing happens.
    Nothing,
    /// The select tool works by hovering: show a note saying so.
    ShowAutoSelectNote,
    /// Move the given point (and its previous position) to the mouse.
    MovePoint(usize),
    /// Lock or unlock the given point.
    ToggleLock(usize),
    /// Add one locked point at the mouse.
    AddPoint,
    /// Add a whole rope starting at the mouse.
    AddRope,
    /// Delete the given point and the sticks attached to it.
    RemovePoint(usize),
    /// Add a stick from the first point to the second.
    AddLine(usize, usize),
    /// Remember the mouse position as the first corner of a new box.
    BeginBox,
    /// Add the box whose first corner was remembered.
    FinishBox,
    /// The tool has no click behaviour: show a note saying so.
    ShowUnknownToolNote,
}

/// What the sandbox reads of the keyboard and the mouse once the simulation has run
/// for the frame.
#[derive(Clone, Copy, Debug)]
pub struct FrameInput {
    /// The point under the mouse, if any.
    pub near_point: Option<usize>,
    /// The left mouse button went down this frame.
    pub mouse_pressed: bool,
    /// The key that turns an added point into a rope is held.
    pub chain_held: bool,
    /// Which of the seven tool keys are held, in the order
    /// select, move, add point, lock, remove, line, box.
    pub tool_keys: [bool; 7],
    /// The key for one more resolve step went down this frame.
    pub more_pressed: bool,
    /// The key for more resolve steps is held.
    pub more_held: bool,
    /// The key for one less resolve step went down this frame.
    pub fewer_pressed: bool,
    /// The key for fewer resolve steps is held.
    pub fewer_held: bool,
}

/// Whether and how the simulation runs in a frame.
#[derive(Clone, Copy, Debug)]
pub struct SimulationRun {
    /// Run the simulation this frame.
    pub simulate: bool,
    /// How many times the sticks are resolved when the simulation runs.
    pub resolve_iterations: u32,
}

/// The state the sandbox keeps from frame to frame.
#[derive(Clone, Copy, Debug)]
pub struct Editor {
    pub tool: ToolTypes,
    pub selected: usize,
    pub steps: i32,
    pub sim_paused: bool,
}

/// The tool that the held tool keys pick, the first held key winning.
pub open spec fn chosen_tool(keys: [bool; 7]) -> Option<ToolTypes> {
    if keys@[0] {
        Some(ToolTypes::Select)
    } else if keys@[1] {
        Some(ToolTypes::MovePoint)
    } else if keys@[2] {
        Some(ToolTypes::Point)
    } else if keys@[3] {
        Some(ToolTypes::Lock)
    } else if keys@[4] {
        Some(ToolTypes::RemovePoint)
    } else if keys@[5] {
        Some(ToolTypes::Line)
    } else if keys@[6] {
        Some(ToolTypes::AABB)
    } else {
        None
    }
}

/// The selected point after hovering: every tool but the line tool selects the point
/// under the mouse.
pub open spec fn selection_after(tool: ToolTypes, selected: usize, near: Option<usize>) -> usize {
    match near {
        Some(p) => if tool != ToolTypes::Line {
            p
        } else {
            selected
        },
        None => selected,
    }
}

/// What a click does with the given tool.
pub open spec fn click_action(
    tool: ToolTypes,
    selected: usize,
    near: Option<usize>,
    chain_held: bool,
) -> ClickAction {
    match tool {
        ToolTypes::Select => ClickAction::ShowAutoSelectNote,
        ToolTypes::MovePoint => ClickAction::MovePoint(selected),
        ToolTypes::Lock => ClickAction::ToggleLock(selected),
        ToolTypes::Point => if chain_held {
            ClickAction::AddRope
        } else {
            ClickAction::AddPoint
        },
        ToolTypes::RemovePoint => ClickAction::RemovePoint(selected),
        ToolTypes::Line => match near {
            Some(p) => if p != selected {
                ClickAction::AddLine(p, selected)
            } else {
                ClickAction::Nothing
            },
            None => ClickAction::Nothing,
        },
        ToolTypes::AABB => ClickAction::BeginBox,
        ToolTypes::AABBOtherPoint => ClickAction::FinishBox,
        ToolTypes::LineOtherPoint => ClickAction::ShowUnknownToolNote,
    }
}

/// The box tools take turns: a click with the first-corner tool hands over to the
/// second-corner tool and back.
pub open spec fn tool_after_click(tool: ToolTypes, clicked: bool) -> ToolTypes {
    if clicked && tool == ToolTypes::AABB {
        ToolTypes::AABBOtherPoint
    } else if clicked && tool == ToolTypes::AABBOtherPoint {
        ToolTypes::AABB
    } else {
        tool
    }
}

/// How the number of resolve steps changes: up wins over down.
pub open spec fn step_change(input: FrameInput) -> int {
    if input.more_pressed || input.more_held {
        1
    } else if input.fewer_pressed || input.fewer_held {
        -1
    } else {
        0
    }
}

impl Editor {
    /// The sandbox as it starts: select tool, point 0 selected, 15 resolve steps, paused.
    pub fn new() -> (editor: Editor)
        ensures
            editor.tool == ToolTypes::Select,
            editor.selected == 0,
            editor.steps == 15,
            editor.sim_paused,
    {
        Editor { tool: ToolTypes::Select, selected: 0, steps: 15, sim_paused: true }
    }

    /// The first decisions of a frame, taken before the simulation runs: the pause key
    /// toggles the pause, and the simulation runs when it is not paused or while the
    /// single-step key is held, resolving its sticks `steps` times (none when `steps`
    /// is not positive).
    pub fn start_frame(&mut self, pause_pressed: bool, step_held: bool) -> (run: SimulationRun)
        ensures
            final(self).sim_paused == (old(self).sim_paused != pause_pressed),
            final(self).tool == old(self).tool,
            final(self).selected == old(self).selected,
            final(self).steps == old(self).steps,
            run.simulate == (step_held || !final(self).sim_paused),
            run.resolve_iterations == (if old(self).steps > 0 {
                old(self).steps as int
            } else {
                0
            }),
    {
        if pause_pressed {
            self.sim_paused = !self.sim_paused;
        }
        let simulate = step_held || !self.sim_paused;
        let resolve_iterations: u32 = if self.steps > 0 {
            self.steps as u32
        } else {
            0
        };
        SimulationRun { simulate, resolve_iterations }
    }

    /// The rest of the frame's decisions, taken once the simulation has run, in their
    /// order: hover selection, click, tool keys, resolve steps.
    pub fn finish_frame(&mut self, input: FrameInput) -> (action: ClickAction)
        requires
            step_change(input) == 1 ==> old(self).steps < i32::MAX,
            step_change(input) == -1 ==> old(self).steps > i32::MIN,
        ensures
            final(self).sim_paused == old(self).sim_paused,
            final(self).selected == selection_after(
                old(self).tool,
                old(self).selected,
                input.near_point,
            ),
            action == (if input.mouse_pressed {
                click_action(
                    old(self).tool,
                    final(self).selected,
                    input.near_point,
                    input.chain_held,
                )
            } else {
                ClickAction::Nothing
            }),
            final(self).tool == (match chosen_tool(input.tool_keys) {
                Some(t) => t,
                None => tool_after_click(old(self).tool, input.mouse_pressed),
            }),
            final(self).steps == old(self).steps + step_change(input),
            match input.near_point {
                Some(p) => old(self).tool != ToolTypes::Line ==> final(self).selected == p,
                None => final(self).selected == old(self).selected,
            },
            old(self).tool == ToolTypes::Line ==> final(self).selected == old(self).selected,
            !input.mouse_pressed ==> action == ClickAction::Nothing,
            input.mouse_pressed && old(self).tool == ToolTypes::Select ==> action
                == ClickAction::ShowAutoSelectNote,
            input.mouse_pressed && old(self).tool == ToolTypes::MovePoint ==> action
                == ClickAction::MovePoint(final(self).selected),
            input.mouse_pressed && old(self).tool == ToolTypes::Lock ==> action
                == ClickAction::ToggleLock(final(self).selected),
            input.mouse_pressed && old(self).tool == ToolTypes::RemovePoint ==> action
                == ClickAction::RemovePoint(final(self).selected),
            input.mouse_pressed && old(self).tool == ToolTypes::Point ==> action == (if input.chain_held {
                ClickAction::AddRope
            } else {
                ClickAction::AddPoint
            }),
            input.mouse_pressed && old(self).tool == ToolTypes::Line ==> action == (match input.near_point {
                Some(p) => if p != old(self).selected {
                    ClickAction::AddLine(p, old(self).selected)
                } else {
                    ClickAction::Nothing
                },
                None => ClickAction::Nothing,
            }),
            input.mouse_pressed && old(self).tool == ToolTypes::AABB ==> action
                == ClickAction::BeginBox,
            input.mouse_pressed && old(self).tool == ToolTypes::AABBOtherPoint ==> action
                == ClickAction::FinishBox,
            input.mouse_pressed && old(self).tool == ToolTypes::LineOtherPoint ==> action
                == ClickAction::ShowUnknownToolNote,
            input.tool_keys[0] ==> final(self).tool == ToolTypes::Select,
            !input.tool_keys[0] && input.tool_keys[1] ==> final(self).tool == ToolTypes::MovePoint,
            !input.tool_keys[0] && !input.tool_keys[1] && input.tool_keys[2] ==> final(self).tool
                == ToolTypes::Point,
            !input.tool_keys[0] && !input.tool_keys[1] && !input.tool_keys[2]
                && input.tool_keys[3] ==> final(self).tool == ToolTypes::Lock,
            !input.tool_keys[0] && !input.tool_keys[1] && !input.tool_keys[2]
                && !input.tool_keys[3] && input.tool_keys[4] ==> final(self).tool
                == ToolTypes::RemovePoint,
            !input.tool_keys[0] && !input.tool_keys[1] && !input.tool_keys[2]
                && !input.tool_keys[3] && !input.tool_keys[4] && input.tool_keys[5]
                ==> final(self).tool == ToolTypes::Line,
            !input.tool_keys[0] && !input.tool_keys[1] && !input.tool_keys[2]
                && !input.tool_keys[3] && !input.tool_keys[4] && !input.tool_keys[5]
                && input.tool_keys[6] ==> final(self).tool == ToolTypes::AABB,
            (forall|i: int| 0 <= i < 7 ==> !input.tool_keys@[i]) ==> final(self).tool == (if input.mouse_pressed
                && old(self).tool == ToolTypes::AABB {
                ToolTypes::AABBOtherPoint
            } else if input.mouse_pressed && old(self).tool == ToolTypes::AABBOtherPoint {
                ToolTypes::AABB
            } else {
                old(self).tool
            }),
            (input.more_pressed || input.more_held) ==> final(self).steps == old(self).steps + 1,
            !(input.more_pressed || input.more_held) && (input.fewer_pressed || input.fewer_held)
                ==> final(self).steps == old(self).steps - 1,
            !(input.more_pressed || input.more_held) && !(input.fewer_pressed || input.fewer_held)
                ==> final(self).steps == old(self).steps,
    {
        if self.tool != ToolTypes::Line {
            if let Some(p) = input.near_point {
                self.selected = p;
            }
        }
        let mut action = ClickAction::Nothing;
        if input.mouse_pressed {
            action =
            match self.tool {
                ToolTypes::Select => ClickAction::ShowAutoSelectNote,
                ToolTypes::MovePoint => ClickAction::MovePoint(self.selected),
                ToolTypes::Lock => ClickAction::ToggleLock(self.selected),
                ToolTypes::Point => {
                    if input.chain_held {
                        ClickAction::AddRope
                    } else {
                        ClickAction::AddPoint
                    }
                },
                ToolTypes::RemovePoint => ClickAction::RemovePoint(self.selected),
                ToolTypes::Line => {
                    match input.near_point {
                        Some(p) => {
                            if p != self.selected {
                                ClickAction::AddLine(p, self.selected)
                            } else {
                                ClickAction::Nothing
                            }
                        },
                        None => ClickAction::Nothing,
                    }
                },
                ToolTypes::AABB => {
                    self.tool = ToolTypes::AABBOtherPoint;
                    ClickAction::BeginBox
                },
                ToolTypes::AABBOtherPoint => {
                    self.tool = ToolTypes::AABB;
                    ClickAction::FinishBox
                },
                ToolTypes::LineOtherPoint => ClickAction::ShowUnknownToolNote,
            };
        }
        if input.tool_keys[0] {
            self.tool = ToolTypes::Select;
        } else if input.tool_keys[1] {
            self.tool = ToolTypes::MovePoint;
        } else if input.tool_keys[2] {
            self.tool = ToolTypes::Point;
        } else if input.tool_keys[3] {
            self.tool = ToolTypes::Lock;
        } else if input.tool_keys[4] {
            self.tool = ToolTypes::RemovePoint;
        } else if input.tool_keys[5] {
            self.tool = ToolTypes::Line;
        } else if input.tool_keys[6] {
            self.tool = ToolTypes::AABB;
        }
        if input.more_pressed || input.more_held {
            self.steps = self.steps + 1;
        } else if input.fewer_pressed || input.fewer_held {
            self.steps = self.steps - 1;
        }
        action
    }
}

/// The screens of the program: the menu and the two demos.
#[derive(Clone, Copy, Debug, PartialEq, Eq, Structural)]
pub enum Test {
    NotAnything,
    Dim2D,
    Dim3D,
}

/// The screen shown this frame and the one for the next frame: escape goes back to
/// the menu; on the menu, key 2 starts the 2D demo and key 3 the 3D demo, key 2
/// winning when both are held; a demo keeps running until escape.
pub fn next_screen(current: Test, escape_pressed: bool, key2_held: bool, key3_held: bool) -> (screens: (
    Test,
    Test,
))
    ensures
        screens.0 == (if escape_pressed {
            Test::NotAnything
        } else {
            current
        }),
        screens.1 == (if screens.0 != Test::NotAnything {
            screens.0
        } else if key2_held {
            Test::Dim2D
        } else if key3_held {
            Test::Dim3D
        } else {
            Test::NotAnything
        }),
{
    let shown = if escape_pressed {
        Test::NotAnything
    } else {
        current
    };
    let next = match shown {
        Test::NotAnything => {
            if key2_held {
                Test::Dim2D
            } else if key3_held {
                Test::Dim3D
            } else {
                Test::NotAnything
            }
        },
        other => other,
    };
    (shown, next)
}

} // verus!
