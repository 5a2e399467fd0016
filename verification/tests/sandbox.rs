use verlet_ropes::sandbox::next_screen;
use verlet_ropes::sandbox::ClickAction;
use verlet_ropes::sandbox::Editor;
use verlet_ropes::sandbox::FrameInput;
use verlet_ropes::sandbox::Test;
use verlet_ropes::verletcore::ToolTypes;

fn idle() -> FrameInput {
    FrameInput {
        near_point: None,
        mouse_pressed: false,
        chain_held: false,
        tool_keys: [false; 7],
        more_pressed: false,
        more_held: false,
        fewer_pressed: false,
        fewer_held: false,
    }
}

fn editor(tool: ToolTypes) -> Editor {
    let mut e = Editor::new();
    e.tool = tool;
    e
}

#[test]
fn sandbox_starts_paused_with_select_tool() {
    let e = Editor::new();
    assert_eq!(e.tool, ToolTypes::Select);
    assert_eq!(e.selected, 0);
    assert_eq!(e.steps, 15);
    assert!(e.sim_paused);
}

#[test]
fn paused_sandbox_does_not_simulate() {
    let mut e = Editor::new();
    let run = e.start_frame(false, false);
    assert!(!run.simulate);
    assert_eq!(run.resolve_iterations, 15);
    assert_eq!(e.finish_frame(idle()), ClickAction::Nothing);
}

#[test]
fn pause_key_toggles_and_step_key_runs_one_frame() {
    let mut e = Editor::new();
    let run = e.start_frame(true, false);
    assert!(!e.sim_paused);
    assert!(run.simulate);
    let run = e.start_frame(true, false);
    assert!(e.sim_paused);
    assert!(!run.simulate);
    let run = e.start_frame(false, true);
    assert!(e.sim_paused);
    assert!(run.simulate);
    let run = e.start_frame(true, true);
    assert!(!e.sim_paused);
    assert!(run.simulate);
}

#[test]
fn hovering_selects_except_with_the_line_tool() {
    let mut e = editor(ToolTypes::MovePoint);
    e.finish_frame(FrameInput { near_point: Some(4), ..idle() });
    assert_eq!(e.selected, 4);
    let mut e = editor(ToolTypes::Line);
    e.finish_frame(FrameInput { near_point: Some(4), ..idle() });
    assert_eq!(e.selected, 0);
}

#[test]
fn clicks_per_tool() {
    let click = |tool: ToolTypes, near: Option<usize>, chain: bool| {
        let mut e = editor(tool);
        e.selected = 2;
        e.finish_frame(FrameInput { mouse_pressed: true, near_point: near, chain_held: chain, ..idle() })
    };
    assert_eq!(click(ToolTypes::Select, None, false), ClickAction::ShowAutoSelectNote);
    assert_eq!(click(ToolTypes::MovePoint, None, false), ClickAction::MovePoint(2));
    assert_eq!(click(ToolTypes::MovePoint, Some(5), false), ClickAction::MovePoint(5));
    assert_eq!(click(ToolTypes::Lock, None, false), ClickAction::ToggleLock(2));
    assert_eq!(click(ToolTypes::Point, None, false), ClickAction::AddPoint);
    assert_eq!(click(ToolTypes::Point, None, true), ClickAction::AddRope);
    assert_eq!(click(ToolTypes::RemovePoint, Some(1), false), ClickAction::RemovePoint(1));
    assert_eq!(click(ToolTypes::Line, Some(7), false), ClickAction::AddLine(7, 2));
    assert_eq!(click(ToolTypes::Line, Some(2), false), ClickAction::Nothing);
    assert_eq!(click(ToolTypes::Line, None, false), ClickAction::Nothing);
    assert_eq!(click(ToolTypes::AABB, None, false), ClickAction::BeginBox);
    assert_eq!(click(ToolTypes::AABBOtherPoint, None, false), ClickAction::FinishBox);
    assert_eq!(click(ToolTypes::LineOtherPoint, None, false), ClickAction::ShowUnknownToolNote);
}

#[test]
fn box_tool_alternates_corners() {
    let mut e = editor(ToolTypes::AABB);
    let click = FrameInput { mouse_pressed: true, ..idle() };
    assert_eq!(e.finish_frame(click), ClickAction::BeginBox);
    assert_eq!(e.tool, ToolTypes::AABBOtherPoint);
    assert_eq!(e.finish_frame(click), ClickAction::FinishBox);
    assert_eq!(e.tool, ToolTypes::AABB);
}

#[test]
fn first_held_tool_key_wins() {
    let mut e = editor(ToolTypes::Select);
    let mut keys = [false; 7];
    keys[3] = true;
    keys[5] = true;
    e.finish_frame(FrameInput { tool_keys: keys, ..idle() });
    assert_eq!(e.tool, ToolTypes::Lock);
    let order = [
        ToolTypes::Select,
        ToolTypes::MovePoint,
        ToolTypes::Point,
        ToolTypes::Lock,
        ToolTypes::RemovePoint,
        ToolTypes::Line,
        ToolTypes::AABB,
    ];
    for (i, tool) in order.iter().enumerate() {
        let mut keys = [false; 7];
        keys[i] = true;
        let mut e = editor(ToolTypes::LineOtherPoint);
        e.finish_frame(FrameInput { tool_keys: keys, ..idle() });
        assert_eq!(e.tool, *tool);
    }
}

#[test]
fn tool_key_overrides_box_hand_over() {
    let mut e = editor(ToolTypes::AABB);
    let mut keys = [false; 7];
    keys[6] = true;
    let action = e.finish_frame(FrameInput { mouse_pressed: true, tool_keys: keys, ..idle() });
    assert_eq!(action, ClickAction::BeginBox);
    assert_eq!(e.tool, ToolTypes::AABB);
}

#[test]
fn resolve_steps_go_up_and_down() {
    let mut e = Editor::new();
    e.finish_frame(FrameInput { more_pressed: true, ..idle() });
    assert_eq!(e.steps, 16);
    e.finish_frame(FrameInput { more_held: true, fewer_held: true, ..idle() });
    assert_eq!(e.steps, 17);
    e.finish_frame(FrameInput { fewer_pressed: true, ..idle() });
    assert_eq!(e.steps, 16);
    e.finish_frame(FrameInput { fewer_held: true, ..idle() });
    assert_eq!(e.steps, 15);
}

#[test]
fn resolve_iterations_use_steps_before_the_change_and_never_go_negative() {
    let mut e = Editor::new();
    e.steps = 0;
    assert_eq!(e.start_frame(false, false).resolve_iterations, 0);
    e.finish_frame(FrameInput { fewer_held: true, ..idle() });
    assert_eq!(e.steps, -1);
    assert_eq!(e.start_frame(false, false).resolve_iterations, 0);
    e.finish_frame(FrameInput { more_held: true, ..idle() });
    assert_eq!(e.steps, 0);
    e.steps = 3;
    assert_eq!(e.start_frame(false, false).resolve_iterations, 3);
    e.finish_frame(FrameInput { more_held: true, ..idle() });
    assert_eq!(e.start_frame(false, false).resolve_iterations, 4);
}

#[test]
fn menu_screens() {
    assert_eq!(next_screen(Test::NotAnything, false, false, false), (Test::NotAnything, Test::NotAnything));
    assert_eq!(next_screen(Test::NotAnything, false, true, true), (Test::NotAnything, Test::Dim2D));
    assert_eq!(next_screen(Test::NotAnything, false, false, true), (Test::NotAnything, Test::Dim3D));
    assert_eq!(next_screen(Test::Dim3D, false, true, false), (Test::Dim3D, Test::Dim3D));
    assert_eq!(next_screen(Test::Dim3D, true, false, false), (Test::NotAnything, Test::NotAnything));
    assert_eq!(next_screen(Test::Dim2D, true, false, true), (Test::NotAnything, Test::Dim3D));
}
