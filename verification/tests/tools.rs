use verlet_ropes::verletcore::ToolTypes;

const ALL: [ToolTypes; 9] = [
    ToolTypes::Point,
    ToolTypes::Line,
    ToolTypes::LineOtherPoint,
    ToolTypes::RemovePoint,
    ToolTypes::MovePoint,
    ToolTypes::Lock,
    ToolTypes::Select,
    ToolTypes::AABB,
    ToolTypes::AABBOtherPoint,
];

#[test]
fn tool_labels() {
    assert_eq!(ToolTypes::Select.to_string(), "Select");
    assert_eq!(ToolTypes::MovePoint.to_string(), "Move Point");
    assert_eq!(ToolTypes::Lock.to_string(), "Throw away the key");
    assert_eq!(ToolTypes::Point.to_string(), "Add point (hold Tab to create chain)");
    assert_eq!(ToolTypes::RemovePoint.to_string(), "Murder the point and hide the evidence");
    assert_eq!(ToolTypes::Line.to_string(), "Start the creation of entire universes");
    assert_eq!(
        ToolTypes::LineOtherPoint.to_string(),
        "You are now using a different tool!?!? (line ender)"
    );
    assert_eq!(ToolTypes::AABB.to_string(), "Make a purple box thing (or else)");
    assert_eq!(ToolTypes::AABBOtherPoint.to_string(), "How big will this box be?");
}

#[test]
fn labels_tell_tools_apart() {
    for t1 in ALL.iter() {
        for t2 in ALL.iter() {
            assert_eq!(t1.to_string() == t2.to_string(), t1 == t2);
        }
    }
}
