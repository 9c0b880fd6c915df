use focus_router::focused::{get_focused, get_focused_name, title_from_json, SurfaceNode};

fn leaf(name: &str, focused: bool) -> SurfaceNode {
    SurfaceNode { name: Some(name.to_string()), focused, nodes: Vec::new() }
}

#[test]
fn focused_name_is_the_first_focused_nodes_title() {
    let tree = SurfaceNode {
        name: None,
        focused: false,
        nodes: vec![
            leaf("first", false),
            SurfaceNode {
                name: Some("container".to_string()),
                focused: true,
                nodes: vec![leaf("inner", true)],
            },
            leaf("later", true),
        ],
    };
    assert_eq!(get_focused_name(&tree).as_deref(), Some("container"));
    assert_eq!(get_focused(&tree).len(), 3);
}

#[test]
fn unfocused_tree_has_no_focused_name() {
    let tree = SurfaceNode {
        name: Some("root".to_string()),
        focused: false,
        nodes: vec![leaf("a", false), leaf("b", false)],
    };
    assert_eq!(get_focused_name(&tree), None);
    assert!(get_focused(&tree).is_empty());
}

#[test]
fn focused_node_without_title_yields_none() {
    let tree = SurfaceNode {
        name: None,
        focused: true,
        nodes: vec![leaf("titled", true)],
    };
    assert_eq!(get_focused_name(&tree), None, "the first focused node carries no title");
}

#[test]
fn depth_first_walk_prefers_the_parent() {
    let tree = SurfaceNode {
        name: Some("parent".to_string()),
        focused: true,
        nodes: vec![leaf("child", true)],
    };
    assert_eq!(get_focused_name(&tree).as_deref(), Some("parent"));
}

#[test]
fn json_window_description_yields_its_title() {
    assert_eq!(
        title_from_json("{\"title\": \"shell |t$3\", \"class\": \"term\"}").as_deref(),
        Some("shell |t$3")
    );
    assert_eq!(title_from_json("{\"title\": 7}"), None, "a numeric title is no title");
    assert_eq!(title_from_json("{\"class\": \"term\"}"), None, "no title key");
    assert_eq!(title_from_json("not json at all"), None);
    assert_eq!(title_from_json(""), None);
}
