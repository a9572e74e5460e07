use serde_json::Value;
use xpose::xdeskie::XdeskieState;

/// Build the library's state from the companion tool's JSON document.
fn state_from_json(text: &str) -> XdeskieState {
    let v: Value = serde_json::from_str(text).unwrap();
    let current = v["current"].as_u64().unwrap() as u32;
    let desktops = v["desktops"].as_u64().unwrap() as u32;
    let mut windows: Vec<(u32, u32)> = Vec::new();
    for (id, desk) in v["windows"].as_object().unwrap() {
        windows.push((id.parse::<u32>().unwrap(), desk.as_u64().unwrap() as u32));
    }
    windows.sort();
    let mut stacking: Vec<(u32, Vec<u32>)> = Vec::new();
    if let Some(map) = v.get("stacking").and_then(Value::as_object) {
        for (desk, order) in map {
            let ids = order
                .as_array()
                .unwrap()
                .iter()
                .map(|s| s.as_str().unwrap().parse::<u32>().unwrap())
                .collect();
            stacking.push((desk.parse::<u32>().unwrap(), ids));
        }
    }
    XdeskieState { current, desktops, windows, stacking }
}

#[test]
fn test_parse_state() {
    let json = r#"{
        "current": 1,
        "desktops": 4,
        "windows": {
            "12345": 1,
            "67890": 0
        },
        "stacking": {
            "1": ["67890", "12345"]
        }
    }"#;

    let state = state_from_json(json);
    assert_eq!(state.current, 1);
    assert_eq!(state.desktops, 4);
    assert_eq!(state.windows.len(), 2);
    assert_eq!(state.get_desktop(12345), Some(1));
    assert_eq!(state.get_desktop(67890), Some(0)); // sticky

    let windows = state.windows_on_desktop(1);
    assert!(windows.contains(&12345));
    assert!(windows.contains(&67890)); // sticky windows included
}

#[test]
fn test_windows_on_desktop_stacking_order() {
    let state = XdeskieState {
        current: 1,
        desktops: 2,
        windows: vec![(10, 1), (20, 0), (30, 2), (40, 1)],
        stacking: vec![(1, vec![40, 20, 10])],
    };
    // The stacking order leads (bottom to top), then unlisted windows in
    // pair order; desktop 2's window stays out.
    assert_eq!(state.windows_on_desktop(1), vec![40, 20, 10]);
    // A desktop without a stacking entry lists by pair order; sticky
    // windows show everywhere.
    assert_eq!(state.windows_on_desktop(2), vec![20, 30]);
}
