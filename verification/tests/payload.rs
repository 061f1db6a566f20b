use d3d9_hook_imgui_rs::payload::PayloadLayout;

fn path(names: &[&str]) -> Vec<String> {
    names.iter().map(|name| name.to_string()).collect()
}

#[test]
fn the_standard_layout_is_two_up_then_release() {
    let layout = PayloadLayout::standard();
    assert_eq!(layout.levels_up(), 2);
    assert_eq!(layout.subdir(), "release");
    assert_eq!(layout.file_name(), "d3d9_hook_imgui_rs.dll");
}

#[test]
fn the_payload_sits_beside_the_injectors_directory() {
    let exe = path(&["home", "me", "hook", "target", "debug", "injector.exe"]);
    assert_eq!(
        PayloadLayout::standard().locate(exe),
        path(&["home", "me", "hook", "target", "release", "d3d9_hook_imgui_rs.dll"])
    );
}

#[test]
fn a_path_of_two_names_leads_to_the_root() {
    assert_eq!(
        PayloadLayout::standard().locate(path(&["bin", "injector.exe"])),
        path(&["release", "d3d9_hook_imgui_rs.dll"])
    );
}

#[test]
fn going_up_stops_at_the_root() {
    assert_eq!(
        PayloadLayout::standard().locate(path(&["injector.exe"])),
        path(&["release", "d3d9_hook_imgui_rs.dll"])
    );
    assert_eq!(
        PayloadLayout::standard().locate(Vec::new()),
        path(&["release", "d3d9_hook_imgui_rs.dll"])
    );
}

#[test]
fn a_layout_of_the_callers_choosing_is_followed() {
    let layout = PayloadLayout::new(1, "plugins".to_string(), "overlay.dll".to_string());
    assert_eq!(layout.levels_up(), 1);
    assert_eq!(layout.subdir(), "plugins");
    assert_eq!(layout.file_name(), "overlay.dll");
    assert_eq!(
        layout.locate(path(&["opt", "tool", "injector"])),
        path(&["opt", "tool", "plugins", "overlay.dll"])
    );
    let flat = PayloadLayout::new(0, "a".to_string(), "b".to_string());
    assert_eq!(flat.locate(path(&["x", "y"])), path(&["x", "y", "a", "b"]));
    let far = PayloadLayout::new(usize::MAX, "a".to_string(), "b".to_string());
    assert_eq!(far.locate(path(&["x", "y"])), path(&["a", "b"]));
}

#[test]
fn names_of_any_type_are_walked_alike() {
    let layout = PayloadLayout::new(2, 100u32, 200u32);
    assert_eq!(layout.locate(vec![1, 2, 3, 4]), vec![1, 2, 100, 200]);
    let paths = PayloadLayout::new(
        2,
        std::path::PathBuf::from("release"),
        std::path::PathBuf::from("d3d9_hook_imgui_rs.dll"),
    );
    let exe: Vec<std::path::PathBuf> =
        ["srv", "target", "debug", "injector"].iter().map(std::path::PathBuf::from).collect();
    let payload: std::path::PathBuf = paths.locate(exe).iter().collect();
    assert_eq!(payload, std::path::Path::new("srv/target/release/d3d9_hook_imgui_rs.dll"));
}
