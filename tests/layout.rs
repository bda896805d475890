use appdmg::{
    file_name, layout_entries, DmgConfig, DmgContent, DmgWindow, DmgWindowSize, ItemKind,
    LayoutEntry,
};

fn item(x: u32, y: u32, kind: &str, path: &str, name: Option<&str>) -> DmgContent {
    DmgContent {
        x,
        y,
        type_: kind.to_string(),
        path: path.to_string(),
        name: name.map(|n| n.to_string()),
    }
}

fn config(width: u32, height: u32, icon_size: f64, contents: Vec<DmgContent>) -> DmgConfig {
    DmgConfig {
        title: "Test".to_string(),
        icon: "icon.icns".to_string(),
        background: "background.png".to_string(),
        icon_size_bits: icon_size.to_bits(),
        window: DmgWindow { size: DmgWindowSize { width, height } },
        contents,
    }
}

fn icon(name: &str, x: u32, y: u32) -> LayoutEntry {
    LayoutEntry::IconPlacement { name: name.to_string(), x, y }
}

#[test]
fn two_files_without_background() {
    let c = config(
        400,
        300,
        96.0,
        vec![
            item(100, 100, "file", "/tmp/src/App.app", None),
            item(300, 100, "file", "/tmp/src/README", None),
        ],
    );
    let entries = layout_entries(&c, None);
    assert_eq!(
        entries,
        vec![
            icon("App.app", 100, 100),
            icon("README", 300, 100),
            LayoutEntry::WindowBounds { width: 400, height: 300 },
            LayoutEntry::ViewParameters { icon_size_bits: 96.0f64.to_bits(), background_alias: None },
        ]
    );
}

#[test]
fn one_entry_per_item_plus_bounds_and_view() {
    let c = config(
        640,
        480,
        128.0,
        vec![
            item(10, 20, "file", "a.txt", None),
            item(30, 40, "link", "/Applications", None),
            item(50, 60, "file", "b.txt", Some("Bee")),
        ],
    );
    let entries = layout_entries(&c, Some(vec![1, 2, 3]));
    assert_eq!(entries.len(), 5);
    assert_eq!(entries[0], icon("a.txt", 10, 20));
    assert_eq!(entries[1], icon("Applications", 30, 40));
    assert_eq!(entries[2], icon("Bee", 50, 60));
    assert_eq!(entries[3], LayoutEntry::WindowBounds { width: 640, height: 480 });
    assert_eq!(
        entries[4],
        LayoutEntry::ViewParameters {
            icon_size_bits: 128.0f64.to_bits(),
            background_alias: Some(vec![1, 2, 3]),
        }
    );
}

#[test]
fn duplicate_names_each_keep_an_entry() {
    let c = config(
        400,
        300,
        96.0,
        vec![item(1, 2, "file", "/x/Tool", None), item(3, 4, "file", "/y/Tool/", None)],
    );
    let entries = layout_entries(&c, None);
    assert_eq!(entries.len(), 4);
    assert_eq!(entries[0], icon("Tool", 1, 2));
    assert_eq!(entries[1], icon("Tool", 3, 4));
}

#[test]
fn licence_is_left_unplaced() {
    let c = config(
        400,
        300,
        96.0,
        vec![
            item(1, 2, "file", "/docs/license", None),
            item(3, 4, "file", "/docs/LICENSE.txt", Some("license")),
            item(5, 6, "file", "/docs/License", None),
        ],
    );
    let entries = layout_entries(&c, None);
    assert_eq!(
        entries,
        vec![
            icon("License", 5, 6),
            LayoutEntry::WindowBounds { width: 400, height: 300 },
            LayoutEntry::ViewParameters { icon_size_bits: 96.0f64.to_bits(), background_alias: None },
        ]
    );
}

#[test]
fn missing_background_gives_no_alias() {
    let c = config(200, 100, 48.0, vec![]);
    let entries = layout_entries(&c, None);
    assert_eq!(entries.len(), 2);
    assert_eq!(
        entries[1],
        LayoutEntry::ViewParameters { icon_size_bits: 48.0f64.to_bits(), background_alias: None }
    );
}

#[test]
fn display_name_prefers_override() {
    assert_eq!(item(0, 0, "file", "/a/b.app", Some("Named")).display_name(), "Named");
    assert_eq!(item(0, 0, "file", "/a/b.app", None).display_name(), "b.app");
    assert_eq!(item(0, 0, "file", "/", None).display_name(), "file");
    assert_eq!(item(0, 0, "file", "x/..", None).display_name(), "file");
}

#[test]
fn kinds_follow_the_type_tag() {
    assert_eq!(item(0, 0, "file", "a", None).kind(), ItemKind::File);
    assert_eq!(item(0, 0, "link", "a", None).kind(), ItemKind::Link);
    assert_eq!(item(0, 0, "File", "a", None).kind(), ItemKind::Other);
    assert_eq!(item(0, 0, "", "a", None).kind(), ItemKind::Other);
}

#[test]
fn final_components() {
    assert_eq!(file_name("/usr/bin/"), Some("bin".to_string()));
    assert_eq!(file_name("tmp/foo.txt"), Some("foo.txt".to_string()));
    assert_eq!(file_name("foo.txt/."), Some("foo.txt".to_string()));
    assert_eq!(file_name("foo.txt/.//"), Some("foo.txt".to_string()));
    assert_eq!(file_name("a//b"), Some("b".to_string()));
    assert_eq!(file_name(".hidden"), Some(".hidden".to_string()));
    assert_eq!(file_name("..."), Some("...".to_string()));
    assert_eq!(file_name("ünï/cödé"), Some("cödé".to_string()));
    assert_eq!(file_name("foo.txt/.."), None);
    assert_eq!(file_name(".."), None);
    assert_eq!(file_name("."), None);
    assert_eq!(file_name("./"), None);
    assert_eq!(file_name("/"), None);
    assert_eq!(file_name(""), None);
}
