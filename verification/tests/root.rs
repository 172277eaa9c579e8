use toshokan::component::content_viewer::Body;
use toshokan::component::DirEntry;
use toshokan::navigation::Load;
use toshokan::root::Root;

fn entry(name: &str, is_dir: bool) -> DirEntry {
    DirEntry { name: name.to_string(), is_dir, path: format!("/work/{}", name) }
}

fn started() -> Root {
    let (mut root, load) = Root::view(Some("/work".to_string()));
    assert!(matches!(load, Load::Directory(ref path) if path == "/work"));
    let found = vec![entry("b.txt", false), entry("A", true), entry("a.txt", false)];
    root.directory_loaded(Some(found));
    root
}

fn listed(root: &Root) -> Vec<String> {
    root.file_list().entries().iter().map(|entry| entry.name.clone()).collect()
}

#[test]
fn root_starts_with_an_empty_list() {
    let (root, _) = Root::view(None);
    assert_eq!(root.navigation().current_path(), "/");
    assert_eq!(root.header().current_path(), "/");
    assert_eq!(root.file_list().dir(), "/");
    assert!(root.file_list().entries().is_empty());
    assert!(root.file_list().get_selected_entry().is_none());
}

#[test]
fn list_shows_the_loaded_listing() {
    let root = started();
    assert_eq!(listed(&root), vec!["A", "a.txt", "b.txt"]);
    assert_eq!(root.navigation().entries(), root.file_list().entries());
    assert_eq!(root.file_list().dir(), "/work");
}

#[test]
fn picking_a_file_in_the_list_selects_it() {
    let mut root = started();
    let load = root.select_entry(entry("a.txt", false));
    assert!(matches!(load, Load::Text(ref path) if path == "/work/a.txt"));
    assert_eq!(root.file_list().get_selected_entry().unwrap().name, "a.txt");
    assert!(root.file_list().is_selected("/work/a.txt"));
    assert!(!root.file_list().is_selected("/work/b.txt"));
    assert_eq!(root.navigation().selected().unwrap().name, "a.txt");
    assert_eq!(root.navigation().current_path(), "/work");
    root.text_loaded(Ok("body".to_string()));
    assert_eq!(root.navigation().viewer().body(), Body::Text);
}

#[test]
fn picking_a_directory_in_the_list_moves_there() {
    let mut root = started();
    root.select_entry(entry("a.txt", false));
    let load = root.select_entry(entry("A", true));
    assert!(matches!(load, Load::Directory(ref path) if path == "/work/A"));
    assert_eq!(root.navigation().current_path(), "/work/A");
    assert_eq!(root.header().path_input(), "/work/A");
    assert!(root.navigation().selected().is_none());
    assert_eq!(listed(&root), vec!["A", "a.txt", "b.txt"]);
    let inside =
        DirEntry { name: "in.txt".to_string(), is_dir: false, path: "/work/A/in.txt".to_string() };
    root.directory_loaded(Some(vec![inside]));
    assert_eq!(listed(&root), vec!["in.txt"]);
    assert_eq!(root.file_list().dir(), "/work/A");
    assert!(root.file_list().get_selected_entry().is_none());
}

#[test]
fn root_rejects_a_path_that_is_no_directory() {
    let mut root = started();
    assert!(matches!(root.submit_path("/work/a.txt".to_string(), false), Load::Nothing));
    assert_eq!(root.navigation().current_path(), "/work");
    assert_eq!(listed(&root), vec!["A", "a.txt", "b.txt"]);
    root.begin_editing();
    assert!(matches!(root.key_down("x", false), Load::Nothing));
    assert!(root.needs_directory_check("enter"));
    assert!(matches!(root.key_down("enter", false), Load::Nothing));
    assert_eq!(root.navigation().current_path(), "/work");
    assert_eq!(root.header().path_input(), "/workx");
    assert_eq!(listed(&root), vec!["A", "a.txt", "b.txt"]);
}

#[test]
fn root_moves_to_an_accepted_path_and_back_up() {
    let mut root = started();
    let load = root.submit_path("/work/A".to_string(), true);
    assert!(matches!(load, Load::Directory(ref path) if path == "/work/A"));
    assert_eq!(root.header().current_path(), "/work/A");
    assert!(matches!(root.go_back(), Load::Directory(ref path) if path == "/work"));
    assert_eq!(root.navigation().current_path(), "/work");
    let load = root.navigate_to_directory("/tmp".to_string());
    assert!(matches!(load, Load::Directory(ref path) if path == "/tmp"));
    assert_eq!(root.header().path_input(), "/tmp");
}

#[test]
fn root_shows_a_failed_picture_load() {
    let mut root = started();
    root.directory_loaded(Some(vec![entry("x.webp", false)]));
    assert!(matches!(root.handle_item_click(entry("x.webp", false)), Load::Image(_)));
    root.image_loaded(Err("truncated".to_string()));
    assert_eq!(root.navigation().viewer().error().unwrap(), "truncated");
}

#[test]
fn unreadable_directory_shows_an_empty_list() {
    let mut root = started();
    root.select_entry(entry("a.txt", false));
    root.directory_loaded(None);
    assert!(root.file_list().entries().is_empty());
    assert!(root.navigation().entries().is_empty());
    assert!(root.navigation().selected().is_none());
}
