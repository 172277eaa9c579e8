use autocorrect::ignorer::Ignorer;
use toshokan::component::file_list::FileList;
use toshokan::component::file_tree::{
    build_file_items, is_consultable, is_hidden, level_items, visible_children, FileTree,
    FoundChild, KeptChild, TreeItem,
};
use toshokan::component::DirEntry;
use toshokan::ui::toolbar::ToolBar;

fn entry(name: &str, is_dir: bool) -> DirEntry {
    DirEntry { name: name.to_string(), is_dir, path: format!("/d/{}", name) }
}

fn item(name: &str, is_dir: bool) -> TreeItem {
    TreeItem::new(format!("./{}", name), Some(name.to_string()), is_dir)
}

#[test]
fn file_list_orders_what_was_found() {
    let found = vec![entry("b", false), entry("a", false), entry("c", true)];
    let list = FileList::new("/d".to_string(), Some(found));
    let names: Vec<&str> = list.entries().iter().map(|entry| entry.name.as_str()).collect();
    assert_eq!(names, vec!["c", "a", "b"]);
    assert_eq!(list.dir(), "/d");
    assert!(list.get_selected_entry().is_none());
    assert!(FileList::new("/gone".to_string(), None).entries().is_empty());
}

#[test]
fn file_list_remembers_the_pick_until_the_directory_changes() {
    let found = vec![entry("a", false), entry("b", false)];
    let mut list = FileList::new("/d".to_string(), Some(found));
    list.select_entry(entry("b", false));
    assert_eq!(list.get_selected_entry().unwrap(), &entry("b", false));
    assert!(list.is_selected("/d/b"));
    assert!(!list.is_selected("/d/a"));
    list.update_directory("/e".to_string(), Some(vec![entry("z", false), entry("y", true)]));
    assert!(list.get_selected_entry().is_none());
    assert!(!list.is_selected("/d/b"));
    assert_eq!(list.dir(), "/e");
    let names: Vec<&str> = list.entries().iter().map(|entry| entry.name.as_str()).collect();
    assert_eq!(names, vec!["y", "z"]);
}

#[test]
fn tree_item_is_labelled_by_its_name() {
    let named = TreeItem::new("./src/lib.rs".to_string(), Some("lib.rs".to_string()), false);
    assert_eq!(named.id(), "./src/lib.rs");
    assert_eq!(named.label(), "lib.rs");
    assert!(!named.is_directory());
    assert!(named.child_items().is_empty());
    let nameless = TreeItem::new("./odd".to_string(), None, false);
    assert_eq!(nameless.label(), "Unknown");
    let folder = item("src", true).children(vec![
        item("b.rs", false),
        item("a.rs", false),
        item("tests", true),
    ]);
    assert!(folder.is_directory());
    assert_eq!(folder.label(), "src");
    let inside: Vec<&str> =
        folder.child_items().iter().map(|item| item.label().as_str()).collect();
    assert_eq!(inside, vec!["tests", "a.rs", "b.rs"]);
}

#[test]
fn tree_level_puts_directories_first() {
    let ordered = build_file_items(vec![
        item("b.txt", false),
        item("A", true),
        item("a.txt", false),
        item("B", true),
        item("empty", true),
    ]);
    let labels: Vec<&str> = ordered.iter().map(|item| item.label().as_str()).collect();
    assert_eq!(labels, vec!["A", "B", "empty", "a.txt", "b.txt"]);
}

#[test]
fn tree_keeps_selection_and_root() {
    let mut tree = FileTree::view();
    assert_eq!(tree.root(), "./");
    assert!(tree.items().is_empty());
    assert!(tree.selected_path().is_none());
    assert!(tree.selected_item().is_none());
    tree.set_items(vec![item("a", false)]);
    tree.select_item(item("a", false));
    assert_eq!(tree.selected_path(), Some("./a".to_string()));
    assert_eq!(tree.selected_item().unwrap().label(), "a");
    tree.set_root_path("/elsewhere".to_string());
    assert_eq!(tree.root(), "/elsewhere");
    assert_eq!(tree.items().len(), 1);
    assert_eq!(tree.selected_path(), Some("./a".to_string()));
}

#[test]
fn rooted_and_broken_paths_are_not_consultable() {
    for path in ["", "a", "a/b", "src/main.rs", ".git", "./a", "a/./b", "a b/c", "caf\u{e9}/x"] {
        assert!(is_consultable(path), "{:?}", path);
    }
    for path in ["c:", "c:x", "a:b/c", "ab:/x", "1:/x", "a/bc:/x", "x/c:", ":/a", "a:", "c:.png"] {
        assert!(is_consultable(path), "{:?}", path);
    }
    for path in ["/", "/a", "\\a", "a//b", "a/\\b", ".//a", "a/b//"] {
        assert!(!is_consultable(path), "{:?}", path);
    }
    for path in ["c:/x", "C:\\x", "./c:/x", "a/b/Z:/", "a\\d:\\e"] {
        assert!(!is_consultable(path), "{:?}", path);
    }
}

#[test]
fn git_directory_is_hidden() {
    let ignorer = Ignorer::new("no-such-directory-for-rules");
    assert!(is_hidden(&ignorer, ".git", Some(".git")));
    assert!(is_hidden(&ignorer, "vendor/lib/.git", Some(".git")));
    assert!(is_hidden(&ignorer, "/abs/.git", Some(".git")));
    assert!(!is_hidden(&ignorer, ".gitignore", Some(".gitignore")));
    assert!(!is_hidden(&ignorer, "x.git", Some("x.git")));
    assert!(!is_hidden(&ignorer, "src/main.rs", Some("main.rs")));
    assert!(!is_hidden(&ignorer, "/abs/main.rs", Some("main.rs")));
    assert!(!is_hidden(&ignorer, "odd", None));
}

fn found(relative_path: &str, is_dir: bool) -> FoundChild {
    let name = relative_path.rsplit('/').next().unwrap().to_string();
    FoundChild {
        path: format!("/root/{}", relative_path),
        relative_path: relative_path.to_string(),
        name: Some(name),
        is_dir,
    }
}

#[test]
fn hidden_children_are_left_out_in_the_order_found() {
    let ignorer = Ignorer::new("no-such-directory-for-rules");
    let read = vec![
        found("b.txt", false),
        found(".git", true),
        found("a", true),
        found("sub/.git", false),
        found("b.txt", false),
        FoundChild {
            path: "/root/odd".to_string(),
            relative_path: "odd".to_string(),
            name: None,
            is_dir: false,
        },
    ];
    let kept = visible_children(&ignorer, Some(read));
    let paths: Vec<&str> = kept.iter().map(|child| child.relative_path.as_str()).collect();
    assert_eq!(paths, vec!["b.txt", "a", "b.txt", "odd"]);
    assert!(kept[1].is_dir);
    assert!(kept[3].name.is_none());
    assert_eq!(kept[0].path, "/root/b.txt");
}

#[test]
fn unreadable_tree_level_has_no_children() {
    let ignorer = Ignorer::new("no-such-directory-for-rules");
    assert!(visible_children(&ignorer, None).is_empty());
    assert!(visible_children(&ignorer, Some(Vec::new())).is_empty());
    assert!(level_items(Vec::new()).is_empty());
}

#[test]
fn level_items_stand_for_their_children() {
    let below = level_items(vec![
        KeptChild { child: found("src/z.rs", false), children: Vec::new() },
        KeptChild { child: found("src/deep", true), children: Vec::new() },
        KeptChild { child: found("src/a.rs", false), children: Vec::new() },
    ]);
    let stray = vec![TreeItem::new("/stray".to_string(), Some("stray".to_string()), false)];
    let nameless = FoundChild {
        path: "/root/odd".to_string(),
        relative_path: "odd".to_string(),
        name: None,
        is_dir: false,
    };
    let items = level_items(vec![
        KeptChild { child: found("readme.md", false), children: stray },
        KeptChild { child: found("src", true), children: below },
        KeptChild { child: nameless, children: Vec::new() },
        KeptChild { child: found("empty", true), children: Vec::new() },
    ]);
    let labels: Vec<&str> = items.iter().map(|item| item.label().as_str()).collect();
    assert_eq!(labels, vec!["empty", "src", "Unknown", "readme.md"]);
    assert!(items[0].is_directory() && items[0].child_items().is_empty());
    assert_eq!(items[1].id(), "/root/src");
    let inside: Vec<&str> =
        items[1].child_items().iter().map(|item| item.label().as_str()).collect();
    assert_eq!(inside, vec!["deep", "a.rs", "z.rs"]);
    assert_eq!(items[1].child_items()[1].id(), "/root/src/a.rs");
    assert_eq!(items[2].id(), "/root/odd");
    assert!(!items[3].is_directory());
    assert!(items[3].child_items().is_empty());
}

#[test]
fn children_are_held_in_order_at_every_level() {
    let deep = vec![
        KeptChild { child: found("a/b/z", false), children: Vec::new() },
        KeptChild { child: found("a/b/y", true), children: Vec::new() },
    ];
    let unordered_below = vec![
        TreeItem::new("/root/a/k".to_string(), Some("k".to_string()), false),
        TreeItem::new("/root/a/b".to_string(), Some("b".to_string()), true)
            .children(level_items(deep)),
        TreeItem::new("/root/a/c".to_string(), Some("c".to_string()), false),
    ];
    let items = level_items(vec![
        KeptChild { child: found("m", false), children: Vec::new() },
        KeptChild { child: found("a", true), children: unordered_below },
    ]);
    fn in_order(items: &[TreeItem]) -> bool {
        items.windows(2).all(|pair| {
            let (first, second) = (&pair[0], &pair[1]);
            (first.is_directory() && !second.is_directory())
                || (first.is_directory() == second.is_directory()
                    && first.label() <= second.label())
        }) && items.iter().all(|item| in_order(item.child_items()))
    }
    assert!(in_order(&items));
    let inside: Vec<&str> =
        items[0].child_items().iter().map(|item| item.label().as_str()).collect();
    assert_eq!(inside, vec!["b", "c", "k"]);
    let deeper: Vec<&str> = items[0].child_items()[0]
        .child_items()
        .iter()
        .map(|item| item.label().as_str())
        .collect();
    assert_eq!(deeper, vec!["y", "z"]);
}

#[test]
fn tool_bar_puts_the_tools_at_the_left() {
    let tools = vec!["open".to_string(), "save".to_string()];
    let bar = ToolBar::new(&tools);
    assert_eq!(bar.left_tools(), &tools);
    assert!(bar.right_tools().is_empty());
    assert!(ToolBar::new(&[]).left_tools().is_empty());
}
