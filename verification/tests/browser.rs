use linkly_tui::browser::{list_rows, DirItem, FileBrowser};

fn item(name: &str, is_dir: bool) -> DirItem {
    DirItem { name: name.to_string(), path: format!("/d/{name}"), is_dir }
}

#[test]
fn lists_parent_then_dirs_then_csv_files_sorted() {
    let items = vec![
        item("b.csv", false),
        item("Zeta", true),
        item(".hidden", true),
        item("target", true),
        item("notes.txt", false),
        item("A.CSV", false),
        item("alpha", true),
        item(".x.csv", false),
    ];
    let rows = list_rows(Some("/".to_string()), &items);
    let names: Vec<&str> = rows.iter().map(|r| r.name.as_str()).collect();
    assert_eq!(names, vec!["..", "alpha", "Zeta", "A.CSV", "b.csv"]);
    assert_eq!(rows[0].path, "/");
    assert!(rows[0].is_dir);
}

#[test]
fn browser_selection_moves_within_rows() {
    let items = vec![item("a.csv", false), item("b.csv", false)];
    let mut b = FileBrowser::new("/d".to_string(), None, &items);
    assert_eq!(b.selected, Some(0));
    b.move_up();
    assert_eq!(b.selected, Some(0));
    b.move_down();
    b.move_down();
    assert_eq!(b.selected, Some(1));
    assert_eq!(b.selected().unwrap().name, "b.csv");
    b.open_dir("/e".to_string(), Some("/".to_string()), &Vec::new());
    assert_eq!(b.dir, "/e");
    assert_eq!(b.selected, Some(0));
    assert_eq!(b.entries.len(), 1);
}
