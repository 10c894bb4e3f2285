use hft_backtest::files::select_csv_files;

fn names(list: &[&str]) -> Vec<Vec<u8>> {
    list.iter().map(|s| s.as_bytes().to_vec()).collect()
}

#[test]
fn csv_files_are_selected_and_sorted() {
    let picked = select_csv_files(names(&[
        "b.csv", "a.csv", ".csv", "x.txt", "c.CSV", "..csv", "a.csv.bak", "csv", "xauusd_2024-01-02.csv",
        "xauusd_2024-01-01.csv",
    ]));
    assert_eq!(
        picked,
        names(&["..csv", "a.csv", "b.csv", "xauusd_2024-01-01.csv", "xauusd_2024-01-02.csv"])
    );
}

#[test]
fn csv_selection_agrees_with_path_extension() {
    for name in ["a.csv", ".csv", "..csv", "x.y.csv", "csv", ".a.csv", "a.csv.", "a.csvx", "a.cs"] {
        let by_path = std::path::Path::new(name).extension().and_then(|s| s.to_str()) == Some("csv");
        let picked = select_csv_files(names(&[name]));
        assert_eq!(picked.len() == 1, by_path, "name {}", name);
    }
}

#[test]
fn csv_selection_orders_like_paths() {
    let list = ["b.csv", "B.csv", "a_1.csv", "a.csv", "a-1.csv", "aa.csv", "Z.csv"];
    let mut paths: Vec<std::path::PathBuf> =
        list.iter().map(|n| std::path::Path::new("dir").join(n)).collect();
    paths.sort();
    let expected: Vec<Vec<u8>> =
        paths.iter().map(|p| p.file_name().unwrap().to_str().unwrap().as_bytes().to_vec()).collect();
    assert_eq!(select_csv_files(names(&list)), expected);
}

#[test]
fn empty_directory_gives_no_files() {
    assert!(select_csv_files(Vec::new()).is_empty());
    assert!(select_csv_files(names(&["readme.md"])).is_empty());
}
