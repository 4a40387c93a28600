use codetwin::names::{add_new, find_name, insert_sorted};
use codetwin::paths::{extract_module_name, parent_dir_name};
use codetwin::text::{
    comes_before, contains, ends_with, join, number_text, replace_all, sanitize, split_at_char,
    split_at_first, starts_with, strip_prefix, take_after_last, take_before_first,
    take_first_word, trim, trim_end_matches, trim_start_matches,
};

fn strings(items: &[&str]) -> Vec<String> {
    items.iter().map(|s| s.to_string()).collect()
}

#[test]
fn numbers_are_written_in_decimal() {
    assert_eq!(number_text(0), "0");
    assert_eq!(number_text(7), "7");
    assert_eq!(number_text(10), "10");
    assert_eq!(number_text(1234567890), "1234567890");
    assert_eq!(number_text(usize::MAX), usize::MAX.to_string());
}

#[test]
fn joining_and_splitting() {
    assert_eq!(join(&strings(&[]), ", "), "");
    assert_eq!(join(&strings(&["a"]), ", "), "a");
    assert_eq!(join(&strings(&["a", "", "c"]), ", "), "a, , c");
    assert_eq!(split_at_char("a,b,,c", ','), strings(&["a", "b", "", "c"]));
    assert_eq!(split_at_char("", ','), strings(&[""]));
    assert_eq!(split_at_char("a,", ','), strings(&["a", ""]));
    assert_eq!(
        split_at_first("from x import y import z", " import "),
        Some(("from x".to_string(), "y import z".to_string()))
    );
    assert_eq!(split_at_first("abc", "abcd"), None);
    assert_eq!(split_at_first("abc", ""), Some(("".to_string(), "abc".to_string())));
    assert_eq!(split_at_first("ab", "b"), Some(("a".to_string(), "".to_string())));
}

#[test]
fn searching() {
    assert!(starts_with("src/lib.rs", "src/"));
    assert!(!starts_with("sr", "src/"));
    assert!(starts_with("x", ""));
    assert!(ends_with("__init__", "__"));
    assert!(!ends_with("_", "__"));
    assert!(contains("rust_driver", "driver"));
    assert!(contains("driver", "driver"));
    assert!(!contains("drive", "driver"));
    assert!(contains("abc", ""));
    assert!(contains("", ""));
    assert_eq!(strip_prefix("import os", "import "), Some("os".to_string()));
    assert_eq!(strip_prefix("importos", "import "), None);
}

#[test]
fn replacing() {
    assert_eq!(replace_all("a::b::c", "::", "/"), "a/b/c");
    assert_eq!(replace_all("aaa", "aa", "b"), "ba");
    assert_eq!(replace_all("abc", "", "x"), "abc");
    assert_eq!(replace_all("abc", "abcd", "x"), "abc");
    assert_eq!(replace_all("xx", "x", "xx"), "xxxx");
}

#[test]
fn trimming() {
    assert_eq!(trim("  a b \n\t"), "a b");
    assert_eq!(trim(" \u{a0}\u{2003} "), "");
    assert_eq!(trim(""), "");
    assert_eq!(trim_start_matches("...pkg.mod", '.'), "pkg.mod");
    assert_eq!(trim_start_matches("...", '.'), "");
    assert_eq!(trim_end_matches("(a))", ')'), "(a");
    assert_eq!(take_before_first("a.b.c", '.'), "a");
    assert_eq!(take_before_first("abc", '.'), "abc");
    assert_eq!(take_before_first(".abc", '.'), "");
    assert_eq!(take_after_last("a.b.c", '.'), "c");
    assert_eq!(take_after_last("abc", '.'), "abc");
    assert_eq!(take_after_last("abc.", '.'), "");
    assert_eq!(take_first_word("  sys as system"), Some("sys".to_string()));
    assert_eq!(take_first_word("os"), Some("os".to_string()));
    assert_eq!(take_first_word(" \t "), None);
}

#[test]
fn sanitizing() {
    assert_eq!(sanitize("a-b.c d/e!", false, true), "a_b_cde");
    assert_eq!(sanitize("a-b.c d/e!", true, true), "a_b_c_d_e");
    assert_eq!(sanitize("a-b.c d/e!", true, false), "a_b_c_d_e!");
    assert_eq!(sanitize("caf\u{e9}_9", true, true), "caf\u{e9}_9");
}

#[test]
fn the_order_of_strings() {
    assert!(comes_before("a", "b"));
    assert!(comes_before("", "a"));
    assert!(comes_before("ab", "abc"));
    assert!(comes_before("B", "a"));
    assert!(comes_before("z", "\u{e9}"));
    assert!(!comes_before("a", "a"));
    assert!(!comes_before("b", "a"));
    assert!(!comes_before("", ""));
    let mut words = strings(&["pear", "Apple", "fig", "apple", "", "figs", "\u{e9}clair"]);
    let mut sorted = Vec::new();
    for word in words.iter() {
        insert_sorted(&mut sorted, word.clone());
    }
    insert_sorted(&mut sorted, "fig".to_string());
    words.sort();
    assert_eq!(sorted, words);
}

#[test]
fn name_lists() {
    let names = strings(&["a", "b", "a"]);
    assert_eq!(find_name(&names, "a"), Some(0));
    assert_eq!(find_name(&names, "b"), Some(1));
    assert_eq!(find_name(&names, "c"), None);
    let mut list = strings(&["x"]);
    add_new(&mut list, &strings(&["y", "x", "y", "z"]));
    assert_eq!(list, strings(&["x", "y", "z"]));
}

#[test]
fn path_parts() {
    assert_eq!(extract_module_name("src/engine.rs"), "engine");
    assert_eq!(extract_module_name("archive.tar.gz"), "archive.tar");
    assert_eq!(extract_module_name(".hidden"), ".hidden");
    assert_eq!(extract_module_name(".."), "unknown");
    assert_eq!(parent_dir_name("src/core/x.rs"), Some("core".to_string()));
    assert_eq!(parent_dir_name("src/util.rs"), Some("src".to_string()));
    assert_eq!(parent_dir_name("util.rs"), None);
    assert_eq!(parent_dir_name("/"), None);
}
