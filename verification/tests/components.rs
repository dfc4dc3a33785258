use php_scanner::discovery::is_php_file;
use php_scanner::progress::percent_complete;

#[test]
fn percent_exact_values() {
    assert_eq!(percent_complete(0, 0), 100);
    assert_eq!(percent_complete(0, 7), 0);
    assert_eq!(percent_complete(5, 10), 50);
    assert_eq!(percent_complete(1, 3), 33);
    assert_eq!(percent_complete(2, 3), 66);
    assert_eq!(percent_complete(999, 1000), 99);
    assert_eq!(percent_complete(13, 13), 100);
}

#[test]
fn percent_never_underreports_completion() {
    // Each completed run reads exactly 100, even where real-valued
    // truncation would have landed on 99.
    for total in 1..200usize {
        assert_eq!(percent_complete(total, total), 100);
        assert!(percent_complete(total - 1, total) < 100);
    }
}

#[test]
fn php_extension_is_kept() {
    assert!(is_php_file(b"index.php"));
    assert!(is_php_file(b"a/b/c/evil.php"));
    assert!(is_php_file(b".php"));
}

#[test]
fn other_names_are_skipped() {
    assert!(!is_php_file(b""));
    assert!(!is_php_file(b"php"));
    assert!(!is_php_file(b"index.html"));
    assert!(!is_php_file(b"index.php.bak"));
    assert!(!is_php_file(b"index.PHP"));
    assert!(!is_php_file(b"index.phtml"));
}
