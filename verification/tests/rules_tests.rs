use prefixload::rules::{match_rule, remote_key, starts_with_prefix, DirectoryEntry};

fn entry(prefix: &str, dir: &str) -> DirectoryEntry {
    DirectoryEntry {
        local_name_prefix: prefix.to_string(),
        remote_path: dir.to_string(),
    }
}

#[test]
fn prefix_matching_is_literal() {
    assert!(starts_with_prefix("backup_1.txt", "backup_"));
    assert!(starts_with_prefix("backup_", "backup_"));
    assert!(starts_with_prefix("anything", ""));
    assert!(!starts_with_prefix("backup", "backup_"));
    assert!(!starts_with_prefix("abackup_1", "backup_"));
    assert!(!starts_with_prefix("", "a"));
}

#[test]
fn prefix_matching_counts_characters_not_bytes() {
    assert!(starts_with_prefix("héllo.txt", "hé"));
    assert!(!starts_with_prefix("héllo.txt", "hè"));
    assert!(starts_with_prefix("данные_1.bin", "данные_"));
}

#[test]
fn unmatched_name_selects_no_rule() {
    let rules = vec![entry("backup_", "backups"), entry("db_", "db")];
    assert_eq!(match_rule("some_other_file.txt", &rules), None);
    assert_eq!(match_rule("", &rules), None);
}

#[test]
fn earlier_rule_wins_when_both_match() {
    // Both prefixes start the name; the one configured first is used.
    let rules = vec![entry("data", "first"), entry("data_", "second")];
    assert_eq!(match_rule("data_2024.bin", &rules), Some(0));

    // With the order reversed, the now-earlier rule is selected instead.
    let reversed = vec![entry("data_", "second"), entry("data", "first")];
    assert_eq!(match_rule("data_2024.bin", &reversed), Some(0));
}

#[test]
fn first_matching_rule_is_selected_in_order() {
    let rules = vec![
        entry("zzz", "never"),
        entry("db_", "db"),
        entry("d", "broad"),
    ];
    assert_eq!(match_rule("db_1.sql", &rules), Some(1));
    assert_eq!(match_rule("dump.bin", &rules), Some(2));
}

#[test]
fn remote_key_joins_with_a_single_slash() {
    assert_eq!(remote_key("backups", "backup_1.txt"), "backups/backup_1.txt");
    assert_eq!(remote_key("dir1/", "f.bin"), "dir1/f.bin");
    assert_eq!(remote_key("", "f.bin"), "f.bin");
    assert_eq!(remote_key("a/b", "c.txt"), "a/b/c.txt");
}
