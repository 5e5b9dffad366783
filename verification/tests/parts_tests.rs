use rule_loader::config::{OutputOption, RuleExclude, StoredStatic};
use rule_loader::level::{passes_band, rank_of_level, standard_level_map};
use rule_loader::notice::{metadata_failure, parse_failure, read_failure, Notice, Severity};
use rule_loader::tables::LabelSet;
use rule_loader::text::{chars_of, contains_str, same_text};
use rule_loader::walk::{has_rule_extension, is_skipped_path};
use rule_loader::yaml::ParseYaml;

#[test]
fn substring_search() {
    assert!(contains_str("./rules/config/exclude_rules.txt", "exclude_rule"));
    assert!(!contains_str("./rules/config/noisy_rules.txt", "exclude_rule"));
    assert!(contains_str("abc", ""));
    assert!(contains_str("", ""));
    assert!(!contains_str("", "a"));
    assert!(!contains_str("ab", "abc"));
    assert!(contains_str("abc", "abc"));
    assert!(contains_str("aab", "ab"));
    assert!(contains_str("xxab", "ab"));
    assert!(!contains_str("abab", "ba b"));
    assert!(contains_str("naïve café", "ve c"));
    assert!(!contains_str("exclude_rul", "exclude_rule"));
}

#[test]
fn text_equality_and_characters() {
    assert!(same_text("yml", "yml"));
    assert!(!same_text("yml", "yaml"));
    assert!(!same_text("yml", "YML"));
    assert!(same_text("", ""));
    assert_eq!(chars_of("añb"), vec!['a', 'ñ', 'b']);
    assert_eq!(chars_of(""), Vec::<char>::new());
}

#[test]
fn ranks_of_the_standard_labels() {
    let ranks = standard_level_map();
    assert_eq!(rank_of_level(&ranks, Some("informational")), 1);
    assert_eq!(rank_of_level(&ranks, Some("low")), 2);
    assert_eq!(rank_of_level(&ranks, Some("Medium")), 3);
    assert_eq!(rank_of_level(&ranks, Some("HIGH")), 4);
    assert_eq!(rank_of_level(&ranks, Some("critical")), 5);
    assert_eq!(rank_of_level(&ranks, Some("severe")), 1);
    assert_eq!(rank_of_level(&ranks, Some("")), 1);
    assert_eq!(rank_of_level(&ranks, None), 1);
    assert_eq!(ranks.get_or("HIGH", 1), 4);
    assert_eq!(ranks.get_or("high", 1), 1);
    assert_eq!(ranks.get_or("", 0), 0);
}

#[test]
fn severity_band() {
    for rank in 1..=5u128 {
        for floor in 1..=5u128 {
            assert_eq!(passes_band(rank, floor, 0), rank >= floor);
        }
        for exact in 1..=5u128 {
            assert_eq!(passes_band(rank, 1, exact), rank == exact);
        }
    }
    assert!(!passes_band(3, 4, 3));
    assert!(passes_band(4, 4, 4));
}

#[test]
fn counts_rise_by_one() {
    let mut counts = ParseYaml::new(&StoredStatic {
        output_option: None,
        verbose_flag: false,
        quiet_errors_flag: false,
    })
    .rulecounter;
    assert_eq!(counts.get("Sigma"), None);
    counts.bump("Sigma");
    counts.bump("Sigma");
    counts.bump("Other");
    assert_eq!(counts.get("Sigma"), Some(2));
    assert_eq!(counts.get("Other"), Some(1));
    assert_eq!(counts.get_or("Hayabusa", 0), 0);
}

#[test]
fn room_is_measured_against_the_largest_count() {
    let mut counts = standard_level_map();
    assert!(counts.has_room(u128::MAX - 5));
    assert!(!counts.has_room(u128::MAX - 4));
    assert!(counts.has_room(0));
    counts.bump("CRITICAL");
    assert!(!counts.has_room(u128::MAX - 5));
    assert!(counts.has_room(u128::MAX - 6));
}

#[test]
fn loader_room_covers_every_table() {
    let s = StoredStatic { output_option: None, verbose_flag: false, quiet_errors_flag: false };
    let mut yaml = ParseYaml::new(&s);
    assert!(yaml.fits(usize::MAX));
    assert!(yaml.fits(0));
    yaml.level_map.bump("CRITICAL");
    assert!(yaml.fits(usize::MAX));
}

#[test]
fn barred_statuses_come_from_the_settings() {
    let set = LabelSet::from_labels(&Some(vec!["a".to_string(), "b".to_string(), "a".to_string()]));
    assert!(set.contains("a"));
    assert!(set.contains("b"));
    assert!(!set.contains("c"));
    assert!(!set.contains(""));
    let none = LabelSet::from_labels(&None);
    assert!(!none.contains("a"));
    let empty = LabelSet::from_labels(&Some(vec![]));
    assert!(!empty.contains("a"));
}

#[test]
fn settings_flags() {
    let none = StoredStatic { output_option: None, verbose_flag: false, quiet_errors_flag: false };
    assert!(!none.enables_noisy());
    assert!(!none.gates_status("deprecated"));
    assert!(!none.gates_status("unsupported"));
    let some = StoredStatic {
        output_option: Some(OutputOption {
            exclude_status: None,
            enable_noisy_rules: true,
            enable_deprecated_rules: false,
            enable_unsupported_rules: true,
        }),
        verbose_flag: false,
        quiet_errors_flag: false,
    };
    assert!(some.enables_noisy());
    assert!(some.gates_status("deprecated"));
    assert!(!some.gates_status("unsupported"));
    assert!(!some.gates_status("stable"));
    assert!(!some.gates_status("Deprecated"));
}

#[test]
fn later_reason_replaces_earlier() {
    let s = StoredStatic { output_option: None, verbose_flag: false, quiet_errors_flag: false };
    let mut list = RuleExclude::new();
    list.insert("a", "./rules/config/noisy_rules.txt");
    list.insert("a", "./rules/config/exclude_rules.txt");
    let mut yaml = ParseYaml::new(&s);
    let f = rule_loader::document::RuleFields {
        id: Some("a".to_string()),
        status: None,
        level: None,
        ruletype: None,
    };
    assert_eq!(yaml.evaluate(&f, "", "", &list, &s), rule_loader::admission::Verdict::Excluded);
    assert_eq!(yaml.rule_load_cnt.get("excluded"), Some(1));
    assert_eq!(yaml.rule_load_cnt.get("noisy"), Some(0));
}

#[test]
fn rule_files_and_skipped_trees() {
    assert!(has_rule_extension(&Some("yml".to_string())));
    assert!(!has_rule_extension(&Some("yaml".to_string())));
    assert!(!has_rule_extension(&Some("YML".to_string())));
    assert!(!has_rule_extension(&Some(String::new())));
    assert!(!has_rule_extension(&None));
    assert!(is_skipped_path("repo/.git/hooks/x.yml"));
    assert!(is_skipped_path("repo\\.git\\hooks\\x.yml"));
    assert!(is_skipped_path("hayabusa-rules/tools/sigmac/test_files/x.yml"));
    assert!(is_skipped_path("hayabusa-rules\\tools\\sigmac\\test_files\\x.yml"));
    assert!(!is_skipped_path("repo/.github/x.yml"));
    assert!(!is_skipped_path("repo/.git"));
    assert!(!is_skipped_path("rules/tools/sigmac/x.yml"));
    assert!(!is_skipped_path("rules/tools\\sigmac/test_files"));
}

#[test]
fn messages() {
    assert_eq!(metadata_failure("a/b"), "fail to read metadata of file: a/b");
    assert_eq!(read_failure("a/b.yml", "denied"), "fail to read file: a/b.yml\ndenied ");
    assert_eq!(parse_failure("a/b.yml", "bad at line 1 column 2"), "Failed to parse yml: a/b.yml\nbad at line 1 column 2 ");
    let verbose = StoredStatic { output_option: None, verbose_flag: true, quiet_errors_flag: false };
    let n = Notice::new(Severity::Error, "m".to_string(), &verbose);
    assert!(n.alert);
    assert!(n.record);
    assert_eq!(n.line(), "[ERROR] m");
    let quiet = StoredStatic { output_option: None, verbose_flag: false, quiet_errors_flag: true };
    let n = Notice::new(Severity::Warn, "m".to_string(), &quiet);
    assert!(!n.alert);
    assert!(!n.record);
    assert_eq!(n.line(), "[WARN] m");
}
