use rule_loader::admission::Verdict;
use rule_loader::config::{OutputOption, RuleExclude, StoredStatic};
use rule_loader::document::{load_documents, RuleFields};
use rule_loader::yaml::ParseYaml;

const RESERVED: &str = "00000000-0000-0000-0000-000000000000";

fn settings(noisy: bool, deprecated: bool, unsupported: bool) -> StoredStatic {
    StoredStatic {
        output_option: Some(OutputOption {
            exclude_status: None,
            enable_noisy_rules: noisy,
            enable_deprecated_rules: deprecated,
            enable_unsupported_rules: unsupported,
        }),
        verbose_flag: false,
        quiet_errors_flag: false,
    }
}

fn fields(id: Option<&str>, status: Option<&str>, level: Option<&str>, ruletype: Option<&str>) -> RuleFields {
    RuleFields {
        id: id.map(String::from),
        status: status.map(String::from),
        level: level.map(String::from),
        ruletype: ruletype.map(String::from),
    }
}

fn listed(id: &str, reason: &str) -> RuleExclude {
    let mut list = RuleExclude::new();
    list.insert(id, reason);
    list
}

#[test]
fn fresh_loader_is_seeded() {
    let yaml = ParseYaml::new(&settings(false, false, false));
    assert_eq!(yaml.files.len(), 0);
    assert_eq!(yaml.errorrule_count, 0);
    assert_eq!(yaml.rule_load_cnt.get("excluded"), Some(0));
    assert_eq!(yaml.rule_load_cnt.get("noisy"), Some(0));
    assert_eq!(yaml.rule_status_cnt.get("deprecated"), Some(0));
    assert_eq!(yaml.rule_status_cnt.get("unsupported"), Some(0));
    assert_eq!(yaml.rule_status_cnt.get("undefined"), None);
    assert_eq!(yaml.rulecounter.get("Other"), None);
    assert_eq!(yaml.level_map.get("INFORMATIONAL"), Some(1));
    assert_eq!(yaml.level_map.get("LOW"), Some(2));
    assert_eq!(yaml.level_map.get("MEDIUM"), Some(3));
    assert_eq!(yaml.level_map.get("HIGH"), Some(4));
    assert_eq!(yaml.level_map.get("CRITICAL"), Some(5));
    assert_eq!(yaml.level_map.get("critical"), None);
    assert!(!yaml.exclude_status.contains("stable"));
}

#[test]
fn plain_rule_is_admitted_and_counted() {
    let s = settings(false, false, false);
    let mut yaml = ParseYaml::new(&s);
    let v = yaml.evaluate(&fields(Some("a"), None, None, None), "", "", &RuleExclude::new(), &s);
    assert_eq!(v, Verdict::Admitted);
    assert_eq!(yaml.rulecounter.get("Other"), Some(1));
    assert_eq!(yaml.rule_status_cnt.get("undefined"), Some(1));
    assert_eq!(yaml.rule_load_cnt.get("excluded"), Some(0));
    assert_eq!(yaml.rule_load_cnt.get("noisy"), Some(0));
    // The list of admitted rules is the business of the caller.
    assert_eq!(yaml.files.len(), 0);
}

#[test]
fn excluded_rule_is_rejected_and_counted_once() {
    let s = settings(true, true, true);
    let mut yaml = ParseYaml::new(&s);
    let list = listed("a", "./rules/config/exclude_rules.txt");
    let v = yaml.evaluate(&fields(Some("a"), Some("stable"), Some("high"), Some("Sigma")), "", "", &list, &s);
    assert_eq!(v, Verdict::Excluded);
    assert_eq!(yaml.rule_load_cnt.get("excluded"), Some(1));
    assert_eq!(yaml.rule_load_cnt.get("noisy"), Some(0));
    assert_eq!(yaml.rulecounter.get("Sigma"), None);
    assert_eq!(yaml.rule_status_cnt.get("stable"), None);
}

#[test]
fn reserved_rule_is_rejected_and_not_counted() {
    let s = settings(false, false, false);
    let mut yaml = ParseYaml::new(&s);
    let list = listed(RESERVED, "./rules/config/exclude_rules.txt");
    let v = yaml.evaluate(&fields(Some(RESERVED), None, None, None), "", "", &list, &s);
    assert_eq!(v, Verdict::Excluded);
    assert_eq!(yaml.rule_load_cnt.get("excluded"), Some(0));
    assert_eq!(yaml.rule_load_cnt.get("noisy"), Some(0));

    let noisy = listed(RESERVED, "./rules/config/noisy_rules.txt");
    let v = yaml.evaluate(&fields(Some(RESERVED), None, None, None), "", "", &noisy, &s);
    assert_eq!(v, Verdict::Noisy);
    assert_eq!(yaml.rule_load_cnt.get("noisy"), Some(0));
}

#[test]
fn noisy_rule_is_admitted_only_where_enabled() {
    let list = listed("n", "./rules/config/noisy_rules.txt");
    let off = settings(false, false, false);
    let mut yaml = ParseYaml::new(&off);
    let v = yaml.evaluate(&fields(Some("n"), None, None, None), "", "", &list, &off);
    assert_eq!(v, Verdict::Noisy);
    assert_eq!(yaml.rule_load_cnt.get("noisy"), Some(1));
    assert_eq!(yaml.rulecounter.get("Other"), None);

    let on = settings(true, false, false);
    let mut yaml = ParseYaml::new(&on);
    let v = yaml.evaluate(&fields(Some("n"), None, None, None), "", "", &list, &on);
    assert_eq!(v, Verdict::Admitted);
    assert_eq!(yaml.rule_load_cnt.get("noisy"), Some(1));
    assert_eq!(yaml.rule_load_cnt.get("excluded"), Some(0));
    assert_eq!(yaml.rulecounter.get("Other"), Some(1));
}

#[test]
fn noisy_rule_without_output_options_is_rejected() {
    let list = listed("n", "noisy");
    let s = StoredStatic { output_option: None, verbose_flag: false, quiet_errors_flag: false };
    let mut yaml = ParseYaml::new(&s);
    let v = yaml.evaluate(&fields(Some("n"), None, None, None), "", "", &list, &s);
    assert_eq!(v, Verdict::Noisy);
}

#[test]
fn enabled_noisy_rule_of_barred_status_counts_twice() {
    let list = listed("n", "./rules/config/noisy_rules.txt");
    let mut s = settings(true, false, false);
    s.output_option.as_mut().unwrap().exclude_status = Some(vec!["test".to_string(), "experimental".to_string()]);
    let mut yaml = ParseYaml::new(&s);
    assert!(yaml.exclude_status.contains("test"));
    assert!(yaml.exclude_status.contains("experimental"));
    assert!(!yaml.exclude_status.contains("stable"));
    let v = yaml.evaluate(&fields(Some("n"), Some("experimental"), None, None), "", "", &list, &s);
    assert_eq!(v, Verdict::StatusExcluded);
    assert_eq!(yaml.rule_load_cnt.get("noisy"), Some(1));
    assert_eq!(yaml.rule_load_cnt.get("excluded"), Some(1));
    assert_eq!(yaml.rule_status_cnt.get("experimental"), None);
}

#[test]
fn barred_status_wins_over_status_flag() {
    let mut s = settings(false, false, false);
    s.output_option.as_mut().unwrap().exclude_status = Some(vec!["deprecated".to_string()]);
    let mut yaml = ParseYaml::new(&s);
    let v = yaml.evaluate(&fields(None, Some("deprecated"), None, None), "", "", &RuleExclude::new(), &s);
    assert_eq!(v, Verdict::StatusExcluded);
    assert_eq!(yaml.rule_load_cnt.get("excluded"), Some(1));
    assert_eq!(yaml.rule_status_cnt.get("deprecated"), Some(0));
}

#[test]
fn deprecated_rule_is_held_back_unless_enabled() {
    let off = settings(false, false, false);
    let mut yaml = ParseYaml::new(&off);
    let f = fields(Some("d"), Some("deprecated"), Some("high"), Some("Sigma"));
    assert_eq!(yaml.evaluate(&f, "", "", &RuleExclude::new(), &off), Verdict::StatusGated);
    assert_eq!(yaml.rule_status_cnt.get("deprecated"), Some(1));
    assert_eq!(yaml.rulecounter.get("Sigma"), None);

    let on = settings(false, true, false);
    let mut yaml = ParseYaml::new(&on);
    assert_eq!(yaml.evaluate(&f, "", "", &RuleExclude::new(), &on), Verdict::Admitted);
    assert_eq!(yaml.rule_status_cnt.get("deprecated"), Some(1));
    assert_eq!(yaml.rulecounter.get("Sigma"), Some(1));
}

#[test]
fn unsupported_rule_is_held_back_unless_enabled() {
    let off = settings(false, true, false);
    let mut yaml = ParseYaml::new(&off);
    let f = fields(None, Some("unsupported"), None, None);
    assert_eq!(yaml.evaluate(&f, "", "", &RuleExclude::new(), &off), Verdict::StatusGated);
    assert_eq!(yaml.rule_status_cnt.get("unsupported"), Some(1));

    let on = settings(false, false, true);
    let mut yaml = ParseYaml::new(&on);
    assert_eq!(yaml.evaluate(&f, "", "", &RuleExclude::new(), &on), Verdict::Admitted);
    assert_eq!(yaml.rule_status_cnt.get("unsupported"), Some(1));
}

#[test]
fn status_flags_are_idle_without_output_options() {
    let s = StoredStatic { output_option: None, verbose_flag: false, quiet_errors_flag: false };
    let mut yaml = ParseYaml::new(&s);
    let f = fields(None, Some("deprecated"), None, None);
    assert_eq!(yaml.evaluate(&f, "", "", &RuleExclude::new(), &s), Verdict::Admitted);
    assert_eq!(yaml.rule_status_cnt.get("deprecated"), Some(1));
}

#[test]
fn level_is_compared_without_regard_to_case() {
    let s = settings(false, false, false);
    let mut yaml = ParseYaml::new(&s);
    let list = RuleExclude::new();
    assert_eq!(yaml.evaluate(&fields(None, None, Some("High"), None), "HIGH", "", &list, &s), Verdict::Admitted);
    assert_eq!(yaml.evaluate(&fields(None, None, Some("critical"), None), "HIGH", "", &list, &s), Verdict::Admitted);
    assert_eq!(yaml.evaluate(&fields(None, None, Some("MEDIUM"), None), "HIGH", "", &list, &s), Verdict::OutOfBand);
    assert_eq!(yaml.evaluate(&fields(None, None, Some("urgent"), None), "LOW", "", &list, &s), Verdict::OutOfBand);
    assert_eq!(yaml.evaluate(&fields(None, None, None, None), "LOW", "", &list, &s), Verdict::OutOfBand);
    assert_eq!(yaml.evaluate(&fields(None, None, None, None), "INFORMATIONAL", "", &list, &s), Verdict::Admitted);
    // The floor itself is looked up as it is written.
    assert_eq!(yaml.evaluate(&fields(None, None, Some("low"), None), "high", "", &list, &s), Verdict::Admitted);
    assert_eq!(yaml.rulecounter.get("Other"), Some(7));
}

#[test]
fn exact_level_admits_only_that_rank() {
    let s = settings(false, false, false);
    let mut yaml = ParseYaml::new(&s);
    let list = RuleExclude::new();
    assert_eq!(yaml.evaluate(&fields(None, None, Some("medium"), None), "", "MEDIUM", &list, &s), Verdict::Admitted);
    assert_eq!(yaml.evaluate(&fields(None, None, Some("high"), None), "", "MEDIUM", &list, &s), Verdict::OutOfBand);
    assert_eq!(yaml.evaluate(&fields(None, None, Some("low"), None), "", "MEDIUM", &list, &s), Verdict::OutOfBand);
    // A floor above the exact rank leaves nothing.
    assert_eq!(yaml.evaluate(&fields(None, None, Some("medium"), None), "CRITICAL", "MEDIUM", &list, &s), Verdict::OutOfBand);
    // An unknown exact label restricts nothing.
    assert_eq!(yaml.evaluate(&fields(None, None, Some("high"), None), "", "medium", &list, &s), Verdict::Admitted);
}

#[test]
fn fields_are_read_from_the_top_of_a_document() {
    let docs = load_documents(
        "r.yml",
        "id: abc\nstatus: stable\nlevel: High\nruletype: Sigma\ndetection:\n  id: inner\n",
    )
    .unwrap();
    assert_eq!(docs.len(), 1);
    assert_eq!(docs[0].0, "r.yml");
    let f = RuleFields::extract(&docs[0].1);
    assert_eq!(f.id.as_deref(), Some("abc"));
    assert_eq!(f.status.as_deref(), Some("stable"));
    assert_eq!(f.level.as_deref(), Some("High"));
    assert_eq!(f.ruletype.as_deref(), Some("Sigma"));
}

#[test]
fn fields_that_are_no_text_count_as_absent() {
    let docs = load_documents("r.yml", "id: 17\nstatus: [a, b]\nlevel: true\n---\n- just\n- a list\n---\n").unwrap();
    assert_eq!(docs.len(), 3);
    for (_, doc) in &docs {
        let f = RuleFields::extract(doc);
        assert_eq!(f.id, None);
        assert_eq!(f.status, None);
        assert_eq!(f.level, None);
        assert_eq!(f.ruletype, None);
    }
}

#[test]
fn empty_text_holds_no_document() {
    assert_eq!(load_documents("r.yml", "").unwrap().len(), 0);
}

#[test]
fn batch_appends_admitted_rules_in_order() {
    let s = settings(false, false, false);
    let mut yaml = ParseYaml::new(&s);
    let docs = load_documents(
        "r.yml",
        "id: a\nlevel: high\n---\nid: b\nlevel: low\n---\nid: c\nlevel: critical\nstatus: deprecated\n---\nid: d\nlevel: critical\n",
    )
    .unwrap();
    assert!(yaml.fits(docs.len()));
    yaml.admit_batch(docs, "HIGH", "", &listed("d", "exclude_rule"), &s);
    let ids: Vec<&str> = yaml.files.iter().map(|(_, d)| d["id"].as_str().unwrap()).collect();
    assert_eq!(ids, vec!["a"]);
    assert_eq!(yaml.rulecounter.get("Other"), Some(2));
    assert_eq!(yaml.rule_status_cnt.get("undefined"), Some(2));
    assert_eq!(yaml.rule_status_cnt.get("deprecated"), Some(1));
    assert_eq!(yaml.rule_load_cnt.get("excluded"), Some(1));
}
