use credsort::catalog::{hash_types, HashValue};
use credsort::classifier::{
    apply_rule, classify, is_email, sort_line, sort_raw_line, Classified, Outcome, Record,
};
use credsort::config::{check_rules, get_config_2, ConfigError, UserInput, WorkType};
use credsort::hash_regex::{HashType, PatternError};
use credsort::tokenizer::default_spliters;
use std::collections::HashMap;

fn default_input() -> UserInput {
    UserInput {
        files: vec![String::from("dump.txt")],
        config: false,
        prefix: String::from("result"),
        spliters: vec![String::from(":"), String::from(":")],
        split_min: None,
        split_max: None,
        len_index: None,
        len_min: vec![5],
        len_max: vec![40],
        to_lower_index: None,
        email_index: None,
        hash_index: None,
        hash_types: HashType::vec(),
    }
}

fn default_rules() -> Vec<WorkType> {
    get_config_2(&default_input())
}

fn run(rules: &Vec<WorkType>, line: &str) -> Classified {
    assert!(check_rules(rules).is_ok());
    sort_line(rules, &hash_types(), &default_spliters(), String::from(line)).unwrap()
}

fn bad(label: &str) -> Outcome {
    Outcome::Bad(String::from(label))
}

#[test]
fn default_pipeline_accepts_and_lowercases() {
    let rules = vec![
        WorkType::SpliterLimit(2, 3),
        WorkType::LenLimit(0, 5, 40),
        WorkType::LenLimit(1, 5, 137),
        WorkType::ToLower(0),
        WorkType::IsEmail(0),
        WorkType::IsHash(1),
    ];
    let sorted = run(&rules, "User@Example.com:Passw0rd!");
    assert_eq!(sorted.outcome, Outcome::Good);
    assert_eq!(sorted.line, "user@example.com:Passw0rd!");
}

#[test]
fn default_rules_are_the_documented_list() {
    assert_eq!(
        default_rules(),
        vec![
            WorkType::SpliterLimit(2, 3),
            WorkType::LenLimit(0, 5, 40),
            WorkType::LenLimit(1, 5, 137),
            WorkType::ToLower(0),
            WorkType::IsEmail(0),
            WorkType::IsHash(1),
        ]
    );
}

#[test]
fn default_rules_pass_the_index_check() {
    assert_eq!(check_rules(&default_rules()), Ok(()));
}

#[test]
fn custom_config_builds_rules_in_group_order() {
    let mut input = default_input();
    input.config = true;
    input.split_min = Some(2);
    input.len_index = Some(vec![0, 1, 2]);
    input.len_min = vec![5, 6];
    input.len_max = vec![40];
    input.to_lower_index = Some(vec![0]);
    input.email_index = Some(vec![0]);
    input.hash_index = Some(vec![1, 2]);
    assert_eq!(
        get_config_2(&input),
        vec![
            WorkType::SpliterLimit(2, 4294967294),
            WorkType::LenLimit(0, 5, 40),
            WorkType::LenLimit(1, 6, 40),
            WorkType::LenLimit(2, 5, 40),
            WorkType::ToLower(0),
            WorkType::IsEmail(0),
            WorkType::IsHash(1),
            WorkType::IsHash(2),
        ]
    );
}

#[test]
fn custom_config_without_options_is_empty() {
    let mut input = default_input();
    input.config = true;
    assert_eq!(get_config_2(&input), Vec::<WorkType>::new());
}

#[test]
fn custom_config_uses_given_upper_count_and_fallback_bounds() {
    let mut input = default_input();
    input.config = true;
    input.split_min = Some(1);
    input.split_max = Some(9);
    input.len_index = Some(vec![3]);
    input.len_min = vec![];
    input.len_max = vec![];
    assert_eq!(
        get_config_2(&input),
        vec![WorkType::SpliterLimit(1, 9), WorkType::LenLimit(3, 0, usize::MAX)]
    );
}

#[test]
fn split_max_alone_adds_no_rule() {
    let mut input = default_input();
    input.config = true;
    input.split_max = Some(9);
    assert_eq!(get_config_2(&input), Vec::<WorkType>::new());
}

#[test]
fn index_check_names_the_first_rule_out_of_range() {
    let rules = vec![
        WorkType::LenLimit(0, 1, 5),
        WorkType::SpliterLimit(2, 3),
        WorkType::IsEmail(1),
        WorkType::IsHash(2),
        WorkType::ToLower(7),
    ];
    assert_eq!(check_rules(&rules), Err(ConfigError::FieldOutOfRange { rule: 3, field: 2 }));
}

#[test]
fn index_check_rejects_second_field_without_count_rule() {
    let rules = vec![WorkType::LenLimit(1, 1, 5)];
    assert_eq!(check_rules(&rules), Err(ConfigError::FieldOutOfRange { rule: 0, field: 1 }));
}

#[test]
fn index_check_accepts_first_field_and_empty_list() {
    assert_eq!(check_rules(&vec![WorkType::ToLower(0)]), Ok(()));
    assert_eq!(check_rules(&Vec::new()), Ok(()));
}

#[test]
fn index_check_keeps_the_larger_lower_bound() {
    let rules =
        vec![WorkType::SpliterLimit(3, 5), WorkType::SpliterLimit(1, 5), WorkType::IsHash(2)];
    assert_eq!(check_rules(&rules), Ok(()));
}

#[test]
fn field_count_outside_range_is_split_limiter() {
    let rules = default_rules();
    let one = run(&rules, "lonely-value");
    assert_eq!(one.outcome, bad("split_limiter"));
    assert_eq!(one.line, "lonely-value");
    let four = run(&rules, "a@b.cc:pass1:x:y");
    assert_eq!(four.outcome, bad("split_limiter"));
}

#[test]
fn field_length_outside_range_is_len_limit() {
    let rules = default_rules();
    assert_eq!(run(&rules, "a@b:password").outcome, bad("len_limit"));
    assert_eq!(run(&rules, "user@example.com:abcd").outcome, bad("len_limit"));
    assert_eq!(run(&rules, "user@example.com:abcde").outcome, Outcome::Good);
}

#[test]
fn field_length_counts_bytes() {
    let rules = vec![WorkType::LenLimit(0, 4, 4)];
    assert_eq!(run(&rules, "\u{e9}\u{e9}").outcome, Outcome::Good);
    assert_eq!(run(&rules, "abcd").outcome, Outcome::Good);
    assert_eq!(run(&rules, "\u{e9}\u{e9}\u{e9}\u{e9}").outcome, bad("len_limit"));
}

#[test]
fn email_rule_accepts_and_rejects() {
    assert_eq!(is_email("user@example.com"), Ok(true));
    assert_eq!(is_email("not-an-email"), Ok(false));
    let rules = vec![WorkType::IsEmail(0)];
    assert_eq!(run(&rules, "user@example.com").outcome, Outcome::Good);
    let rejected = run(&rules, "not-an-email");
    assert_eq!(rejected.outcome, bad("not_email"));
    assert_eq!(rejected.line, "not-an-email");
}

#[test]
fn email_rule_is_case_insensitive_with_bounded_domain_suffix() {
    assert_eq!(is_email("USER@EXAMPLE.COM"), Ok(true));
    assert_eq!(is_email("a.b+c-d_e@sub.example.museum"), Ok(true));
    assert_eq!(is_email("user@example.c"), Ok(false));
    assert_eq!(is_email("user@example.abcdefgh"), Ok(false));
    assert_eq!(is_email("@example.com"), Ok(false));
}

#[test]
fn first_failing_rule_names_the_bucket() {
    let too_short_and_no_email = "ab:password";
    let length_first = vec![WorkType::LenLimit(0, 5, 40), WorkType::IsEmail(0)];
    let email_first = vec![WorkType::IsEmail(0), WorkType::LenLimit(0, 5, 40)];
    assert_eq!(run(&length_first, too_short_and_no_email).outcome, bad("len_limit"));
    assert_eq!(run(&email_first, too_short_and_no_email).outcome, bad("not_email"));
}

#[test]
fn rules_after_a_rejection_do_not_touch_the_line() {
    let rules = vec![WorkType::IsEmail(0), WorkType::ToLower(0)];
    let sorted = run(&rules, "NOT-AN-EMAIL;Secret");
    assert_eq!(sorted.outcome, bad("not_email"));
    assert_eq!(sorted.line, "NOT-AN-EMAIL;Secret");
}

#[test]
fn lowercase_rejoins_with_colon() {
    let rules = vec![WorkType::ToLower(0)];
    let sorted = run(&rules, "USER;Pass;X");
    assert_eq!(sorted.outcome, Outcome::Good);
    assert_eq!(sorted.line, "user:Pass:X");
}

#[test]
fn lowercase_changes_only_the_named_field() {
    let rules = vec![WorkType::SpliterLimit(2, 2), WorkType::ToLower(1)];
    let sorted = run(&rules, "User:PASS");
    assert_eq!(sorted.line, "User:pass");
}

#[test]
fn line_is_untouched_without_lowercase_rule() {
    let rules = vec![WorkType::SpliterLimit(2, 3)];
    let sorted = run(&rules, "User;Pass");
    assert_eq!(sorted.line, "User;Pass");
}

#[test]
fn hash_in_password_field_names_the_family() {
    let rules = default_rules();
    let sorted = run(&rules, "user@example.com:5f4dcc3b5aa765d61d8327deb882cf99");
    assert_eq!(sorted.outcome, bad("[MD5]_[0]"));
    assert_eq!(sorted.line, "user@example.com:5f4dcc3b5aa765d61d8327deb882cf99");
}

#[test]
fn hash_in_three_field_record_gets_salt_marker() {
    let rules = default_rules();
    let sorted = run(&rules, "user@example.com:5f4dcc3b5aa765d61d8327deb882cf99:abc");
    assert_eq!(sorted.outcome, bad("[MD5]_[0]_[SALT]"));
}

#[test]
fn hash_match_ends_the_evaluation() {
    let rules =
        vec![WorkType::SpliterLimit(2, 2), WorkType::IsHash(1), WorkType::LenLimit(0, 50, 60)];
    let sorted = run(&rules, "user:5f4dcc3b5aa765d61d8327deb882cf99");
    assert_eq!(sorted.outcome, bad("[MD5]_[0]"));
}

#[test]
fn same_record_classifies_alike_twice() {
    let rules = default_rules();
    let catalog = hash_types();
    let spliters = default_spliters();
    for line in ["User@Example.com:Passw0rd!", "x", "a@b.cc:5f4dcc3b5aa765d61d8327deb882cf99"] {
        let first = sort_line(&rules, &catalog, &spliters, String::from(line));
        let second = sort_line(&rules, &catalog, &spliters, String::from(line));
        assert_eq!(first, second);
    }
}

#[test]
fn empty_rule_list_accepts_everything() {
    let sorted = run(&Vec::new(), "anything at all");
    assert_eq!(sorted.outcome, Outcome::Good);
    assert_eq!(sorted.line, "anything at all");
}

#[test]
fn raw_line_is_decoded_with_replacement() {
    let rules = vec![WorkType::SpliterLimit(2, 2)];
    let sorted =
        sort_raw_line(&rules, &hash_types(), &default_spliters(), b"us\xffer:pass").unwrap();
    assert_eq!(sorted.outcome, Outcome::Good);
    assert_eq!(sorted.line, "us\u{fffd}er:pass");
}

#[test]
fn raw_line_of_valid_text_is_kept() {
    let sorted = sort_raw_line(&default_rules(), &hash_types(), &default_spliters(), b"x").unwrap();
    assert_eq!(sorted.outcome, bad("split_limiter"));
    assert_eq!(sorted.line, "x");
}

#[test]
fn classify_takes_a_record_as_given() {
    let record = Record {
        fields: vec![String::from("A"), String::from("B"), String::from("C")],
        line: String::from("A|B|C"),
    };
    let rules = vec![WorkType::SpliterLimit(3, 3), WorkType::ToLower(2)];
    let sorted = classify(&rules, &hash_types(), record).unwrap();
    assert_eq!(sorted.outcome, Outcome::Good);
    assert_eq!(sorted.line, "A:B:c");
}

#[test]
fn apply_rule_reports_rejection_and_keeps_record() {
    let mut record =
        Record { fields: vec![String::from("Abc")], line: String::from("Abc") };
    let kept = record.clone();
    let r = apply_rule(WorkType::SpliterLimit(2, 3), &hash_types(), &mut record);
    assert_eq!(r, Ok(Some(String::from("split_limiter"))));
    assert_eq!(record, kept);
    let r = apply_rule(WorkType::ToLower(0), &hash_types(), &mut record);
    assert_eq!(r, Ok(None));
    assert_eq!(record.fields, vec![String::from("abc")]);
    assert_eq!(record.line, "abc");
}

#[test]
fn pattern_that_does_not_compile_is_an_error() {
    let mut catalog: HashMap<usize, Vec<HashValue>> = HashMap::new();
    catalog.insert(
        4,
        vec![HashValue {
            name: HashType::MD5,
            regex: String::from("("),
            ignore_case: true,
            hc: String::from("[BROKEN]"),
        }],
    );
    let rules = vec![WorkType::IsHash(0)];
    let spliters = default_spliters();
    assert_eq!(
        sort_line(&rules, &catalog, &spliters, String::from("abcd")),
        Err(PatternError::Invalid)
    );
    let other_length = sort_line(&rules, &catalog, &spliters, String::from("abcde")).unwrap();
    assert_eq!(other_length.outcome, Outcome::Good);
}
