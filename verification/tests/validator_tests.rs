use primenet_rs::{
    directory_entry_check, error_msg_with_jobs, error_msg_with_unwritten, f32_validator,
    gpu72_username_validator, numeric_validator, p95_username_validator, Gpu72DCTFWorkOption,
    Gpu72LLP1WorkOption, Gpu72LLTFWorkOption, Gpu72WorkType, PrimenetWorkType,
};

#[test]
fn numeric_accepts_plain_digit_strings() {
    assert!(numeric_validator("0".to_string()).is_ok());
    assert!(numeric_validator("123".to_string()).is_ok());
    assert!(numeric_validator("0009".to_string()).is_ok());
}

#[test]
fn numeric_rejects_empty_signs_and_other_text() {
    assert!(numeric_validator("".to_string()).is_err());
    assert!(numeric_validator("+5".to_string()).is_err());
    assert!(numeric_validator("-5".to_string()).is_err());
    assert!(numeric_validator("12a".to_string()).is_err());
    assert!(numeric_validator("1 2".to_string()).is_err());
}

#[test]
fn numeric_rejects_values_over_the_word_size() {
    assert!(numeric_validator("9999999999999999999999999999999999999999".to_string()).is_err());
}

#[test]
fn numeric_error_messages_name_the_input() {
    let e = numeric_validator("12a".to_string()).unwrap_err();
    assert_eq!(e, "Input '12a' is not all ASCII decimal digits.");
    let e = numeric_validator("".to_string()).unwrap_err();
    assert_eq!(
        e,
        "Invalid number: ''. Details: cannot parse integer from empty string"
    );
}

#[test]
fn p95_username_accepts_alphanumerics_dash_underscore() {
    assert!(p95_username_validator("user_name-01".to_string()).is_ok());
    assert!(p95_username_validator("".to_string()).is_ok());
}

#[test]
fn p95_username_rejects_spaces_and_non_ascii() {
    let e = p95_username_validator("user name".to_string()).unwrap_err();
    assert_eq!(
        e,
        "Username 'user name' contains a character that is not alphanumeric, '-', or '_'."
    );
    let e = p95_username_validator("us\u{e9}r".to_string()).unwrap_err();
    assert_eq!(e, "Username 'us\u{e9}r' is not ASCII.");
}

#[test]
fn gpu72_username_accepts_any_ascii() {
    assert!(gpu72_username_validator("who?!#".to_string()).is_ok());
    assert!(gpu72_username_validator("us\u{e9}r".to_string()).is_err());
}

#[test]
fn float_grammar_accepts_numbers_and_keywords() {
    for ok in [
        "1", "1.5", "-.5", "5.", "+2.5", "1e5", "1.e5", ".5e-3", "2.5E+7", "inf", "-INF", "NaN",
        "Infinity", "-infinity",
    ] {
        assert!(f32_validator(ok.to_string()).is_ok(), "should accept {:?}", ok);
    }
}

#[test]
fn float_grammar_rejects_malformed_text() {
    for bad in ["", ".", "-", "1e", "e5", "--1", "1.2.3", "nan(x)", "in", "1,5", " 1"] {
        assert!(f32_validator(bad.to_string()).is_err(), "should reject {:?}", bad);
    }
    let e = f32_validator("oops".to_string()).unwrap_err();
    assert_eq!(e, "Invalid f32: 'oops'. Details: invalid float literal");
}

#[test]
fn directory_check_wants_worktodo_and_results() {
    let both = vec!["/w/worktodo.txt".to_string(), "/w/results.txt".to_string()];
    assert!(directory_entry_check("/w", &both).is_ok());
    let ini = vec!["/w/worktodo.ini".to_string(), "/w/results.txt".to_string()];
    assert!(directory_entry_check("/w", &ini).is_ok());
}

#[test]
fn directory_check_names_what_is_missing() {
    let none: Vec<String> = vec!["/w/other".to_string()];
    assert_eq!(
        directory_entry_check("/w", &none).unwrap_err(),
        "Directory '/w' missing worktodo.txt/worktodo.ini and results.txt"
    );
    let only_work = vec!["/w/worktodo.txt".to_string()];
    assert_eq!(
        directory_entry_check("/w", &only_work).unwrap_err(),
        "Directory '/w' missing results.txt"
    );
    let only_results = vec!["/w/results.txt".to_string()];
    assert_eq!(
        directory_entry_check("/w", &only_results).unwrap_err(),
        "Directory '/w' missing worktodo.txt/worktodo.ini"
    );
}

#[test]
fn primenet_work_type_codes() {
    assert_eq!(PrimenetWorkType::TrialFactoring.as_str(), "2");
    assert_eq!(PrimenetWorkType::DoubleCheckLlTests.as_str(), "101");
    assert_eq!(
        PrimenetWorkType::DoubleCheckPrpTestsOnMersenneCofactors.as_str(),
        "161"
    );
}

#[test]
fn gpu72_work_type_addresses_and_options() {
    let (addr, opt) = Gpu72WorkType::LucasLehmerTrialFactor(Gpu72LLTFWorkOption::LmhBitFirst)
        .as_str();
    assert_eq!(addr, "https://www.gpu72.com/account/getassignments/lltf");
    assert_eq!(opt, "6");
    let (addr, opt) =
        Gpu72WorkType::DoubleCheckTrialFactor(Gpu72DCTFWorkOption::DoubleCheckAlreadyDone).as_str();
    assert_eq!(addr, "https://www.gpu72.com/account/getassignments/dctf");
    assert_eq!(opt, "5");
    let (addr, opt) = Gpu72WorkType::LucasLehmerP1(Gpu72LLP1WorkOption::OldestExponent).as_str();
    assert_eq!(addr, "https://www.gpu72.com/account/getassignments/llp-1");
    assert_eq!(opt, "4");
}

#[test]
fn diagnostic_lists_each_unwritten_job_on_its_own_line() {
    let jobs = vec!["a".to_string(), "b".to_string()];
    let msg = error_msg_with_jobs("boom", "Failed.", &jobs);
    assert_eq!(
        msg,
        "Failed.\n\nJobs queued to be written to worktodo:\na\nb\n\
         \nPlease add these to your worktodo manually.\n\nError: boom"
    );
}

#[test]
fn diagnostic_with_preformatted_block_keeps_it_verbatim() {
    let msg = error_msg_with_unwritten("io error", "Flush failed.", "a\nb\n");
    assert_eq!(
        msg,
        "Flush failed.\n\nJobs queued to be written to worktodo:\na\nb\n\
         \nPlease add these to your worktodo manually.\n\nError: io error"
    );
}
