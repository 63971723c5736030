use click_once::config::{
    is_logging_arg, parse_and_save_args, parse_u32_arg, split_command_line, ConfigError,
    ProgramConfig,
};
use click_once::engine::Thresholds;

fn defaults() -> Thresholds {
    Thresholds {
        left: 30,
        right: 0,
        middle: 0,
    }
}

fn args(list: &[&str]) -> Vec<Vec<u8>> {
    list.iter().map(|s| s.as_bytes().to_vec()).collect()
}

#[test]
fn parse_u32_accepts_plain_and_signed_numbers() {
    assert_eq!(parse_u32_arg(&b"0".to_vec()), Some(0));
    assert_eq!(parse_u32_arg(&b"42".to_vec()), Some(42));
    assert_eq!(parse_u32_arg(&b"+42".to_vec()), Some(42));
    assert_eq!(parse_u32_arg(&b"4294967295".to_vec()), Some(u32::MAX));
    assert_eq!(parse_u32_arg(&b"0030".to_vec()), Some(30));
}

#[test]
fn parse_u32_rejects_everything_else() {
    assert_eq!(parse_u32_arg(&b"".to_vec()), None);
    assert_eq!(parse_u32_arg(&b"+".to_vec()), None);
    assert_eq!(parse_u32_arg(&b"-1".to_vec()), None);
    assert_eq!(parse_u32_arg(&b"12a".to_vec()), None);
    assert_eq!(parse_u32_arg(&b" 42".to_vec()), None);
    assert_eq!(parse_u32_arg(&b"4294967296".to_vec()), None);
    assert_eq!(parse_u32_arg(&b"99999999999999999999".to_vec()), None);
}

#[test]
fn logging_keyword_ignores_case_and_whitespace() {
    assert!(is_logging_arg(&b"logging".to_vec()));
    assert!(is_logging_arg(&b"LOGGING".to_vec()));
    assert!(is_logging_arg(&b"Logging".to_vec()));
    assert!(is_logging_arg(&b"  logging\t".to_vec()));
    assert!(!is_logging_arg(&b"loggin".to_vec()));
    assert!(!is_logging_arg(&b"logging1".to_vec()));
    assert!(!is_logging_arg(&b"log ging".to_vec()));
    assert!(!is_logging_arg(&b"".to_vec()));
}

#[test]
fn no_arguments_keep_the_defaults() {
    let r = parse_and_save_args(&args(&[]), defaults(), false);
    assert_eq!(
        r,
        Ok(ProgramConfig {
            thresholds: defaults(),
            logging: false,
        })
    );
}

#[test]
fn numbers_fill_left_right_middle_in_order() {
    let r = parse_and_save_args(&args(&["10", "20", "30"]), defaults(), false);
    assert_eq!(
        r,
        Ok(ProgramConfig {
            thresholds: Thresholds {
                left: 10,
                right: 20,
                middle: 30,
            },
            logging: false,
        })
    );
}

#[test]
fn a_single_number_sets_only_the_left_threshold() {
    let r = parse_and_save_args(&args(&["55"]), defaults(), false);
    assert_eq!(
        r,
        Ok(ProgramConfig {
            thresholds: Thresholds {
                left: 55,
                right: 0,
                middle: 0,
            },
            logging: false,
        })
    );
}

#[test]
fn keyword_enables_logging_wherever_it_stands() {
    let r = parse_and_save_args(&args(&["10", "logging", "20"]), defaults(), false);
    assert_eq!(
        r,
        Ok(ProgramConfig {
            thresholds: Thresholds {
                left: 10,
                right: 20,
                middle: 0,
            },
            logging: true,
        })
    );
}

#[test]
fn already_enabled_logging_stays_enabled() {
    let r = parse_and_save_args(&args(&["10"]), defaults(), true);
    assert_eq!(r.unwrap().logging, true);
}

#[test]
fn an_unparsable_argument_names_its_position() {
    let r = parse_and_save_args(&args(&["10", "fast", "20"]), defaults(), false);
    assert_eq!(r, Err(ConfigError::InvalidArgument { position: 2 }));
}

#[test]
fn a_fourth_number_names_its_value() {
    let r = parse_and_save_args(&args(&["1", "2", "3", "4"]), defaults(), false);
    assert_eq!(r, Err(ConfigError::TooManyArguments { value: 4 }));
}

#[test]
fn the_keyword_does_not_count_as_a_number() {
    let r = parse_and_save_args(&args(&["1", "logging", "2", "3"]), defaults(), false);
    assert!(r.is_ok());
}

#[test]
fn split_skips_the_unquoted_program_name() {
    let r = split_command_line(&b"click-once.exe 10 20".to_vec());
    assert_eq!(r, vec![b"10".to_vec(), b"20".to_vec()]);
}

#[test]
fn split_skips_the_quoted_program_name() {
    let r = split_command_line(&b"\"C:\\Program Files\\click once.exe\" 10 logging".to_vec());
    assert_eq!(r, vec![b"10".to_vec(), b"logging".to_vec()]);
}

#[test]
fn split_drops_repeated_spaces() {
    let r = split_command_line(&b"prog   10    20 ".to_vec());
    assert_eq!(r, vec![b"10".to_vec(), b"20".to_vec()]);
}

#[test]
fn split_keeps_tabs_inside_arguments() {
    // Blanks right after the program name are skipped, tabs included...
    let r = split_command_line(&b"prog \tlogging".to_vec());
    assert_eq!(r, vec![b"logging".to_vec()]);
    // ...but only spaces separate arguments: a later tab stays part of its
    // argument (and the keyword check tolerates it).
    let r = split_command_line(&b"prog 10 \tlogging".to_vec());
    assert_eq!(r, vec![b"10".to_vec(), b"\tlogging".to_vec()]);
    assert!(is_logging_arg(&r[1]));
}

#[test]
fn split_of_a_bare_program_name_is_empty() {
    assert_eq!(split_command_line(&b"prog".to_vec()), Vec::<Vec<u8>>::new());
    assert_eq!(split_command_line(&b"".to_vec()), Vec::<Vec<u8>>::new());
    assert_eq!(split_command_line(&b"prog   ".to_vec()), Vec::<Vec<u8>>::new());
}

#[test]
fn split_feeds_parse_end_to_end() {
    let argv = split_command_line(&b"\"click once.exe\" 40 LOGGING 5".to_vec());
    let r = parse_and_save_args(&argv, defaults(), false);
    assert_eq!(
        r,
        Ok(ProgramConfig {
            thresholds: Thresholds {
                left: 40,
                right: 5,
                middle: 0,
            },
            logging: true,
        })
    );
}
