use hyperlight_vcpu::log_level::{
    get_max_log_level, guest_log_level_token, LEVEL_DEBUG, LEVEL_ERROR, LEVEL_INFO, LEVEL_OFF, LEVEL_TRACE,
    LEVEL_WARN,
};

#[test]
fn level_numbers() {
    assert_eq!(
        [LEVEL_OFF, LEVEL_ERROR, LEVEL_WARN, LEVEL_INFO, LEVEL_DEBUG, LEVEL_TRACE],
        [0, 1, 2, 3, 4, 5]
    );
    assert_eq!(LEVEL_ERROR, log::LevelFilter::Error as u32);
    assert_eq!(LEVEL_TRACE, log::LevelFilter::Trace as u32);
}

#[test]
fn level_names_are_read() {
    assert_eq!(get_max_log_level("off"), 0);
    assert_eq!(get_max_log_level("error"), 1);
    assert_eq!(get_max_log_level("warn"), 2);
    assert_eq!(get_max_log_level("info"), 3);
    assert_eq!(get_max_log_level("debug"), 4);
    assert_eq!(get_max_log_level("trace"), 5);
}

#[test]
fn level_names_ignore_ascii_case() {
    assert_eq!(get_max_log_level("OFF"), 0);
    assert_eq!(get_max_log_level("Error"), 1);
    assert_eq!(get_max_log_level("wArN"), 2);
    assert_eq!(get_max_log_level("INFO"), 3);
    assert_eq!(get_max_log_level("DeBuG"), 4);
    assert_eq!(get_max_log_level("TRACE"), 5);
    assert_eq!(get_max_log_level("hyperlight_guest=Off"), 0);
    assert_eq!(get_max_log_level("hyperlight_host=tRaCe"), 5);
}

#[test]
fn other_text_names_no_level() {
    assert_eq!(get_max_log_level("hyperlight_guest=trace,"), 5);
    assert_eq!(get_max_log_level(" info"), 1);
    assert_eq!(get_max_log_level("info "), 1);
    assert_eq!(get_max_log_level("warning"), 1);
    assert_eq!(get_max_log_level("inf"), 1);
    assert_eq!(get_max_log_level("3"), 1);
    assert_eq!(get_max_log_level("\u{131}nfo"), 1);
    assert_eq!(get_max_log_level("\u{212a}"), 1);
    assert_eq!(get_max_log_level("o\u{0}f"), 1);
    assert_eq!(get_max_log_level("off\u{e9}"), 1);
    assert_eq!(get_max_log_level("hyperlight_guest=o\u{fb00}"), 1);
    assert_eq!(get_max_log_level("hyperlight_guest=tr\u{e0}ce"), 1);
}

#[test]
fn token_of_guest_logger_comes_first() {
    assert_eq!(guest_log_level_token("hyperlight_guest=debug"), "debug");
    assert_eq!(guest_log_level_token("hyperlight_host=warn,hyperlight_guest=trace,info"), "trace");
    assert_eq!(guest_log_level_token("info,hyperlight_guest=trace"), "trace");
    assert_eq!(guest_log_level_token("hyperlight_guest::sub=info,hyperlight_guest=trace"), "info");
    assert_eq!(guest_log_level_token("my_hyperlight_guest_bin=warn"), "warn");
}

#[test]
fn token_of_host_logger_comes_second() {
    assert_eq!(guest_log_level_token("hyperlight_host=warn"), "warn");
    assert_eq!(guest_log_level_token("debug,hyperlight_host=warn"), "warn");
    assert_eq!(guest_log_level_token("other=trace,hyperlight_host::sandbox=error,info"), "error");
}

#[test]
fn token_is_first_bare_segment_otherwise() {
    assert_eq!(guest_log_level_token("info"), "info");
    assert_eq!(guest_log_level_token("other=trace,debug,warn"), "debug");
    assert_eq!(guest_log_level_token("a=b,c=d,trace"), "trace");
    assert_eq!(guest_log_level_token(",info"), "");
    assert_eq!(guest_log_level_token("info,"), "info");
}

#[test]
fn token_is_empty_where_nothing_fits() {
    assert_eq!(guest_log_level_token(""), "");
    assert_eq!(guest_log_level_token("other=trace"), "");
    assert_eq!(guest_log_level_token("a=b,c=d"), "");
    assert_eq!(guest_log_level_token("hyperlight_guest"), "");
    assert_eq!(guest_log_level_token("hyperlight_guest="), "");
    assert_eq!(guest_log_level_token("debug,hyperlight_host"), "");
}

#[test]
fn token_ends_at_second_equals_sign() {
    assert_eq!(guest_log_level_token("hyperlight_guest=info=debug"), "info");
    assert_eq!(guest_log_level_token("hyperlight_guest==debug"), "");
    assert_eq!(guest_log_level_token("x=hyperlight_host=debug"), "hyperlight_host");
}

#[test]
fn token_of_text_beyond_ascii() {
    assert_eq!(guest_log_level_token("caf\u{e9}=x,d\u{e9}bug,info"), "d\u{e9}bug");
    assert_eq!(guest_log_level_token("\u{1f600}=warn,hyperlight_guest=\u{1f600}tr,info"), "\u{1f600}tr");
    assert_eq!(guest_log_level_token("\u{e9}\u{e9},hyperlight_host=\u{e9}"), "\u{e9}");
}

#[test]
fn max_log_level_of_guest_logger() {
    assert_eq!(get_max_log_level("hyperlight_guest=debug"), 4);
    assert_eq!(get_max_log_level("hyperlight_host=warn,hyperlight_guest=TRACE"), 5);
    assert_eq!(get_max_log_level("hyperlight_guest=off,hyperlight_host=trace"), 0);
    assert_eq!(get_max_log_level("hyperlight_guest=info=debug"), 3);
}

#[test]
fn max_log_level_of_host_logger() {
    assert_eq!(get_max_log_level("hyperlight_host=warn"), 2);
    assert_eq!(get_max_log_level("trace,hyperlight_host=Info"), 3);
}

#[test]
fn max_log_level_of_bare_segment() {
    assert_eq!(get_max_log_level("info"), 3);
    assert_eq!(get_max_log_level("other=trace,debug"), 4);
    assert_eq!(get_max_log_level("off"), 0);
    assert_eq!(get_max_log_level("error"), 1);
}

#[test]
fn max_log_level_defaults_to_error() {
    assert_eq!(get_max_log_level(""), 1);
    assert_eq!(get_max_log_level("other=trace"), 1);
    assert_eq!(get_max_log_level("a=trace,b=debug"), 1);
    assert_eq!(get_max_log_level("hyperlight_guest=verbose"), 1);
    assert_eq!(get_max_log_level("hyperlight_guest"), 1);
    assert_eq!(get_max_log_level(",trace"), 1);
    assert_eq!(get_max_log_level(" trace"), 1);
    assert_eq!(get_max_log_level("hyperlight_guest= trace"), 1);
}
