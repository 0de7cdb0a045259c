use std::collections::HashMap;

use term::terminfo::TermInfo;
use termdriver::DevFn;
use termdriver::Driver;
use termdriver::DriverError;

const REQUIRED: [&str; 12] = [
    "smcup", "rmcup", "cnorm", "civis", "cup", "clear", "sgr0", "smul", "bold", "rev", "setaf",
    "setab",
];

fn template_for(name: &str) -> Vec<u8> {
    match name {
        "cup" => b"\x1b[%p1%d;%p2%dH".to_vec(),
        "setaf" => b"\x1b[3%p1%dm".to_vec(),
        "setab" => b"\x1b[4%p1%dm".to_vec(),
        other => format!("<{}>", other).into_bytes(),
    }
}

fn full_terminfo() -> TermInfo {
    let mut strings: HashMap<&'static str, Vec<u8>> = HashMap::new();
    for name in REQUIRED {
        strings.insert(name, template_for(name));
    }
    TermInfo {
        names: Vec::new(),
        bools: HashMap::new(),
        numbers: HashMap::new(),
        strings,
    }
}

fn terminfo_without(missing: &str) -> TermInfo {
    let mut t = full_terminfo();
    t.strings.remove(missing);
    t
}

fn missing_name(e: DriverError) -> String {
    match e {
        DriverError::MissingCapability(s) => s,
    }
}

#[test]
fn construction_succeeds_with_full_db() {
    assert!(Driver::with_terminfo(full_terminfo()).is_ok());
}

#[test]
fn validation_accepts_a_full_db_and_rejects_an_empty_one() {
    assert!(termdriver::driver::validate_caps(&full_terminfo()).is_ok());
    let empty = TermInfo {
        names: Vec::new(),
        bools: HashMap::new(),
        numbers: HashMap::new(),
        strings: HashMap::new(),
    };
    let e = termdriver::driver::validate_caps(&empty).err().expect("must fail");
    assert_eq!(missing_name(e), "smcup");
}

#[test]
fn construction_fails_naming_each_missing_capability() {
    for name in REQUIRED {
        let r = Driver::with_terminfo(terminfo_without(name));
        match r {
            Ok(_) => panic!("construction succeeded without '{}'", name),
            Err(e) => assert_eq!(missing_name(e), name),
        }
    }
}

#[test]
fn construction_failure_names_the_first_missing_capability() {
    let mut t = full_terminfo();
    t.strings.remove("cnorm");
    t.strings.remove("setaf");
    let e = Driver::with_terminfo(t).err().expect("construction must fail");
    assert_eq!(missing_name(e), "cnorm");
}

#[test]
fn as_str_maps_each_operation_to_its_capability_name() {
    assert_eq!(DevFn::EnterCa.as_str(), "smcup");
    assert_eq!(DevFn::ExitCa.as_str(), "rmcup");
    assert_eq!(DevFn::ShowCursor.as_str(), "cnorm");
    assert_eq!(DevFn::HideCursor.as_str(), "civis");
    assert_eq!(DevFn::SetCursor(1, 2).as_str(), "cup");
    assert_eq!(DevFn::Clear.as_str(), "clear");
    assert_eq!(DevFn::Reset.as_str(), "sgr0");
    assert_eq!(DevFn::Underline.as_str(), "smul");
    assert_eq!(DevFn::Bold.as_str(), "bold");
    assert_eq!(DevFn::Blink.as_str(), "blink");
    assert_eq!(DevFn::Reverse.as_str(), "rev");
    assert_eq!(DevFn::SetFg(1).as_str(), "setaf");
    assert_eq!(DevFn::SetBg(1).as_str(), "setab");
}

#[test]
fn no_param_operations_return_raw_template_bytes() {
    let driver = Driver::with_terminfo(full_terminfo()).unwrap();
    let cases = [
        (DevFn::EnterCa, "smcup"),
        (DevFn::ExitCa, "rmcup"),
        (DevFn::ShowCursor, "cnorm"),
        (DevFn::HideCursor, "civis"),
        (DevFn::Clear, "clear"),
        (DevFn::Reset, "sgr0"),
        (DevFn::Underline, "smul"),
        (DevFn::Bold, "bold"),
        (DevFn::Reverse, "rev"),
    ];
    for (op, name) in cases {
        assert_eq!(driver.get(op), template_for(name), "for '{}'", name);
    }
}

#[test]
fn blink_returns_its_template_when_the_db_has_one() {
    let mut t = full_terminfo();
    t.strings.insert("blink", b"<blink>".to_vec());
    let driver = Driver::with_terminfo(t).unwrap();
    assert_eq!(driver.get(DevFn::Blink), b"<blink>".to_vec());
}

#[test]
fn blink_returns_no_bytes_when_the_db_lacks_it() {
    let driver = Driver::with_terminfo(full_terminfo()).unwrap();
    assert_eq!(driver.get(DevFn::Blink), Vec::<u8>::new());
}

#[test]
fn color_operations_substitute_the_code() {
    let driver = Driver::with_terminfo(full_terminfo()).unwrap();
    assert_eq!(driver.get(DevFn::SetFg(5)), b"\x1b[35m".to_vec());
    assert_eq!(driver.get(DevFn::SetBg(5)), b"\x1b[45m".to_vec());
}

#[test]
fn color_operations_share_a_template_under_distinct_names() {
    let mut t = full_terminfo();
    let shared = b"C%p1%d;".to_vec();
    t.strings.insert("setaf", shared.clone());
    t.strings.insert("setab", shared);
    let driver = Driver::with_terminfo(t).unwrap();
    assert_eq!(driver.get(DevFn::SetFg(5)), b"C5;".to_vec());
    assert_eq!(driver.get(DevFn::SetBg(5)), b"C5;".to_vec());
}

#[test]
fn set_cursor_substitutes_row_before_column() {
    let driver = Driver::with_terminfo(full_terminfo()).unwrap();
    // Column 3, row 7: the row goes first, by terminal convention.
    assert_eq!(driver.get(DevFn::SetCursor(3, 7)), b"\x1b[7;3H".to_vec());
}

#[test]
fn set_cursor_honours_the_increment_escape() {
    let mut t = full_terminfo();
    t.strings.insert("cup", b"\x1b[%i%p1%d;%p2%dH".to_vec());
    let driver = Driver::with_terminfo(t).unwrap();
    // %i increments both coordinates: row 7 -> 8, column 3 -> 4.
    assert_eq!(driver.get(DevFn::SetCursor(3, 7)), b"\x1b[8;4H".to_vec());
}

const XTERM256_SETAF: &[u8] =
    b"\x1b[%?%p1%{8}%<%t3%p1%d%e%p1%{16}%<%t9%p1%{8}%-%d%e38;5;%p1%d%;m";
const XTERM256_SETAB: &[u8] =
    b"\x1b[%?%p1%{8}%<%t4%p1%d%e%p1%{16}%<%t10%p1%{8}%-%d%e48;5;%p1%d%;m";

#[test]
fn xterm256_color_templates_expand() {
    let mut t = full_terminfo();
    t.strings.insert("setaf", XTERM256_SETAF.to_vec());
    t.strings.insert("setab", XTERM256_SETAB.to_vec());
    let driver = Driver::with_terminfo(t).unwrap();
    // Basic colors: first conditional branch.
    assert_eq!(driver.get(DevFn::SetFg(5)), b"\x1b[35m".to_vec());
    assert_eq!(driver.get(DevFn::SetBg(5)), b"\x1b[45m".to_vec());
    // Bright colors: the branch with the %- subtraction.
    assert_eq!(driver.get(DevFn::SetFg(13)), b"\x1b[95m".to_vec());
    assert_eq!(driver.get(DevFn::SetBg(13)), b"\x1b[105m".to_vec());
    // The 256-color tail branch.
    assert_eq!(driver.get(DevFn::SetFg(200)), b"\x1b[38;5;200m".to_vec());
    assert_eq!(driver.get(DevFn::SetBg(200)), b"\x1b[48;5;200m".to_vec());
}

#[test]
fn char_constant_template_expands() {
    let mut t = full_terminfo();
    t.strings.insert("setaf", b"%'A'%d;%p1%d".to_vec());
    let driver = Driver::with_terminfo(t).unwrap();
    assert_eq!(driver.get(DevFn::SetFg(7)), b"65;7".to_vec());
}

#[test]
fn addition_template_yields_no_bytes() {
    let mut t = full_terminfo();
    t.strings.insert("setaf", b"%p1%{1}%+%d".to_vec());
    let driver = Driver::with_terminfo(t).unwrap();
    assert_eq!(driver.get(DevFn::SetFg(5)), Vec::<u8>::new());
}

#[test]
fn lone_subtraction_template_yields_no_bytes() {
    // %- is admitted only straight after two pushed operands.
    let mut t = full_terminfo();
    t.strings.insert("setaf", b"%p1%d%-%d".to_vec());
    let driver = Driver::with_terminfo(t).unwrap();
    assert_eq!(driver.get(DevFn::SetFg(5)), Vec::<u8>::new());
}

#[test]
fn division_template_yields_no_bytes_instead_of_failing() {
    let mut t = full_terminfo();
    t.strings.insert("setaf", b"%{1}%{0}%/%d".to_vec());
    let driver = Driver::with_terminfo(t).unwrap();
    assert_eq!(driver.get(DevFn::SetFg(5)), Vec::<u8>::new());
}

#[test]
fn zero_parameter_index_template_yields_no_bytes() {
    let mut t = full_terminfo();
    t.strings.insert("cup", b"%p0%d".to_vec());
    let driver = Driver::with_terminfo(t).unwrap();
    assert_eq!(driver.get(DevFn::SetCursor(1, 2)), Vec::<u8>::new());
}

#[test]
fn repeated_increment_template_yields_no_bytes() {
    let mut t = full_terminfo();
    t.strings.insert("cup", b"%i%i%p1%d".to_vec());
    let driver = Driver::with_terminfo(t).unwrap();
    assert_eq!(driver.get(DevFn::SetCursor(1, 2)), Vec::<u8>::new());
}

#[test]
fn get_is_idempotent() {
    let driver = Driver::with_terminfo(full_terminfo()).unwrap();
    assert_eq!(driver.get(DevFn::Clear), driver.get(DevFn::Clear));
    assert_eq!(driver.get(DevFn::SetFg(7)), driver.get(DevFn::SetFg(7)));
    assert_eq!(
        driver.get(DevFn::SetCursor(4, 9)),
        driver.get(DevFn::SetCursor(4, 9))
    );
}

#[test]
fn drivers_over_the_same_db_agree() {
    let d1 = Driver::with_terminfo(full_terminfo()).unwrap();
    let d2 = Driver::with_terminfo(full_terminfo()).unwrap();
    let ops = [
        DevFn::EnterCa,
        DevFn::Clear,
        DevFn::SetCursor(2, 5),
        DevFn::SetFg(3),
        DevFn::SetBg(250),
    ];
    for op in ops {
        assert_eq!(d1.get(op), d2.get(op));
    }
}

#[test]
fn end_to_end_full_database() {
    let driver = Driver::with_terminfo(full_terminfo()).unwrap();
    assert_eq!(driver.get(DevFn::Clear), b"<clear>".to_vec());
    assert_eq!(driver.get(DevFn::SetCursor(10, 2)), b"\x1b[2;10H".to_vec());
}

#[test]
fn new_reports_only_required_capability_names() {
    // Whatever terminal description the environment offers, construction
    // either succeeds or names a required capability as missing.
    match Driver::new() {
        Ok(_) => {}
        Err(e) => {
            let name = missing_name(e);
            assert!(REQUIRED.contains(&name.as_str()), "unexpected '{}'", name);
        }
    }
}
