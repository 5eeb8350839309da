use seqgrep::args::{ConfigurationError, GrepArgs, GrepCommand, InputMode, PatternRole};
use seqgrep::processor::GrepProcessor;

fn strings(items: &[&str]) -> Vec<String> {
    items.iter().map(|s| s.to_string()).collect()
}

fn options() -> GrepArgs {
    GrepArgs {
        pat1: Vec::new(),
        pat2: Vec::new(),
        pat: Vec::new(),
        reg1: Vec::new(),
        reg2: Vec::new(),
        reg: Vec::new(),
        invert: false,
    }
}

fn command(inputs: &[&str], grep: GrepArgs) -> GrepCommand {
    GrepCommand { inputs: strings(inputs), output: None, threads: 1, grep }
}

#[test]
fn options_without_a_pattern_are_refused() {
    let args = options();
    assert_eq!(args.validate(), Err(ConfigurationError::NoPatterns));
    let mut inverted = options();
    inverted.invert = true;
    assert_eq!(inverted.validate(), Err(ConfigurationError::NoPatterns));
}

#[test]
fn one_pattern_in_any_list_is_enough() {
    let mut a = options();
    a.pat1 = strings(&["A"]);
    assert_eq!(a.validate(), Ok(()));
    let mut a = options();
    a.pat2 = strings(&["A"]);
    assert_eq!(a.validate(), Ok(()));
    let mut a = options();
    a.pat = strings(&["A"]);
    assert_eq!(a.validate(), Ok(()));
    let mut a = options();
    a.reg1 = strings(&["A"]);
    assert_eq!(a.validate(), Ok(()));
    let mut a = options();
    a.reg2 = strings(&["A"]);
    assert_eq!(a.validate(), Ok(()));
    let mut a = options();
    a.reg = strings(&["A"]);
    assert_eq!(a.validate(), Ok(()));
}

#[test]
fn validate_does_not_compile_anything() {
    let mut a = options();
    a.reg = strings(&["("]);
    assert_eq!(a.validate(), Ok(()));
}

#[test]
fn fixed_builders_keep_count_and_order() {
    let mut a = options();
    a.pat1 = strings(&["AC", "GT", "T"]);
    a.pat2 = strings(&["CC"]);
    a.pat = strings(&["GG", "AA"]);
    let mp1 = a.bytes_mp1();
    let mp2 = a.bytes_mp2();
    let pat = a.bytes_pat();
    let needles = |fs: &Vec<memchr::memmem::Finder<'static>>| -> Vec<Vec<u8>> {
        fs.iter().map(|f| f.needle().to_vec()).collect()
    };
    assert_eq!(needles(&mp1), vec![b"AC".to_vec(), b"GT".to_vec(), b"T".to_vec()]);
    assert_eq!(needles(&mp2), vec![b"CC".to_vec()]);
    assert_eq!(needles(&pat), vec![b"GG".to_vec(), b"AA".to_vec()]);
}

#[test]
fn regex_builders_keep_count_and_order() {
    let mut a = options();
    a.reg1 = strings(&["^A", "C+"]);
    a.reg2 = strings(&["G$"]);
    a.reg = strings(&["T{2}", "A|C", "."]);
    let sources = |rs: Vec<regex::bytes::Regex>| -> Vec<String> {
        rs.iter().map(|r| r.as_str().to_string()).collect()
    };
    assert_eq!(sources(a.bytes_reg1().unwrap()), strings(&["^A", "C+"]));
    assert_eq!(sources(a.bytes_reg2().unwrap()), strings(&["G$"]));
    assert_eq!(sources(a.bytes_reg().unwrap()), strings(&["T{2}", "A|C", "."]));
}

#[test]
fn built_expressions_find_what_their_sources_say() {
    let mut a = options();
    a.reg1 = strings(&["^a", "C+"]);
    let built = a.bytes_reg1().unwrap();
    assert!(built[0].is_match(b"ac"));
    assert!(!built[0].is_match(b"Ac"));
    assert!(!built[0].is_match(b"ca"));
    assert_eq!(built[1].find(b"ACCCG").map(|m| (m.start(), m.end())), Some((1, 4)));
    assert!(!built[1].is_match(b"AGT"));
}

#[test]
fn empty_lists_build_empty_lists() {
    let a = options();
    assert!(a.bytes_mp1().is_empty());
    assert!(a.bytes_mp2().is_empty());
    assert!(a.bytes_pat().is_empty());
    assert!(a.bytes_reg1().unwrap().is_empty());
    assert!(a.bytes_reg2().unwrap().is_empty());
    assert!(a.bytes_reg().unwrap().is_empty());
}

#[test]
fn first_source_that_does_not_compile_is_named() {
    let mut a = options();
    a.reg1 = strings(&["A+", "(", "["]);
    assert_eq!(
        a.bytes_reg1().err(),
        Some(ConfigurationError::InvalidRegex { role: PatternRole::Primary, index: 1 })
    );
    let mut a = options();
    a.reg2 = strings(&["a{2,1}"]);
    assert_eq!(
        a.bytes_reg2().err(),
        Some(ConfigurationError::InvalidRegex { role: PatternRole::Secondary, index: 0 })
    );
    let mut a = options();
    a.reg = strings(&["A", "C", "G", "*"]);
    assert_eq!(
        a.bytes_reg().err(),
        Some(ConfigurationError::InvalidRegex { role: PatternRole::Either, index: 3 })
    );
}

#[test]
fn building_a_worker_stops_at_the_first_list_that_fails() {
    let mut a = options();
    a.reg1 = strings(&["A"]);
    a.reg2 = strings(&["C", "("]);
    a.reg = strings(&["("]);
    assert_eq!(
        a.build_processor().err(),
        Some(ConfigurationError::InvalidRegex { role: PatternRole::Secondary, index: 1 })
    );
    a.reg1 = strings(&[")"]);
    assert_eq!(
        a.build_processor().err(),
        Some(ConfigurationError::InvalidRegex { role: PatternRole::Primary, index: 0 })
    );
    a.reg1 = strings(&["A"]);
    a.reg2 = strings(&["C"]);
    assert_eq!(
        a.build_processor().err(),
        Some(ConfigurationError::InvalidRegex { role: PatternRole::Either, index: 0 })
    );
}

#[test]
fn building_a_worker_starts_with_nothing_buffered() {
    let mut a = options();
    a.pat1 = strings(&["A"]);
    let mut w = a.build_processor().unwrap();
    let out = w.on_batch_complete();
    assert!(out.bytes.is_empty());
    assert_eq!(out.matches, 0);
}

#[test]
fn new_worker_decides_by_what_it_was_given() {
    let mut a = options();
    a.pat1 = strings(&["AC"]);
    a.reg2 = strings(&["^G"]);
    let w = GrepProcessor::new(
        a.bytes_mp1(),
        a.bytes_mp2(),
        a.bytes_pat(),
        a.bytes_reg1().unwrap(),
        a.bytes_reg2().unwrap(),
        a.bytes_reg().unwrap(),
        true,
    );
    assert!(!w.pattern_match(b"TACT", b"GG"));
    assert!(w.pattern_match(b"TACT", b"CG"));
    assert!(w.pattern_match(b"TTTT", b"GG"));
}

#[test]
fn one_input_is_single_and_two_are_paired() {
    let mut a = options();
    a.pat1 = strings(&["A"]);
    assert_eq!(command(&["r1.fq"], a).input_mode(), Ok(InputMode::Single));
    assert_eq!(command(&["r1.fq", "r2.fq"], options()).input_mode(), Ok(InputMode::Paired));
}

#[test]
fn other_numbers_of_inputs_are_refused() {
    assert_eq!(
        command(&[], options()).input_mode(),
        Err(ConfigurationError::InputCount { given: 0 })
    );
    assert_eq!(
        command(&["a", "b", "c"], options()).input_mode(),
        Err(ConfigurationError::InputCount { given: 3 })
    );
}

#[test]
fn prepare_checks_patterns_then_inputs_then_expressions() {
    assert_eq!(
        command(&["a", "b", "c"], options()).prepare().err(),
        Some(ConfigurationError::NoPatterns)
    );
    let mut a = options();
    a.reg = strings(&["("]);
    assert_eq!(
        command(&[], a).prepare().err(),
        Some(ConfigurationError::InputCount { given: 0 })
    );
    let mut a = options();
    a.reg = strings(&["("]);
    assert_eq!(
        command(&["a"], a).prepare().err(),
        Some(ConfigurationError::InvalidRegex { role: PatternRole::Either, index: 0 })
    );
}

#[test]
fn prepare_hands_out_mode_and_worker() {
    let mut a = options();
    a.pat = strings(&["TTT"]);
    let (mode, w) = command(&["a", "b"], a).prepare().unwrap();
    assert_eq!(mode, InputMode::Paired);
    assert!(w.pattern_match(b"ACGACG", b"GGTTTGG"));
    assert!(!w.pattern_match(b"ACGACG", b"GGTTGG"));
    let mut a = options();
    a.pat = strings(&["TTT"]);
    let (mode, _) = command(&["a"], a).prepare().unwrap();
    assert_eq!(mode, InputMode::Single);
}

#[test]
fn refusals_have_a_sentence_each() {
    assert_eq!(
        ConfigurationError::NoPatterns.message(),
        "At least one pattern must be specified"
    );
    assert_eq!(
        ConfigurationError::InvalidRegex { role: PatternRole::Primary, index: 2 }.message(),
        "Could not build regex from pattern"
    );
    assert_eq!(
        ConfigurationError::InputCount { given: 3 }.message(),
        "Must provide either 1 or 2 input files"
    );
}
