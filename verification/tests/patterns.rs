use regex::Regex;
use xclang::xcodebuild_parser::XCodeBuildParser;

const INVOCATIONS: [&str; 24] = [
    "/usr/bin/clang -x objective-c -arch i386 -include /bar/Prefix.pch -c /foo/TestClass.m -o /baz/TestClass.o",
    "/usr/bin/clang -x objective-c-header -arch i386 -c /foo/Prefix.pch -o /bar/Prefix.pch.pch",
    "clang -c /src/A.m -o /out/A.o",
    "clang -c /src/A.m",
    "clang -c /src/A.m ",
    "clang -c  -o x",
    "clang -o x -c y",
    "clang -c a -o b -c c -o d e",
    "-c first -o second",
    "x-c a -c b -o c",
    "objective-c -arch -c real.m\t-o real.o",
    "foo_-c a (-c b) -c c ",
    "-include a.pch -include b.pch -c x.m -o pch/x.o",
    "-include nothing -c x.m -o x.o",
    "-include",
    "-include  pch",
    "a -includepch -include pchpch b",
    "no flags at all",
    "",
    "   ",
    "-c",
    "-c ",
    " -o ",
    "-c -o -c -o -c  -o  ",
];

fn inputs() -> Vec<String> {
    let mut all: Vec<String> = INVOCATIONS.iter().map(|s| s.to_string()).collect();
    for s in INVOCATIONS.iter() {
        all.push(format!("    {}  ", s));
        all.push(format!("9{}", s));
        all.push(format!("{}\tpch", s));
    }
    all
}

#[test]
fn header_pair_is_found_as_the_pattern_finds_it() {
    let pattern = Regex::new(r"-c (?P<input>.*) -o (?P<output>.*)").unwrap();
    for line in inputs() {
        let mut parser = XCodeBuildParser::new();
        let found = parser.process_compiled_header(&line);
        match pattern.captures(&line) {
            Some(captures) => {
                assert!(found, "{:?}", line);
                assert_eq!(
                    parser.pch_header_for(&captures["output"].to_string()),
                    Some(captures["input"].to_string()),
                    "{:?}",
                    line
                );
            }
            None => assert!(!found, "{:?}", line),
        }
    }
}

#[test]
fn source_file_is_found_as_the_pattern_finds_it() {
    let pattern = Regex::new(r"\B-c (?P<file>.*?)\s").unwrap();
    let parser = XCodeBuildParser::new();
    for line in inputs() {
        let expected = pattern.captures(&line).map(|captures| captures["file"].to_string());
        let found = parser.parse_command_line(&line).map(|(file, _)| file);
        assert_eq!(found, expected, "{:?}", line);
    }
}

#[test]
fn included_header_is_found_as_the_pattern_finds_it() {
    let file = Regex::new(r"\B-c (?P<file>.*?)\s").unwrap();
    let inclusion = Regex::new(r"-include (?P<pch>.*pch)").unwrap();
    for line in inputs() {
        if file.captures(&line).is_none() {
            continue;
        }
        let mut parser = XCodeBuildParser::new();
        let expected = match inclusion.captures(&line) {
            Some(captures) => {
                let compiled = captures["pch"].to_string();
                let name = format!("{}.pch", compiled);
                assert!(parser.process_compiled_header(&format!("-c <header> -o {}", name)));
                match parser.pch_header_for(&name) {
                    Some(header) => line.replace(&compiled, &header),
                    None => line.clone(),
                }
            }
            None => line.clone(),
        };
        let (_, command) = parser.parse_command_line(&line).unwrap();
        assert_eq!(command, expected.trim(), "{:?}", line);
    }
}

const PIECES: [&str; 26] = [
    "-c ", " -o ", "-include ", "pch", ".pch", " ", "\t", "-", "c", "o", "x", "_", "9", "/", "é",
    "a.m", "-c", "-o", "include", "p", "β", "٣", "\u{301}", "\u{200d}", "€", "\u{3000}",
];

/// Lines put together from the pieces, in an order that a seed decides.
fn mixed_lines(count: usize, seed: u64) -> Vec<String> {
    let mut state = seed;
    let mut next = move |bound: usize| {
        state = state.wrapping_mul(6364136223846793005).wrapping_add(1442695040888963407);
        ((state >> 33) as usize) % bound
    };
    let mut all = Vec::new();
    for _ in 0..count {
        let mut line = String::new();
        for _ in 0..next(14) {
            line.push_str(PIECES[next(PIECES.len())]);
        }
        all.push(line);
    }
    all
}

#[test]
fn header_pair_agrees_with_the_pattern_on_mixed_lines() {
    let pattern = Regex::new(r"-c (?P<input>.*) -o (?P<output>.*)").unwrap();
    for line in mixed_lines(20000, 1) {
        let mut parser = XCodeBuildParser::new();
        let found = parser.process_compiled_header(&line);
        match pattern.captures(&line) {
            Some(captures) => {
                assert!(found, "{:?}", line);
                assert_eq!(
                    parser.pch_header_for(&captures["output"].to_string()),
                    Some(captures["input"].to_string()),
                    "{:?}",
                    line
                );
            }
            None => assert!(!found, "{:?}", line),
        }
    }
}

#[test]
fn source_file_agrees_with_the_pattern_on_mixed_lines() {
    let pattern = Regex::new(r"\B-c (?P<file>.*?)\s").unwrap();
    let parser = XCodeBuildParser::new();
    for line in mixed_lines(20000, 2) {
        let expected = pattern.captures(&line).map(|captures| captures["file"].to_string());
        let found = parser.parse_command_line(&line).map(|(file, _)| file);
        assert_eq!(found, expected, "{:?}", line);
    }
}

#[test]
fn command_agrees_with_the_pattern_on_mixed_lines() {
    let file = Regex::new(r"\B-c (?P<file>.*?)\s").unwrap();
    let inclusion = Regex::new(r"-include (?P<pch>.*pch)").unwrap();
    for line in mixed_lines(20000, 3) {
        if file.captures(&line).is_none() {
            continue;
        }
        let mut parser = XCodeBuildParser::new();
        let expected = match inclusion.captures(&line) {
            Some(captures) => {
                let compiled = captures["pch"].to_string();
                let name = format!("{}.pch", compiled);
                assert!(parser.process_compiled_header(&format!("-c <header> -o {}", name)));
                match parser.pch_header_for(&name) {
                    Some(header) => line.replace(&compiled, &header),
                    None => line.clone(),
                }
            }
            None => line.clone(),
        };
        let (_, command) = parser.parse_command_line(&line).unwrap();
        assert_eq!(command, expected.trim(), "{:?}", line);
    }
}
