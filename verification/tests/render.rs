use catr::render_number;
use catr::render_numbered_line;
use catr::render_source;
use catr::Config;

fn lines(v: &[&str]) -> Vec<String> {
    v.iter().map(|s| String::from(*s)).collect()
}

fn config(number_lines: bool, number_nonblank_lines: bool) -> Config {
    Config::new(lines(&["-"]), number_lines, number_nonblank_lines).unwrap()
}

#[test]
fn number_width_is_six() {
    assert_eq!(render_number(0), "     0");
    assert_eq!(render_number(1), "     1");
    assert_eq!(render_number(9), "     9");
    assert_eq!(render_number(10), "    10");
    assert_eq!(render_number(42), "    42");
    assert_eq!(render_number(999), "   999");
    assert_eq!(render_number(1000), "  1000");
    assert_eq!(render_number(99999), " 99999");
    assert_eq!(render_number(100000), "100000");
    assert_eq!(render_number(123456), "123456");
    assert_eq!(render_number(1234567), "1234567");
}

#[test]
fn numbered_line_format() {
    assert_eq!(render_numbered_line(7, "xyz"), "     7\txyz");
    assert_eq!(render_numbered_line(1, ""), "     1\t");
}

#[test]
fn plain_mode_is_identity() {
    let input = lines(&["alpha", "", "beta", "gamma"]);
    let out = render_source(&config(false, false), &input);
    assert_eq!(out, input);
}

#[test]
fn number_lines_three_hellos() {
    let input = lines(&["Hello, world!", "Hello, world!", "Hello, world!"]);
    let out = render_source(&config(true, false), &input);
    assert_eq!(
        out,
        lines(&["     1\tHello, world!", "     2\tHello, world!", "     3\tHello, world!"])
    );
}

#[test]
fn nonblank_empty_input_gives_empty_output() {
    let out = render_source(&config(false, true), &lines(&[]));
    assert!(out.is_empty());
}

#[test]
fn nonblank_skips_blank_lines() {
    let input = lines(&["one", "", "two", "", "", "three"]);
    let out = render_source(&config(false, true), &input);
    assert_eq!(out, lines(&["     1\tone", "", "     2\ttwo", "", "", "     3\tthree"]));
}

#[test]
fn nonblank_counts_whitespace_as_content() {
    let input = lines(&["  ", "x"]);
    let out = render_source(&config(false, true), &input);
    assert_eq!(out, lines(&["     1\t  ", "     2\tx"]));
}

#[test]
fn number_lines_starts_at_one_after_blank() {
    let input = lines(&["", "a"]);
    let out = render_source(&config(true, false), &input);
    assert_eq!(out, lines(&["     1\t", "     2\ta"]));
}

#[test]
fn output_line_count_matches_input() {
    let input = lines(&["a", "", "b", "", "c", ""]);
    for (nl, nb) in [(false, false), (true, false), (false, true)] {
        let out = render_source(&config(nl, nb), &input);
        assert_eq!(out.len(), input.len());
    }
}

#[test]
fn numbering_restarts_for_each_source() {
    let sources = vec![lines(&["a", "b"]), lines(&["c"])];
    let out = catr::render_all(&config(true, false), &sources);
    assert_eq!(out, lines(&["     1\ta", "     2\tb", "     1\tc"]));
}

#[test]
fn nonblank_numbering_restarts_for_each_source() {
    let sources = vec![lines(&["a", ""]), lines(&["", "b"])];
    let out = catr::render_all(&config(false, true), &sources);
    assert_eq!(out, lines(&["     1\ta", "", "", "     1\tb"]));
}

#[test]
fn render_all_of_no_sources_is_empty() {
    let sources: Vec<Vec<String>> = Vec::new();
    let out = catr::render_all(&config(false, false), &sources);
    assert!(out.is_empty());
}
