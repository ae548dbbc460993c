use statline::format_status_line;
use statline::ColorStyler;
use statline::Hue;
use statline::PlainStyler;
use statline::Styler;
use statline::LINE_WIDTH;

fn plain_line(fields: [&str; 7]) -> String {
    let p = PlainStyler;
    format_status_line(
        (fields[0], &p),
        (fields[1], &p),
        (fields[2], &p),
        (fields[3], &p),
        (fields[4], &p),
        (fields[5], &p),
        (fields[6], &p),
    )
}

#[test]
fn plain_line_has_the_schema_width() {
    let line = plain_line(["*", "nginx", "run", "true", "123", "/usr/bin/nginx", "2 days"]);
    assert_eq!(line.chars().count(), 168);
    assert_eq!(line.chars().count(), LINE_WIDTH);
}

#[test]
fn plain_line_matches_fixed_width_formatting() {
    let line = plain_line(["*", "nginx", "run", "true", "123", "/usr/bin/nginx", "2 days"]);
    let expected = format!(
        " {:<1} {:<20} {:<7} {:<9} {:<8} {:<17} {:<99}",
        "*", "nginx", "run", "true", "123", "/usr/bin/nginx", "2 days"
    );
    assert_eq!(line, expected);
}

#[test]
fn long_fields_are_trimmed_to_their_widths() {
    let line = plain_line([
        "*",
        "a-service-with-a-needlessly-long-name",
        "running",
        "enabled",
        "4194304",
        "/usr/local/libexec/something",
        "10 minutes",
    ]);
    assert_eq!(line.chars().count(), 168);
    assert!(line.contains("a-very-long-name") == false);
    assert!(line.contains("a-service-with-a-..."));
    assert!(line.contains("runn..."));
    assert!(line.contains("/usr/local/lib..."));
}

#[test]
fn unset_hue_passes_text_through() {
    let styled = ColorStyler { hue: Hue::Unset }.apply("nginx");
    assert_eq!(styled, "nginx");
}

#[test]
fn a_color_decorates_without_losing_the_text() {
    let styled = ColorStyler { hue: Hue::Red }.apply("nginx");
    assert_ne!(styled, "nginx");
    assert!(styled.contains("nginx"));
    assert!(styled.starts_with("\x1b["));
    assert!(styled.ends_with("\x1b[0m"));
}

#[test]
fn colored_line_keeps_plain_padding_widths() {
    let red = ColorStyler { hue: Hue::Red };
    let green = ColorStyler { hue: Hue::Green };
    let unset = ColorStyler { hue: Hue::Unset };
    let line = format_status_line(
        ("*", &red),
        ("nginx", &green),
        ("run", &unset),
        ("true", &unset),
        ("123", &unset),
        ("/usr/bin/nginx", &unset),
        ("2 days", &unset),
    );
    // Decoration only adds to the plain composition.
    assert!(line.chars().count() > LINE_WIDTH);
    assert!(line.contains("\x1b[32mnginx\x1b[0m"));
    // The padding after the styled name is still measured against "nginx".
    assert!(line.contains("nginx\x1b[0m               "));
}
