use resgen::cli::{default_output_name, Cli};
use resgen::error::PipelineError;
use resgen::font::FontError;
use resgen::text::{glue, glue3, join, same_text};

fn strings(xs: &[&str]) -> Vec<String> {
    xs.iter().map(|x| x.to_string()).collect()
}

#[test]
fn join_puts_separator_between_items() {
    assert_eq!(join(&strings(&[]), ", "), "");
    assert_eq!(join(&strings(&["a"]), ", "), "a");
    assert_eq!(join(&strings(&["a", "b", "c"]), ", "), "a, b, c");
    assert_eq!(join(&strings(&["", ""]), "-"), "-");
}

#[test]
fn glue_and_compare() {
    assert_eq!(glue("ab", "cd"), "abcd");
    assert_eq!(glue3("a", " - ", "b"), "a - b");
    assert!(same_text("clean", "clean"));
    assert!(!same_text("clean", "Clean"));
}

#[test]
fn output_name_follows_input() {
    assert_eq!(default_output_name("resume.toml"), "resume.pdf");
    assert_eq!(default_output_name("data/jane.doe.toml"), "jane.doe.pdf");
    assert_eq!(default_output_name("/home/u/cv"), "cv.pdf");
    assert_eq!(default_output_name(".profile"), ".profile.pdf");
    assert_eq!(default_output_name("dir/"), "cv.pdf");
    assert_eq!(default_output_name(""), "cv.pdf");
}

#[test]
fn options_take_defaults() {
    let c = Cli::from_args("me.toml".to_string(), None, None);
    assert_eq!(c.file, "me.toml");
    assert_eq!(c.template, "default");
    assert_eq!(c.output, "me.pdf");
    let c = Cli::from_args("me.toml".to_string(), Some("clean".to_string()), Some("x.pdf".to_string()));
    assert_eq!(c.template, "clean");
    assert_eq!(c.output, "x.pdf");
}

#[test]
fn error_messages_name_the_stage() {
    let p = "in.toml".to_string();
    assert_eq!(
        PipelineError::InputRead { path: p.clone() }.message(),
        "Failed to read input data file: in.toml"
    );
    assert_eq!(
        PipelineError::InputFormat { path: p.clone() }.message(),
        "Invalid format in input file: in.toml"
    );
    assert_eq!(
        PipelineError::Font(FontError::Load { path: "f.ttf".to_string() }).message(),
        "Failed to load font from f.ttf"
    );
    assert_eq!(
        PipelineError::Font(FontError::NotFound).message(),
        "No font found in any search directory"
    );
    assert_eq!(
        PipelineError::Render { path: "out.pdf".to_string() }.message(),
        "Failed to render CV to output file: out.pdf"
    );
}
