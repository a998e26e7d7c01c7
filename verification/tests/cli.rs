use quasar::banner::{
    banner_text, center_offset, figlet_line, final_line, text_char_at, text_char_style, BYLINE, TAGLINE,
};
use quasar::init::{
    chosen_client_languages, client_languages_prompt, crate_name, default_client_languages, framework_label_of,
    next_steps, optional_client_languages, summary_line,
};
use quasar::options::{GitSetup, RustFramework, Selection, Template, TestLanguage, Toolchain, TypeScriptSdk};
use quasar::profile::{flamegraph_title, functions_left_out, summary_count};
use quasar::style::{bold, color, dim, fail, warn};

#[test]
fn style_sequences() {
    assert_eq!(color(45, "x"), "\x1b[38;5;45mx\x1b[0m");
    assert_eq!(color(0, ""), "\x1b[38;5;0m\x1b[0m");
    assert_eq!(bold("b"), "\x1b[1mb\x1b[0m");
    assert_eq!(dim("d"), "\x1b[2md\x1b[0m");
    assert_eq!(fail("no"), "\x1b[38;5;196mno\x1b[0m");
    assert_eq!(warn("hm"), "\x1b[38;5;214mhm\x1b[0m");
}

#[test]
fn profile_summary_counts() {
    assert_eq!(flamegraph_title("vault"), "vault — CU Profile");
    assert_eq!(summary_count(0), 0);
    assert_eq!(summary_count(7), 7);
    assert_eq!(summary_count(20), 20);
    assert_eq!(summary_count(35), 20);
    assert_eq!(functions_left_out(20), None);
    assert_eq!(functions_left_out(21), Some(1));
    assert_eq!(functions_left_out(3), None);
}

#[test]
fn banner_layout_in_seventy_columns() {
    let b = banner_text(70);
    let widest = (0..7).map(|i| figlet_line(i).chars().count()).max().unwrap();
    assert_eq!(b.fig.len(), 7);
    assert_eq!(b.fig_w, widest);
    assert_eq!(b.fig_off, (70 - widest) / 2);
    assert_eq!(b.tag_off, (70 - TAGLINE.chars().count()) / 2);
    assert_eq!(b.tag_off, 10);
    assert_eq!(b.by_off, (70 - BYLINE.chars().count()) / 2);
    assert_eq!(b.by_off, 27);
    assert_eq!(figlet_line(6), "");
}

#[test]
fn banner_center_offsets() {
    assert_eq!(center_offset(70, 50), 10);
    assert_eq!(center_offset(70, 49), 10);
    assert_eq!(center_offset(10, 20), 0);
    assert_eq!(center_offset(5, 0), 2);
}

#[test]
fn banner_text_chars() {
    let b = banner_text(70);
    let first: Vec<char> = figlet_line(0).chars().collect();
    assert_eq!(text_char_at(&b, 1, b.fig_off + 1), first[1]);
    assert_eq!(text_char_at(&b, 0, b.fig_off + 1), ' ');
    assert_eq!(text_char_at(&b, 9, b.tag_off), 'B');
    assert_eq!(text_char_at(&b, 10, b.by_off + 3), 'b');
    assert_eq!(text_char_at(&b, 10, b.by_off - 1), ' ');
    assert_eq!(text_char_at(&b, 7, b.fig_off), ' ');
}

#[test]
fn banner_char_styles() {
    assert_eq!(text_char_style(' ', 1, 5, 27), " ");
    assert_eq!(text_char_style('█', 2, 5, 27), "\x1b[36m█\x1b[0m");
    assert_eq!(text_char_style('B', 9, 10, 27), "\x1b[1mB\x1b[0m");
    assert_eq!(text_char_style('b', 10, 27, 27), "\x1b[90mb\x1b[0m");
    assert_eq!(text_char_style('l', 10, 30, 27), "\x1b[36ml\x1b[0m");
    assert_eq!(text_char_style('x', 8, 30, 27), " ");
}

#[test]
fn banner_final_frame_lines() {
    let b = banner_text(70);
    let mut expected = " ".repeat(b.fig_off);
    for ch in figlet_line(0).chars() {
        if ch != ' ' {
            expected.push_str(&format!("\x1b[36m{ch}\x1b[0m"));
        } else {
            expected.push(' ');
        }
    }
    assert_eq!(final_line(&b, 1), expected);
    assert_eq!(final_line(&b, 7), " ".repeat(b.fig_off));
    assert_eq!(final_line(&b, 9), format!("{}\x1b[1m{}\x1b[0m", " ".repeat(10), TAGLINE));
    assert_eq!(final_line(&b, 10), format!("{}\x1b[90mby \x1b[36mblueshift.gg\x1b[0m", " ".repeat(27)));
    assert_eq!(final_line(&b, 0), "");
    assert_eq!(final_line(&b, 8), "");
}

#[test]
fn init_crate_name() {
    assert_eq!(crate_name("vault", Some("ignored")), "vault");
    assert_eq!(crate_name(".", Some("here")), "here");
    assert_eq!(crate_name(".", None), "my-program");
}

#[test]
fn init_client_languages() {
    assert_eq!(default_client_languages(false), vec!["rust"]);
    assert_eq!(default_client_languages(true), vec!["rust", "typescript"]);
    assert_eq!(
        optional_client_languages(false),
        vec![("TypeScript", "typescript"), ("Golang", "golang"), ("Python", "python")]
    );
    assert_eq!(optional_client_languages(true), vec![("Golang", "golang"), ("Python", "python")]);
    assert_eq!(client_languages_prompt(false), "Additional client languages (Rust always included)");
    assert_eq!(client_languages_prompt(true), "Additional client languages (Rust, TypeScript always included)");
    assert_eq!(chosen_client_languages(false, &vec![2, 0]), vec!["rust", "python", "typescript"]);
    assert_eq!(chosen_client_languages(true, &vec![0]), vec!["rust", "typescript", "golang"]);
    assert_eq!(chosen_client_languages(true, &vec![]), vec!["rust", "typescript"]);
}

fn selection(test_language: TestLanguage) -> Selection {
    Selection {
        toolchain: Toolchain::Solana,
        test_language,
        rust_framework: if test_language == TestLanguage::Rust { Some(RustFramework::Mollusk) } else { None },
        ts_sdk: if test_language == TestLanguage::TypeScript { Some(TypeScriptSdk::Web3js) } else { None },
        template: Template::Full,
        git: GitSetup::Initialize,
    }
}

#[test]
fn init_framework_labels() {
    assert_eq!(framework_label_of(&selection(TestLanguage::NoTests)), "no tests");
    assert_eq!(framework_label_of(&selection(TestLanguage::Rust)), "rust/mollusk");
    assert_eq!(framework_label_of(&selection(TestLanguage::TypeScript)), "typescript/web3.js");
}

#[test]
fn init_summary_line() {
    let expected = format!(
        "  {} {} {} {} {} {} {}",
        dim("Using:"),
        bold("solana"),
        dim("+"),
        bold("rust/mollusk"),
        bold("full"),
        dim("+"),
        bold("git: init"),
    );
    assert_eq!(summary_line(&selection(TestLanguage::Rust)), expected);
}

#[test]
fn init_next_steps() {
    assert_eq!(next_steps("vault", TestLanguage::Rust), vec!["cd vault", "quasar build", "quasar test"]);
    assert_eq!(next_steps(".", TestLanguage::NoTests), vec!["quasar build"]);
    assert_eq!(next_steps(".", TestLanguage::TypeScript), vec!["quasar build", "quasar test"]);
}
