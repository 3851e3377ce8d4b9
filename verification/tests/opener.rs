use slap::cli::Cli;
use slap::open::{
    copy_texts, created_texts, exited_successfully, open_paths, open_steps, resolve_editor,
    warn_about_directories, warning_line, CreatedPath, Launch, OpenStep,
};

fn strings(items: &[&str]) -> Vec<String> {
    items.iter().map(|s| s.to_string()).collect()
}

fn on_disk(path: &str, is_dir: bool) -> CreatedPath {
    CreatedPath { path: path.to_string(), is_dir }
}

fn with_app(app: &str, path: &str) -> Launch {
    Launch::Application { app: app.to_string(), path: path.to_string() }
}

fn with_editor(program: &str, args: &[&str]) -> Launch {
    Launch::Editor { program: program.to_string(), args: strings(args) }
}

fn cli(open_with: Option<Option<String>>) -> Cli {
    Cli { print_path: false, temp_mode: false, dir_mode: false, open_with, paths: Vec::new() }
}

#[test]
fn open_mode_is_off_without_the_flag() {
    assert!(!cli(None).open_mode());
    assert_eq!(cli(None).open_app(), None);
}

#[test]
fn open_mode_with_the_editor() {
    assert!(cli(Some(None)).open_mode());
    assert_eq!(cli(Some(None)).open_app(), None);
}

#[test]
fn open_mode_with_an_application() {
    let c = cli(Some(Some("code".to_string())));
    assert!(c.open_mode());
    assert_eq!(c.open_app(), Some("code".to_string()));
}

#[test]
fn open_app_keeps_an_empty_name() {
    assert_eq!(cli(Some(Some(String::new()))).open_app(), Some(String::new()));
}

#[test]
fn warning_line_names_the_path() {
    assert_eq!(
        warning_line("my_project/"),
        "warning: 'my_project/' is a directory; opening with editor may not work as expected"
    );
    assert_eq!(
        warning_line(""),
        "warning: '' is a directory; opening with editor may not work as expected"
    );
}

#[test]
fn one_warning_for_each_directory() {
    let created =
        [on_disk("a/", true), on_disk("b.txt", false), on_disk("c", true), on_disk("d", false)];
    assert_eq!(
        warn_about_directories(&created),
        vec![
            "warning: 'a/' is a directory; opening with editor may not work as expected"
                .to_string(),
            "warning: 'c' is a directory; opening with editor may not work as expected"
                .to_string(),
        ]
    );
}

#[test]
fn no_warning_without_directories() {
    assert_eq!(warn_about_directories(&[]), Vec::<String>::new());
    assert_eq!(
        warn_about_directories(&[on_disk("a", false), on_disk("b/", false)]),
        Vec::<String>::new()
    );
}

#[test]
fn a_directory_listed_twice_is_warned_about_twice() {
    let created = [on_disk("d", true), on_disk("d", true)];
    assert_eq!(warn_about_directories(&created), vec![warning_line("d"), warning_line("d")]);
}

#[test]
fn warnings_are_counted_by_what_is_on_disk() {
    for n in 0..5usize {
        let created: Vec<CreatedPath> =
            (0..5).map(|i| on_disk(&format!("p{}", i), i < n)).collect();
        assert_eq!(warn_about_directories(&created).len(), n);
    }
}

#[test]
fn editor_defaults_to_vi() {
    assert_eq!(resolve_editor(None), "vi");
}

#[test]
fn editor_comes_from_the_environment() {
    assert_eq!(resolve_editor(Some("nano".to_string())), "nano");
    assert_eq!(resolve_editor(Some(String::new())), "");
}

#[test]
fn opening_nothing_launches_nothing() {
    assert_eq!(open_paths(&[], None, None), Vec::<Launch>::new());
    assert_eq!(open_paths(&[], Some("code".to_string()), None), Vec::<Launch>::new());
    assert_eq!(open_paths(&[], None, Some("nano".to_string())), Vec::<Launch>::new());
}

#[test]
fn application_is_launched_once_for_each_path() {
    let paths = strings(&["a.rs", "b.rs", "c/"]);
    assert_eq!(
        open_paths(&paths, Some("code".to_string()), Some("nano".to_string())),
        vec![with_app("code", "a.rs"), with_app("code", "b.rs"), with_app("code", "c/")]
    );
}

#[test]
fn editor_is_launched_once_with_every_path() {
    let paths = strings(&["a.rs", "b.rs", "c/"]);
    assert_eq!(
        open_paths(&paths, None, Some("nano".to_string())),
        vec![with_editor("nano", &["a.rs", "b.rs", "c/"])]
    );
}

#[test]
fn editor_falls_back_to_vi() {
    assert_eq!(open_paths(&strings(&["draft.md"]), None, None), vec![with_editor("vi", &["draft.md"])]);
}

#[test]
fn copy_texts_copies_in_order() {
    assert_eq!(copy_texts(&strings(&["b", "a", "b"])), strings(&["b", "a", "b"]));
    assert_eq!(copy_texts(&[]), Vec::<String>::new());
}

#[test]
fn created_texts_are_the_paths_in_order() {
    assert_eq!(created_texts(&[on_disk("x", true), on_disk("y", false)]), strings(&["x", "y"]));
}

#[test]
fn warnings_come_before_any_launch() {
    let created = [on_disk("a.txt", false), on_disk("dir/", true), on_disk("b.txt", false)];
    assert_eq!(
        open_steps(&created, None, Some("nano".to_string())),
        vec![
            OpenStep::Warn(warning_line("dir/")),
            OpenStep::Launch(with_editor("nano", &["a.txt", "dir/", "b.txt"])),
        ]
    );
}

#[test]
fn warnings_come_before_application_launches() {
    let created = [on_disk("one/", true), on_disk("two/", true)];
    assert_eq!(
        open_steps(&created, Some("code".to_string()), None),
        vec![
            OpenStep::Warn(warning_line("one/")),
            OpenStep::Warn(warning_line("two/")),
            OpenStep::Launch(with_app("code", "one/")),
            OpenStep::Launch(with_app("code", "two/")),
        ]
    );
}

#[test]
fn open_steps_for_nothing_are_empty() {
    assert_eq!(open_steps(&[], None, None), Vec::<OpenStep>::new());
    assert_eq!(open_steps(&[], Some("code".to_string()), None), Vec::<OpenStep>::new());
}

#[test]
fn only_exit_code_zero_is_success() {
    assert!(exited_successfully(Some(0)));
    assert!(!exited_successfully(Some(1)));
    assert!(!exited_successfully(Some(-1)));
    assert!(!exited_successfully(Some(127)));
    assert!(!exited_successfully(Some(i32::MIN)));
    assert!(!exited_successfully(None));
}
