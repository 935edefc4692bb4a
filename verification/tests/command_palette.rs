use kappa::commands::{Command, CommandFilter, CommandRegistry};

fn names(commands: &[Command]) -> Vec<String> {
    commands.iter().map(|c| c.name.clone()).collect()
}

#[test]
fn command_new_takes_identifier_then_name() {
    let command = Command::new("save_as", "Save As");
    assert_eq!(command.id, "save_as");
    assert_eq!(command.name, "Save As");
    assert_eq!(command.clone(), command);
    assert_ne!(command, Command::new("save_as", "Save as"));
    assert_ne!(command, Command::new("save", "Save As"));
}

#[test]
fn registry_lists_the_five_commands_in_order() {
    let registry = CommandRegistry::new();
    let all = registry.all_commands();
    assert_eq!(
        all.to_vec(),
        vec![
            Command::new("open_file", "Open File"),
            Command::new("save", "Save"),
            Command::new("save_as", "Save As"),
            Command::new("new_file", "New File"),
            Command::new("close_file", "Close File"),
        ]
    );
    assert_eq!(CommandRegistry::default().all_commands().to_vec(), all.to_vec());
}

#[test]
fn find_by_id_finds_the_command_or_nothing() {
    let registry = CommandRegistry::new();
    assert_eq!(registry.find_by_id("save"), Some(&Command::new("save", "Save")));
    assert_eq!(
        registry.find_by_id("close_file"),
        Some(&Command::new("close_file", "Close File"))
    );
    assert_eq!(registry.find_by_id("Save"), None);
    assert_eq!(registry.find_by_id(""), None);
    assert_eq!(registry.find_by_id("save_"), None);
}

#[test]
fn empty_query_is_the_identity() {
    let registry = CommandRegistry::new();
    let all = registry.all_commands();
    assert_eq!(CommandFilter::filter_commands(all, ""), all.to_vec());
    let some = vec![Command::new("b", "Beta"), Command::new("a", "Alpha"), Command::new("b", "Beta")];
    assert_eq!(CommandFilter::filter_commands(&some, ""), some);
    assert_eq!(CommandFilter::filter_commands(&[], ""), Vec::<Command>::new());
}

#[test]
fn filter_ignores_case() {
    let commands = vec![Command::new("save_as", "Save As")];
    assert_eq!(CommandFilter::filter_commands(&commands, "save"), commands);
    assert_eq!(CommandFilter::filter_commands(&commands, "SAVE"), commands);
    assert_eq!(CommandFilter::filter_commands(&commands, "e a"), commands);
    assert_eq!(CommandFilter::filter_commands(&commands, "E A"), commands);
    assert_eq!(CommandFilter::filter_commands(&commands, "saveas"), Vec::<Command>::new());
}

#[test]
fn filter_keeps_registry_order() {
    let registry = CommandRegistry::new();
    let all = registry.all_commands();
    assert_eq!(names(&CommandFilter::filter_commands(all, "sa")), vec!["Save", "Save As"]);
    assert_eq!(
        names(&CommandFilter::filter_commands(all, "file")),
        vec!["Open File", "New File", "Close File"]
    );
    assert_eq!(names(&CommandFilter::filter_commands(all, "e")).len(), 5);
    assert_eq!(names(&CommandFilter::filter_commands(all, "n f")), vec!["Open File"]);
    assert_eq!(names(&CommandFilter::filter_commands(all, "E F")), vec!["Close File"]);
    assert_eq!(names(&CommandFilter::filter_commands(all, "zzz")), Vec::<String>::new());
}

#[test]
fn filter_is_plain_containment_without_gaps() {
    let commands = vec![Command::new("open_file", "Open File")];
    assert!(CommandFilter::filter_commands(&commands, "ofile").is_empty());
    assert!(CommandFilter::filter_commands(&commands, "opn").is_empty());
    assert_eq!(CommandFilter::filter_commands(&commands, "open file"), commands);
    assert!(CommandFilter::filter_commands(&commands, "open file ").is_empty());
}

#[test]
fn select_lowered_tests_the_lowered_names() {
    let commands = vec![
        Command::new("1", "First"),
        Command::new("2", "Second"),
        Command::new("3", "Third"),
    ];
    let lowered = vec!["first".to_string(), "second".to_string(), "third".to_string()];
    assert_eq!(
        CommandFilter::select_lowered(&commands, &lowered, "ir"),
        vec![Command::new("1", "First"), Command::new("3", "Third")]
    );
    assert_eq!(CommandFilter::select_lowered(&commands, &lowered, ""), commands);
    assert!(CommandFilter::select_lowered(&commands, &lowered, "IR").is_empty());
    // the names decide by what the caller lowered them to, not by the commands
    let swapped = vec!["x".to_string(), "first".to_string(), "y".to_string()];
    assert_eq!(
        CommandFilter::select_lowered(&commands, &swapped, "first"),
        vec![Command::new("2", "Second")]
    );
}
