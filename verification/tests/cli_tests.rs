use clap::{Arg, ArgAction, Command};

/// The scanner's command-line surface, built programmatically: a scan
/// command over a path, a diff of two versions, and the bookkeeping
/// commands.
fn cli_command() -> Command {
    Command::new("anchor-sentinel")
        .about("Static analysis security scanner for account-oriented smart contracts")
        .subcommand_required(true)
        .subcommand(
            Command::new("scan")
                .about("Scan smart contracts for security vulnerabilities")
                .arg(Arg::new("path").value_name("PATH").required(true))
                .arg(
                    Arg::new("recursive")
                        .short('r')
                        .long("recursive")
                        .action(ArgAction::SetTrue),
                )
                .arg(Arg::new("format").short('f').long("format").default_value("terminal"))
                .arg(
                    Arg::new("generate_poc")
                        .short('g')
                        .long("generate-poc")
                        .action(ArgAction::SetTrue),
                )
                .arg(Arg::new("output").short('o').long("output"))
                .arg(Arg::new("severity").short('s').long("severity"))
                .arg(Arg::new("exclude").short('x').long("exclude").value_delimiter(','))
                .arg(Arg::new("only").long("only").value_delimiter(',')),
        )
        .subcommand(
            Command::new("diff")
                .about("Compare findings between two program versions")
                .arg(Arg::new("old_path").value_name("OLD_PATH").required(true))
                .arg(Arg::new("new_path").value_name("NEW_PATH").required(true)),
        )
        .subcommand(Command::new("init").about("Generate a workflow file for integration"))
        .subcommand(Command::new("list").about("List all available vulnerability detectors"))
        .subcommand(Command::new("version").about("Print version information"))
}

#[test]
fn verify_cli() {
    cli_command().debug_assert();
}
