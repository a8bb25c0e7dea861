use clap::{Arg, ArgAction, Command};

fn meshx_command() -> Command {
    Command::new("meshx")
        .about("MeshX - The Immutable Global Device Mesh")
        .subcommand_required(true)
        .subcommand(
            Command::new("start")
                .arg(Arg::new("earn-mode").long("earn-mode").action(ArgAction::SetTrue))
                .arg(Arg::new("tee-type").long("tee-type").default_value("sgx"))
                .arg(Arg::new("shard").long("shard")),
        )
        .subcommand(Command::new("status"))
        .subcommand(Command::new("init").arg(Arg::new("tee-type").long("tee-type").required(true)))
        .subcommand(Command::new("version"))
}

#[test]
fn test_cli_parsing() {
    let matches = meshx_command().get_matches_from(["meshx", "version"]);
    match matches.subcommand_name() {
        Some("version") => assert!(true),
        _ => assert!(false, "Wrong command parsed"),
    }
}
