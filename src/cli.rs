use vstd::prelude::*;

verus! {

/// The usage message of the command-line tool invoked as `binary`.
pub open spec fn usage_text(binary: Seq<char>) -> Seq<char> {
    "Usage:\n"@ + binary + " --help               Print this help message\n"@ + binary
        + " is-tagged DIRECTORY  Check if the directory is tagged or not\n\nApplication version: 0.3.0\n"@
}

/// What the command-line tool does for a list of arguments.
pub enum CliCommand {
    /// Print `message` and exit with `exit_code`.
    Reply { exit_code: i32, message: String },
    /// Probe `directory` for its tag and report with `tag_report`.
    CheckTag { directory: String },
}

/// Relies on `String::push_str`: appends `tail` to `s`.
#[verifier::external_body]
fn append(s: &mut String, tail: &str)
    ensures
        final(s)@ == old(s)@ + tail@,
{
    s.push_str(tail);
}

/// The usage message of the tool invoked as `binary`.
pub fn help_text(binary: &str) -> (r: String)
    ensures
        r@ == usage_text(binary@),
{
    let mut r = String::new();
    append(&mut r, "Usage:\n");
    append(&mut r, binary);
    append(&mut r, " --help               Print this help message\n");
    append(&mut r, binary);
    append(
        &mut r,
        " is-tagged DIRECTORY  Check if the directory is tagged or not\n\nApplication version: 0.3.0\n",
    );
    r
}

/// Decides what the tool does for `args`, whose first item is the name it
/// was invoked by. `is-tagged DIRECTORY` probes the directory; `--help` and
/// `--version` print the usage and succeed; anything else, no argument
/// included, prints the usage and fails with exit code 1.
pub fn cli_command(args: &Vec<String>) -> (r: CliCommand)
    requires
        args@.len() >= 1,
    ensures
        args@.len() == 3 && args@[1]@ == "is-tagged"@ ==> r == (CliCommand::CheckTag {
            directory: args@[2],
        }),
        !(args@.len() == 3 && args@[1]@ == "is-tagged"@) ==> r is Reply && r->message@ == usage_text(
            args@[0]@,
        ) && r->exit_code == if args@.len() == 2 && (args@[1]@ == "--help"@ || args@[1]@
            == "--version"@) {
            0i32
        } else {
            1i32
        },
{
    let usage = help_text(args[0].as_str());
    if args.len() == 3 && args[1] == "is-tagged".to_owned() {
        CliCommand::CheckTag { directory: args[2].clone() }
    } else if args.len() == 2 && (args[1] == "--help".to_owned() || args[1]
        == "--version".to_owned()) {
        CliCommand::Reply { exit_code: 0, message: usage }
    } else {
        CliCommand::Reply { exit_code: 1, message: usage }
    }
}

/// The exit code and message that report on probing `directory`: 0 when it
/// is tagged, 1 when it is not, and 2 with the failure's message when the
/// probe failed.
pub fn tag_report(directory: &str, outcome: Result<bool, String>) -> (r: (i32, String))
    ensures
        match outcome {
            Ok(true) => r.0 == 0 && r.1@ == directory@ + " is tagged with CACHEDIR.TAG"@,
            Ok(false) => r.0 == 1 && r.1@ == directory@ + " is not tagged with CACHEDIR.TAG"@,
            Err(message) => r.0 == 2 && r.1@ == message@,
        },
{
    match outcome {
        Ok(tagged) => {
            let mut message = String::new();
            append(&mut message, directory);
            if tagged {
                append(&mut message, " is tagged with CACHEDIR.TAG");
                (0, message)
            } else {
                append(&mut message, " is not tagged with CACHEDIR.TAG");
                (1, message)
            }
        },
        Err(message) => (2, message),
    }
}

} // verus!
