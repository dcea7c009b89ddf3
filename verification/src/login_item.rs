use vstd::prelude::*;
use vstd::string::StringSliceAdditionalSpecFns;

use crate::paths::{append_bytes, join_path, path_join, PathError};

verus! {

/// The launch agent's label, which also names its property list.
pub const LABEL: &'static str = "com.macuse.app";

/// Directory of per-user launch agents, relative to the home directory.
pub const LAUNCH_AGENTS_DIR: &'static str = "Library/LaunchAgents";

/// Extension of the launch agent's property list, whose name is the label.
pub const PLIST_EXTENSION: &'static str = ".plist";

/// The property list up to the label.
pub const PLIST_HEAD: &'static str = "<?xml version=\"1.0\" encoding=\"UTF-8\"?>\n<!DOCTYPE plist PUBLIC \"-//Apple//DTD PLIST 1.0//EN\" \"http://www.apple.com/DTDs/PropertyList-1.0.dtd\">\n<plist version=\"1.0\">\n<dict>\n    <key>Label</key>\n    <string>";

/// The property list between the label and the program path.
pub const PLIST_MIDDLE: &'static str = "</string>\n    <key>ProgramArguments</key>\n    <array>\n        <string>";

/// The property list after the program path.
pub const PLIST_TAIL: &'static str = "</string>\n    </array>\n    <key>RunAtLoad</key>\n    <true/>\n    <key>ProcessType</key>\n    <string>Interactive</string>\n    <key>KeepAlive</key>\n    <false/>\n</dict>\n</plist>\n";

/// The launch agent that starts the program at `bin` when the user logs in.
pub open spec fn plist_text(bin: Seq<char>) -> Seq<char> {
    PLIST_HEAD@ + LABEL@ + PLIST_MIDDLE@ + bin + PLIST_TAIL@
}

/// Where the launch agent lives under the home directory `home`.
pub open spec fn plist_path_under(home: Seq<u8>) -> Seq<u8> {
    path_join(
        path_join(home, LAUNCH_AGENTS_DIR.spec_bytes()),
        LABEL.spec_bytes() + PLIST_EXTENSION.spec_bytes(),
    )
}

/// `dirs::home_dir`, with the path as its raw bytes.
/// It reads the environment, so nothing is stated of what it returns.
#[verifier::external_body]
fn platform_home_dir() -> (r: Option<Vec<u8>>) {
    match dirs::home_dir() {
        Some(p) => Some(p.into_os_string().into_encoded_bytes()),
        None => None,
    }
}

/// The launch agent sits in the home directory, whatever it is:
/// its path is the home directory, a separator where one is missing, and
/// `Library/LaunchAgents/com.macuse.app.plist`.
pub proof fn lemma_plist_path_under_home(home: Seq<u8>)
    ensures
        plist_path_under(home) == (if home.len() == 0 || home.last() == 47u8 {
            home
        } else {
            home.push(47u8)
        }) + "Library/LaunchAgents/com.macuse.app.plist".spec_bytes(),
        plist_path_under(home).subrange(0, home.len() as int) == home,
{
    broadcast use vstd::string::group_string_axioms;

    reveal_strlit("Library/LaunchAgents");
    reveal_strlit("com.macuse.app");
    reveal_strlit(".plist");
    reveal_strlit("Library/LaunchAgents/com.macuse.app.plist");
    let agents = LAUNCH_AGENTS_DIR.spec_bytes();
    let file = LABEL.spec_bytes() + PLIST_EXTENSION.spec_bytes();
    let whole = "Library/LaunchAgents/com.macuse.app.plist";
    assert(vstd::string::is_ascii(LAUNCH_AGENTS_DIR));
    assert(vstd::string::is_ascii(LABEL));
    assert(vstd::string::is_ascii(PLIST_EXTENSION));
    assert(vstd::string::is_ascii(whole));
    assert(agents[0] == 76u8);
    assert(agents.last() == 115u8);
    assert(file[0] == 99u8);
    assert(whole.spec_bytes() =~= agents + seq![47u8] + file);
    let prefix = if home.len() == 0 || home.last() == 47u8 {
        home
    } else {
        home.push(47u8)
    };
    assert(path_join(home, agents) =~= prefix + agents);
    assert((prefix + agents).last() == 115u8);
    assert(plist_path_under(home) =~= prefix + whole.spec_bytes());
    assert(plist_path_under(home).subrange(0, home.len() as int) =~= home);
}

/// The launch agent's path, given what the platform reported as the home directory.
pub fn plist_path_in(home: Option<Vec<u8>>) -> (r: Result<Vec<u8>, PathError>)
    ensures
        match home {
            Some(h) => r matches Ok(p) && p@ == plist_path_under(h@) && p@ == (if h@.len() == 0
                || h@.last() == 47u8 {
                h@
            } else {
                h@.push(47u8)
            }) + "Library/LaunchAgents/com.macuse.app.plist".spec_bytes(),
            None => r == Err::<Vec<u8>, PathError>(PathError::NoHomeDir),
        },
{
    match home {
        Some(h) => {
            proof {
                lemma_plist_path_under_home(h@);
            }
            let agents = join_path(h.as_slice(), LAUNCH_AGENTS_DIR.as_bytes());
            let mut file_name: Vec<u8> = Vec::new();
            append_bytes(&mut file_name, LABEL.as_bytes());
            append_bytes(&mut file_name, PLIST_EXTENSION.as_bytes());
            Ok(join_path(agents.as_slice(), file_name.as_slice()))
        },
        None => Err(PathError::NoHomeDir),
    }
}

/// The launch agent's path under this user's home directory.
pub fn plist_path() -> (r: Result<Vec<u8>, PathError>)
    ensures
        match r {
            Ok(p) => exists|h: Seq<u8>|
                p@ == plist_path_under(h) && p@ == (if h.len() == 0 || h.last() == 47u8 {
                    h
                } else {
                    h.push(47u8)
                }) + "Library/LaunchAgents/com.macuse.app.plist".spec_bytes(),
            Err(e) => e == PathError::NoHomeDir,
        },
{
    plist_path_in(platform_home_dir())
}

/// The property list holds the program path verbatim, right after the text
/// that opens its `ProgramArguments` entry, whatever the path is; and two
/// paths give the same text only if they are the same.
pub proof fn lemma_plist_holds_program_path(bin: Seq<char>, other: Seq<char>)
    ensures
        plist_text(bin).subrange(
            (PLIST_HEAD@ + LABEL@ + PLIST_MIDDLE@).len() as int,
            ((PLIST_HEAD@ + LABEL@ + PLIST_MIDDLE@).len() + bin.len()) as int,
        ) == bin,
        plist_text(bin).subrange(0, (PLIST_HEAD@ + LABEL@ + PLIST_MIDDLE@).len() as int)
            == PLIST_HEAD@ + LABEL@ + PLIST_MIDDLE@,
        plist_text(bin).len() == (PLIST_HEAD@ + LABEL@ + PLIST_MIDDLE@).len() + bin.len()
            + PLIST_TAIL@.len(),
        plist_text(bin) == plist_text(other) ==> bin == other,
{
    let head = PLIST_HEAD@ + LABEL@ + PLIST_MIDDLE@;
    assert(plist_text(bin) =~= head + bin + PLIST_TAIL@);
    assert(plist_text(other) =~= head + other + PLIST_TAIL@);
    assert((head + bin + PLIST_TAIL@).subrange(head.len() as int, (head.len() + bin.len()) as int) =~= bin);
    assert((head + bin + PLIST_TAIL@).subrange(0, head.len() as int) =~= head);
    if plist_text(bin) == plist_text(other) {
        assert(bin.len() == other.len());
        assert((head + other + PLIST_TAIL@).subrange(head.len() as int, (head.len() + other.len()) as int)
            =~= other);
    }
}

/// The launch agent's property list for the program at `bin`.
pub fn plist_contents(bin: &str) -> (r: String)
    ensures
        r@ == plist_text(bin@),
        r@ == PLIST_HEAD@ + LABEL@ + PLIST_MIDDLE@ + bin@ + PLIST_TAIL@,
{
    let mut out = String::from_str(PLIST_HEAD);
    out.append(LABEL);
    out.append(PLIST_MIDDLE);
    out.append(bin);
    out.append(PLIST_TAIL);
    out
}

} // verus!
