//! Auto-launch at login through a per-user LaunchAgent.
//!
//! The login item is a plist file at
//! `~/Library/LaunchAgents/com.mactemp.monitor.plist`; auto-launch is enabled
//! exactly when that file exists.

use vstd::prelude::*;
use vstd::string::*;

verus! {

/// The LaunchAgent bundle identifier, as a sequence of characters.
pub open spec fn label_spec() -> Seq<char> {
    "com.mactemp.monitor"@
}

/// `base` joined with the relative component `comp`, as a Unix path:
/// a `/` goes between them unless `base` is empty or already ends in one.
pub open spec fn join_path(base: Seq<char>, comp: Seq<char>) -> Seq<char> {
    if base.len() == 0 || base.last() == '/' {
        base + comp
    } else {
        base + seq!['/'] + comp
    }
}

/// The directory that holds the user's LaunchAgents: `<home>/Library/LaunchAgents`.
pub open spec fn launch_agents_dir(home: Seq<char>) -> Seq<char> {
    join_path(join_path(home, "Library"@), "LaunchAgents"@)
}

/// The file name of the plist: `com.mactemp.monitor.plist`.
pub open spec fn plist_file_name() -> Seq<char> {
    label_spec() + ".plist"@
}

/// The plist's path for the home directory `home`.
pub open spec fn plist_path_for(home: Seq<char>) -> Seq<char> {
    join_path(launch_agents_dir(home), plist_file_name())
}

/// Joins `comp` onto `base` as `join_path` says.
fn push_component(base: String, comp: &str) -> (r: String)
    ensures
        r@ == join_path(base@, comp@),
{
    let n = base.as_str().unicode_len();
    let mut r = base;
    if n != 0 && r.as_str().get_char(n - 1) != '/' {
        r.append("/");
        proof {
            reveal_strlit("/");
        }
    }
    r.append(comp);
    r
}

/// The path of the LaunchAgent plist under the home directory `home`;
/// `None` where no home directory is known.
pub fn plist_path(home: Option<&str>) -> (r: Option<String>)
    ensures
        r is Some <==> home is Some,
        r matches Some(p) ==> p@ == plist_path_for(home.unwrap()@),
{
    match home {
        None => None,
        Some(h) => {
            let dir = push_component(push_component(h.to_owned(), "Library"), "LaunchAgents");
            let mut name = "com.mactemp.monitor".to_owned();
            name.append(".plist");
            Some(push_component(dir, name.as_str()))
        },
    }
}

/// The text of the plist before the label.
pub open spec fn plist_head() -> Seq<char> {
    "<?xml version=\"1.0\" encoding=\"UTF-8\"?>\n<!DOCTYPE plist PUBLIC \"-//Apple//DTD PLIST 1.0//EN\" \"http://www.apple.com/DTDs/PropertyList-1.0.dtd\">\n<plist version=\"1.0\">\n<dict>\n    <key>Label</key>\n    <string>"@
}

/// The text of the plist between the label and the binary's path.
pub open spec fn plist_middle() -> Seq<char> {
    "</string>\n    <key>ProgramArguments</key>\n    <array>\n        <string>"@
}

/// The text of the plist after the binary's path.
pub open spec fn plist_tail() -> Seq<char> {
    "</string>\n    </array>\n    <key>RunAtLoad</key>\n    <true/>\n    <key>KeepAlive</key>\n    <false/>\n    <key>ProcessType</key>\n    <string>Interactive</string>\n</dict>\n</plist>"@
}

/// The LaunchAgent plist that starts `binary` at login: it carries the
/// label, runs `binary` with no arguments, runs at load, is not kept alive and
/// is interactive. The path goes in as it is, with no escaping.
pub open spec fn plist_content_for(binary: Seq<char>) -> Seq<char> {
    plist_head() + label_spec() + plist_middle() + binary + plist_tail()
}

/// The contents of the LaunchAgent plist that starts `binary` at login.
pub fn plist_content(binary: &str) -> (r: String)
    ensures
        r@ == plist_content_for(binary@),
{
    let mut r = "<?xml version=\"1.0\" encoding=\"UTF-8\"?>\n<!DOCTYPE plist PUBLIC \"-//Apple//DTD PLIST 1.0//EN\" \"http://www.apple.com/DTDs/PropertyList-1.0.dtd\">\n<plist version=\"1.0\">\n<dict>\n    <key>Label</key>\n    <string>".to_owned();
    r.append("com.mactemp.monitor");
    r.append("</string>\n    <key>ProgramArguments</key>\n    <array>\n        <string>");
    r.append(binary);
    r.append("</string>\n    </array>\n    <key>RunAtLoad</key>\n    <true/>\n    <key>KeepAlive</key>\n    <false/>\n    <key>ProcessType</key>\n    <string>Interactive</string>\n</dict>\n</plist>");
    r
}

/// Joining a component puts exactly one `/` between a non-empty base that
/// does not end in `/` and the component, and none otherwise.
pub proof fn lemma_join_path_separator(base: Seq<char>, comp: Seq<char>)
    ensures
        (base.len() > 0 && base.last() != '/') ==> join_path(base, comp) == base + seq!['/'] + comp,
        (base.len() == 0 || base.last() == '/') ==> join_path(base, comp) == base + comp,
{
}

/// The plist's path and its directory, spelled out: the home directory,
/// then `/Library/LaunchAgents/com.mactemp.monitor.plist` (the directory
/// stops before the last `/`), with no extra `/` where the home directory is
/// empty or already ends in one.
pub proof fn lemma_plist_path_text(home: Seq<char>)
    ensures
        (home.len() > 0 && home.last() != '/') ==> launch_agents_dir(home) == home
            + "/Library/LaunchAgents"@,
        (home.len() == 0 || home.last() == '/') ==> launch_agents_dir(home) == home
            + "Library/LaunchAgents"@,
        (home.len() > 0 && home.last() != '/') ==> plist_path_for(home) == home
            + "/Library/LaunchAgents/com.mactemp.monitor.plist"@,
        (home.len() == 0 || home.last() == '/') ==> plist_path_for(home) == home
            + "Library/LaunchAgents/com.mactemp.monitor.plist"@,
{
    reveal_strlit("Library");
    reveal_strlit("LaunchAgents");
    reveal_strlit("com.mactemp.monitor");
    reveal_strlit(".plist");
    reveal_strlit("/Library/LaunchAgents/com.mactemp.monitor.plist");
    reveal_strlit("Library/LaunchAgents/com.mactemp.monitor.plist");
    reveal_strlit("/Library/LaunchAgents");
    reveal_strlit("Library/LaunchAgents");
    let lib = join_path(home, "Library"@);
    let dir = launch_agents_dir(home);
    if home.len() > 0 && home.last() != '/' {
        assert(lib == home + seq!['/'] + "Library"@);
    } else {
        assert(lib == home + "Library"@);
    }
    assert(lib.len() > 0 && lib.last() == 'y');
    assert(dir == lib + seq!['/'] + "LaunchAgents"@);
    assert(dir.len() > 0 && dir.last() == 's');
    assert(plist_path_for(home) == dir + seq!['/'] + plist_file_name());
    if home.len() > 0 && home.last() != '/' {
        assert(dir =~= home + "/Library/LaunchAgents"@);
        assert(plist_path_for(home) =~= home + "/Library/LaunchAgents/com.mactemp.monitor.plist"@);
    } else {
        assert(dir =~= home + "Library/LaunchAgents"@);
        assert(plist_path_for(home) =~= home + "Library/LaunchAgents/com.mactemp.monitor.plist"@);
    }
}

/// The plist's contents, spelled out: a fixed text, then the binary's path
/// exactly as given, then a fixed text. The path is not altered in any way:
/// it stands at the same offset in the contents for every binary.
pub proof fn lemma_plist_content_text(binary: Seq<char>)
    ensures
        plist_content_for(binary) == "<?xml version=\"1.0\" encoding=\"UTF-8\"?>\n<!DOCTYPE plist PUBLIC \"-//Apple//DTD PLIST 1.0//EN\" \"http://www.apple.com/DTDs/PropertyList-1.0.dtd\">\n<plist version=\"1.0\">\n<dict>\n    <key>Label</key>\n    <string>com.mactemp.monitor</string>\n    <key>ProgramArguments</key>\n    <array>\n        <string>"@ + binary + "</string>\n    </array>\n    <key>RunAtLoad</key>\n    <true/>\n    <key>KeepAlive</key>\n    <false/>\n    <key>ProcessType</key>\n    <string>Interactive</string>\n</dict>\n</plist>"@,
        plist_content_for(binary).subrange(
            "<?xml version=\"1.0\" encoding=\"UTF-8\"?>\n<!DOCTYPE plist PUBLIC \"-//Apple//DTD PLIST 1.0//EN\" \"http://www.apple.com/DTDs/PropertyList-1.0.dtd\">\n<plist version=\"1.0\">\n<dict>\n    <key>Label</key>\n    <string>com.mactemp.monitor</string>\n    <key>ProgramArguments</key>\n    <array>\n        <string>"@.len() as int,
            "<?xml version=\"1.0\" encoding=\"UTF-8\"?>\n<!DOCTYPE plist PUBLIC \"-//Apple//DTD PLIST 1.0//EN\" \"http://www.apple.com/DTDs/PropertyList-1.0.dtd\">\n<plist version=\"1.0\">\n<dict>\n    <key>Label</key>\n    <string>com.mactemp.monitor</string>\n    <key>ProgramArguments</key>\n    <array>\n        <string>"@.len() + binary.len() as int,
        ) == binary,
{
    reveal_strlit("<?xml version=\"1.0\" encoding=\"UTF-8\"?>\n<!DOCTYPE plist PUBLIC \"-//Apple//DTD PLIST 1.0//EN\" \"http://www.apple.com/DTDs/PropertyList-1.0.dtd\">\n<plist version=\"1.0\">\n<dict>\n    <key>Label</key>\n    <string>");
    reveal_strlit("com.mactemp.monitor");
    reveal_strlit("</string>\n    <key>ProgramArguments</key>\n    <array>\n        <string>");
    reveal_strlit("</string>\n    </array>\n    <key>RunAtLoad</key>\n    <true/>\n    <key>KeepAlive</key>\n    <false/>\n    <key>ProcessType</key>\n    <string>Interactive</string>\n</dict>\n</plist>");
    reveal_strlit("<?xml version=\"1.0\" encoding=\"UTF-8\"?>\n<!DOCTYPE plist PUBLIC \"-//Apple//DTD PLIST 1.0//EN\" \"http://www.apple.com/DTDs/PropertyList-1.0.dtd\">\n<plist version=\"1.0\">\n<dict>\n    <key>Label</key>\n    <string>com.mactemp.monitor</string>\n    <key>ProgramArguments</key>\n    <array>\n        <string>");
    assert(plist_head() + label_spec() + plist_middle() =~= "<?xml version=\"1.0\" encoding=\"UTF-8\"?>\n<!DOCTYPE plist PUBLIC \"-//Apple//DTD PLIST 1.0//EN\" \"http://www.apple.com/DTDs/PropertyList-1.0.dtd\">\n<plist version=\"1.0\">\n<dict>\n    <key>Label</key>\n    <string>com.mactemp.monitor</string>\n    <key>ProgramArguments</key>\n    <array>\n        <string>"@);
    assert(plist_content_for(binary) =~= "<?xml version=\"1.0\" encoding=\"UTF-8\"?>\n<!DOCTYPE plist PUBLIC \"-//Apple//DTD PLIST 1.0//EN\" \"http://www.apple.com/DTDs/PropertyList-1.0.dtd\">\n<plist version=\"1.0\">\n<dict>\n    <key>Label</key>\n    <string>com.mactemp.monitor</string>\n    <key>ProgramArguments</key>\n    <array>\n        <string>"@ + binary + "</string>\n    </array>\n    <key>RunAtLoad</key>\n    <true/>\n    <key>KeepAlive</key>\n    <false/>\n    <key>ProcessType</key>\n    <string>Interactive</string>\n</dict>\n</plist>"@);
    assert(plist_content_for(binary).subrange(
        "<?xml version=\"1.0\" encoding=\"UTF-8\"?>\n<!DOCTYPE plist PUBLIC \"-//Apple//DTD PLIST 1.0//EN\" \"http://www.apple.com/DTDs/PropertyList-1.0.dtd\">\n<plist version=\"1.0\">\n<dict>\n    <key>Label</key>\n    <string>com.mactemp.monitor</string>\n    <key>ProgramArguments</key>\n    <array>\n        <string>"@.len() as int,
        "<?xml version=\"1.0\" encoding=\"UTF-8\"?>\n<!DOCTYPE plist PUBLIC \"-//Apple//DTD PLIST 1.0//EN\" \"http://www.apple.com/DTDs/PropertyList-1.0.dtd\">\n<plist version=\"1.0\">\n<dict>\n    <key>Label</key>\n    <string>com.mactemp.monitor</string>\n    <key>ProgramArguments</key>\n    <array>\n        <string>"@.len() + binary.len() as int,
    ) =~= binary);
}

/// What enabling auto-launch writes to disk: `dir` is created with its
/// parents, then `content` is written to `path`.
pub struct LaunchAgentInstall {
    pub dir: String,
    pub path: String,
    pub content: String,
}

/// The plist to write to enable auto-launch, for the home directory `home`
/// and the running binary's path `binary`. `None` where either is unknown:
/// then enabling writes nothing.
pub fn enable_plan(home: Option<&str>, binary: Option<&str>) -> (r: Option<LaunchAgentInstall>)
    ensures
        r is Some <==> (home is Some && binary is Some),
        r matches Some(plan) ==> {
            &&& plan.dir@ == launch_agents_dir(home.unwrap()@)
            &&& plan.path@ == plist_path_for(home.unwrap()@)
            &&& plan.content@ == plist_content_for(binary.unwrap()@)
        },
{
    match binary {
        None => None,
        Some(b) => {
            let content = plist_content(b);
            match home {
                None => None,
                Some(h) => {
                    let dir = push_component(push_component(h.to_owned(), "Library"), "LaunchAgents");
                    let path = plist_path(home);
                    match path {
                        Some(path) => Some(LaunchAgentInstall { dir, path, content }),
                        None => None,
                    }
                },
            }
        },
    }
}

/// Whether auto-launch is enabled, given whether the plist exists at its
/// path (`None` where the path is unknown): enabled exactly when it exists.
pub fn is_enabled(plist_exists: Option<bool>) -> (r: bool)
    ensures
        r == (plist_exists == Some(true)),
{
    match plist_exists {
        Some(exists) => exists,
        None => false,
    }
}

/// The state auto-launch is in after a toggle: the opposite of the state
/// before where the change was carried out, the state before otherwise.
pub open spec fn toggled(enabled: bool, applied: bool) -> bool {
    if applied {
        !enabled
    } else {
        enabled
    }
}

/// The outcome of a toggle. A toggle removes the plist where auto-launch is
/// `enabled` and writes it otherwise (see `enable_plan`); `applied` tells
/// whether that change was carried out (a path was known and the removal or
/// the writes succeeded). Returns the new state: `true` if now enabled,
/// `false` if now disabled.
pub fn toggle(enabled: bool, applied: bool) -> (new_state: bool)
    ensures
        new_state == toggled(enabled, applied),
{
    if applied {
        !enabled
    } else {
        enabled
    }
}

/// Whether auto-launch is enabled when `files` are the files on disk and
/// `home` the home directory: the plist exists at its path.
pub open spec fn enabled_on(files: Set<Seq<char>>, home: Option<Seq<char>>) -> bool {
    match home {
        Some(h) => files.contains(plist_path_for(h)),
        None => false,
    }
}

/// The files on disk after disabling: the plist is gone, where its path is known.
pub open spec fn after_disable(files: Set<Seq<char>>, home: Option<Seq<char>>) -> Set<Seq<char>> {
    match home {
        Some(h) => files.remove(plist_path_for(h)),
        None => files,
    }
}

/// The files on disk after enabling, when the writes succeed: the plist is
/// there, where both the home directory and the binary's path are known.
pub open spec fn after_enable(
    files: Set<Seq<char>>,
    home: Option<Seq<char>>,
    binary: Option<Seq<char>>,
) -> Set<Seq<char>> {
    match (home, binary) {
        (Some(h), Some(_)) => files.insert(plist_path_for(h)),
        _ => files,
    }
}

/// The files on disk after a toggle: disable where enabled, else enable.
pub open spec fn after_toggle(
    files: Set<Seq<char>>,
    home: Option<Seq<char>>,
    binary: Option<Seq<char>>,
) -> Set<Seq<char>> {
    if enabled_on(files, home) {
        after_disable(files, home)
    } else {
        after_enable(files, home, binary)
    }
}

/// The plist sits directly in the LaunchAgents directory that enabling
/// creates: its path is that directory, a `/`, and the plist's file name.
pub proof fn lemma_plist_in_launch_agents_dir(home: Seq<char>)
    ensures
        plist_path_for(home) == launch_agents_dir(home) + seq!['/'] + plist_file_name(),
        launch_agents_dir(home).len() > 0,
{
    reveal_strlit("LaunchAgents");
    let lib = join_path(home, "Library"@);
    let dir = launch_agents_dir(home);
    assert(dir == lib + "LaunchAgents"@ || dir == lib + seq!['/'] + "LaunchAgents"@);
    assert(dir.last() == 's');
}

/// Whether a toggle's change can be carried out, when the file operations
/// succeed: the plist's path needs the home directory, and enabling needs
/// the binary's path too.
pub open spec fn toggle_applies(
    files: Set<Seq<char>>,
    home: Option<Seq<char>>,
    binary: Option<Seq<char>>,
) -> bool {
    home is Some && (enabled_on(files, home) || binary is Some)
}

/// A toggle reports the state it leaves auto-launch in: after its change,
/// auto-launch is enabled exactly when `toggle` returns `true`, given
/// whether that change was carried out.
pub proof fn lemma_toggle_reports_new_state(
    files: Set<Seq<char>>,
    home: Option<Seq<char>>,
    binary: Option<Seq<char>>,
)
    ensures
        enabled_on(after_toggle(files, home, binary), home) == toggled(
            enabled_on(files, home),
            toggle_applies(files, home, binary),
        ),
{
}

/// Two toggles in a row give back the state before them, where the binary's
/// path is known.
pub proof fn lemma_toggle_twice_restores(
    files: Set<Seq<char>>,
    home: Option<Seq<char>>,
    binary: Option<Seq<char>>,
)
    requires
        binary is Some,
    ensures
        enabled_on(after_toggle(after_toggle(files, home, binary), home, binary), home)
            == enabled_on(files, home),
{
    lemma_toggle_reports_new_state(files, home, binary);
    lemma_toggle_reports_new_state(after_toggle(files, home, binary), home, binary);
}

/// A toggle leaves every file but the plist as it was.
pub proof fn lemma_toggle_touches_only_plist(
    files: Set<Seq<char>>,
    home: Option<Seq<char>>,
    binary: Option<Seq<char>>,
    other: Seq<char>,
)
    requires
        home matches Some(h) ==> other != plist_path_for(h),
    ensures
        after_toggle(files, home, binary).contains(other) == files.contains(other),
{
}

} // verus!
