//! Which `cyrus` binary to run, and with which arguments.
use vstd::prelude::*;

verus! {

/// How `cyrus` should expose itself to the user, chosen via the tunnel picker. Maps directly to
/// the `--tunnel` flag passed to `cyrus setup`.
#[derive(Debug, Clone)]
pub enum TunnelArg {
    Quick,
    Ngrok(String),
    Named,
}

/// What each of a list of strings holds.
pub open spec fn string_views(strings: Seq<String>) -> Seq<Seq<char>> {
    strings.map_values(|s: String| s@)
}

/// The flags that stand for a tunnel selection.
pub open spec fn tunnel_flags(tunnel: TunnelArg) -> Seq<Seq<char>> {
    match tunnel {
        TunnelArg::Quick => seq!["--tunnel"@, "quick"@],
        TunnelArg::Named => seq!["--tunnel"@, "named"@],
        TunnelArg::Ngrok(domain) => seq!["--tunnel"@, "ngrok"@, "--ngrok-domain"@, domain@],
    }
}

/// Builds the `cyrus setup` arguments for a tunnel selection, appended after `--json`:
/// - Quick    -> `--tunnel quick`
/// - Named    -> `--tunnel named`
/// - Ngrok(d) -> `--tunnel ngrok --ngrok-domain <d>`
pub fn tunnel_args(tunnel: &TunnelArg) -> (args: Vec<String>)
    ensures
        args@.len() == tunnel_flags(*tunnel).len(),
        string_views(args@) == tunnel_flags(*tunnel),
{
    let args: Vec<String> = match tunnel {
        TunnelArg::Quick => vec!["--tunnel".to_string(), "quick".to_string()],
        TunnelArg::Named => vec!["--tunnel".to_string(), "named".to_string()],
        TunnelArg::Ngrok(domain) => vec![
            "--tunnel".to_string(),
            "ngrok".to_string(),
            "--ngrok-domain".to_string(),
            domain.clone(),
        ],
    };
    assert(string_views(args@) =~= tunnel_flags(*tunnel));
    args
}

/// One argument of the `cyrus` command line.
#[derive(Debug, Clone, PartialEq, Eq)]
pub enum LaunchArg {
    /// Literal text.
    Text(String),
    /// The directory that the host runs in, which need not be text.
    WorkingDir,
}

/// What a [`LaunchArg`] holds.
pub enum LaunchArgView {
    Text(Seq<char>),
    WorkingDir,
}

impl View for LaunchArg {
    type V = LaunchArgView;

    open spec fn view(&self) -> LaunchArgView {
        match *self {
            LaunchArg::Text(text) => LaunchArgView::Text(text@),
            LaunchArg::WorkingDir => LaunchArgView::WorkingDir,
        }
    }
}

/// What each of a list of arguments holds.
pub open spec fn arg_views(args: Seq<LaunchArg>) -> Seq<LaunchArgView> {
    args.map_values(|arg: LaunchArg| arg@)
}

/// Each of a list of texts as an argument.
pub open spec fn text_args(texts: Seq<Seq<char>>) -> Seq<LaunchArgView> {
    texts.map_values(|text: Seq<char>| LaunchArgView::Text(text))
}

/// The whole command line after the binary: `setup --repo <dir> --json` and the tunnel flags.
pub open spec fn command_line(tunnel: TunnelArg) -> Seq<LaunchArgView> {
    seq![
        LaunchArgView::Text("setup"@),
        LaunchArgView::Text("--repo"@),
        LaunchArgView::WorkingDir,
        LaunchArgView::Text("--json"@),
    ] + text_args(tunnel_flags(tunnel))
}

/// Builds the arguments of the `cyrus` process for a tunnel selection.
pub fn setup_args(tunnel: &TunnelArg) -> (args: Vec<LaunchArg>)
    ensures
        args@.len() == command_line(*tunnel).len(),
        arg_views(args@) == command_line(*tunnel),
{
    let mut args: Vec<LaunchArg> = vec![
        LaunchArg::Text("setup".to_string()),
        LaunchArg::Text("--repo".to_string()),
        LaunchArg::WorkingDir,
        LaunchArg::Text("--json".to_string()),
    ];
    let ghost head = arg_views(args@);
    let flags: Vec<String> = tunnel_args(tunnel);
    let mut i: usize = 0;
    while i < flags.len()
        invariant
            i <= flags.len(),
            arg_views(args@) == head + text_args(string_views(flags@).take(i as int)),
        decreases flags.len() - i,
    {
        let ghost before = args@;
        args.push(LaunchArg::Text(flags[i].clone()));
        assert(arg_views(args@) == arg_views(before).push(LaunchArgView::Text(flags[i as int]@)));
        assert(text_args(string_views(flags@).take(i + 1)) == text_args(
            string_views(flags@).take(i as int),
        ).push(LaunchArgView::Text(flags[i as int]@)));
        i = i + 1;
    }
    assert(string_views(flags@).take(i as int) =~= tunnel_flags(*tunnel));
    assert(arg_views(args@).len() == args@.len());
    args
}

/// The binary to run.
#[derive(Debug, Clone, PartialEq, Eq)]
pub enum CyrusBin<P> {
    /// The path that the `CYRUS_BIN` environment variable gives.
    EnvOverride(P),
    /// The binary beside the host's own executable.
    Sibling(P),
    /// A bare command, looked up on `PATH` when it is spawned.
    OnPath(String),
}

/// What a [`CyrusBin`] holds.
pub enum CyrusBinView<P> {
    EnvOverride(P),
    Sibling(P),
    OnPath(Seq<char>),
}

impl<P> View for CyrusBin<P> {
    type V = CyrusBinView<P>;

    open spec fn view(&self) -> CyrusBinView<P> {
        match *self {
            CyrusBin::EnvOverride(path) => CyrusBinView::EnvOverride(path),
            CyrusBin::Sibling(path) => CyrusBinView::Sibling(path),
            CyrusBin::OnPath(command) => CyrusBinView::OnPath(command@),
        }
    }
}

/// The file name of the executable.
pub open spec fn exe_name(windows: bool) -> Seq<char> {
    if windows {
        "cyrus.exe"@
    } else {
        "cyrus"@
    }
}

/// The binary that the look-ups settle on.
pub open spec fn located<P>(
    env_bin: Option<(P, usize)>,
    sibling: Option<(P, bool)>,
) -> CyrusBinView<P> {
    match (env_bin, sibling) {
        (Some((path, len)), _) if len > 0 => CyrusBinView::EnvOverride(path),
        (_, Some((path, true))) => CyrusBinView::Sibling(path),
        _ => CyrusBinView::OnPath("cyrus"@),
    }
}

/// The file name of the `cyrus` executable on the host's platform.
pub fn cyrus_exe_name(windows: bool) -> (name: &'static str)
    ensures
        name@ == if windows {
            "cyrus.exe"@
        } else {
            "cyrus"@
        },
        name@ == exe_name(windows),
{
    if windows {
        "cyrus.exe"
    } else {
        "cyrus"
    }
}

/// Resolves the `cyrus` binary to invoke:
/// 1. the path in the `CYRUS_BIN` environment variable, unless it is empty,
/// 2. a sibling of the current executable named [`cyrus_exe_name`],
/// 3. a bare `cyrus` command on PATH (trusting PATH; spawn fails if absent).
///
/// `env_bin` is the variable's value, if it is set, with its length in bytes; `sibling` is the
/// path beside the current executable, if there is one, and whether a file exists there.
pub fn locate_cyrus_bin<P>(env_bin: Option<(P, usize)>, sibling: Option<(P, bool)>) -> (bin: Option<
    CyrusBin<P>,
>)
    ensures
        match (env_bin, sibling) {
            (Some((path, len)), _) if len > 0 => bin == Some(CyrusBin::EnvOverride(path)),
            (_, Some((path, exists))) if exists => bin == Some(CyrusBin::Sibling(path)),
            _ => bin matches Some(CyrusBin::OnPath(command)) && command@ == "cyrus"@,
        },
        bin is Some,
        bin->0@ == located(env_bin, sibling),
{
    if let Some((path, len)) = env_bin {
        if len != 0 {
            return Some(CyrusBin::EnvOverride(path));
        }
    }
    if let Some((path, exists)) = sibling {
        if exists {
            return Some(CyrusBin::Sibling(path));
        }
    }
    // Trust PATH: return the bare command and let the spawn surface failures.
    Some(CyrusBin::OnPath("cyrus".to_string()))
}

} // verus!
