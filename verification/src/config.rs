//! Command-line parsing and per-run path configuration of the bootstrapper.
use vstd::prelude::*;
use crate::text::{join_path, joined_path, lowercase, parent_of, parent_path, push_char, to_lowercase};

verus! {

/// Whether an argument asks for a log level: `--log-level` or `-l`, in any letter case.
pub open spec fn is_log_level_flag(arg: Seq<char>) -> bool {
    lowercase(arg) == "--log-level"@ || lowercase(arg) == "-l"@
}

/// Splits `args[i..]` into arguments for the host and a log level, starting from the arguments
/// already kept (`host`) and the level already seen (`level`). A level flag followed by a value
/// takes that value as the level, and neither goes to the host; a later flag overrides an earlier
/// one. A flag in last position has no value and goes to the host like any other argument.
pub open spec fn split_args_from(
    args: Seq<Seq<char>>,
    i: nat,
    host: Seq<Seq<char>>,
    level: Option<Seq<char>>,
) -> (Seq<Seq<char>>, Option<Seq<char>>)
    decreases args.len() - i,
{
    if i >= args.len() {
        (host, level)
    } else if is_log_level_flag(args[i as int]) && i + 1 < args.len() {
        split_args_from(args, i + 2, host, Some(args[(i + 1) as int]))
    } else {
        split_args_from(args, i + 1, host.push(args[i as int]), level)
    }
}

/// The arguments to forward to the host and the requested log level, for a whole command line.
pub open spec fn split_args(args: Seq<Seq<char>>) -> (Seq<Seq<char>>, Option<Seq<char>>) {
    split_args_from(args, 0, seq![], None)
}

/// Parses the bootstrapper's arguments (the program name already left out), extracting
/// `--log-level` / `-l` for the bootstrapper and the renderer.
///
/// Returns `(arguments to forward to the host, the text of the requested log level)`.
pub fn parse_args(args: &Vec<String>) -> (res: (Vec<String>, Option<String>))
    ensures
        res.0.deep_view() == split_args(args.deep_view()).0,
        match res.1 {
            Some(l) => split_args(args.deep_view()).1 == Some(l@),
            None => split_args(args.deep_view()).1 == None::<Seq<char>>,
        },
{
    let long_flag = String::from_str("--log-level");
    let short_flag = String::from_str("-l");
    let mut host_args: Vec<String> = Vec::new();
    let mut log_level: Option<String> = None;
    let n = args.len();
    let mut i: usize = 0;
    assert(host_args.deep_view() =~= Seq::<Seq<char>>::empty());
    while i < n
        invariant
            n == args.len(),
            i <= n,
            long_flag@ == "--log-level"@,
            short_flag@ == "-l"@,
            split_args_from(
                args.deep_view(),
                i as nat,
                host_args.deep_view(),
                match log_level {
                    Some(l) => Some(l@),
                    None => None,
                },
            ) == split_args(args.deep_view()),
        decreases n - i,
    {
        let arg = &args[i];
        let arg_lower = to_lowercase(arg.as_str());
        if (arg_lower == long_flag || arg_lower == short_flag) && i + 1 < n {
            log_level = Some(args[i + 1].clone());
            i = i + 2;
            continue;
        }
        let ghost before = host_args.deep_view();
        host_args.push(arg.clone());
        assert(host_args.deep_view() =~= before.push(arg@));
        i = i + 1;
    }
    (host_args, log_level)
}


/// Without level flags in `args[i..]`, the rest of the arguments go to the host unchanged and the
/// level stays as it was.
proof fn lemma_split_from_without_flags(
    args: Seq<Seq<char>>,
    i: nat,
    host: Seq<Seq<char>>,
    level: Option<Seq<char>>,
)
    requires
        i <= args.len(),
        forall|j: int| i <= j < args.len() ==> !is_log_level_flag(#[trigger] args[j]),
    ensures
        split_args_from(args, i, host, level) == (host + args.skip(i as int), level),
    decreases args.len() - i,
{
    if i < args.len() {
        lemma_split_from_without_flags(args, i + 1, host.push(args[i as int]), level);
        assert(host.push(args[i as int]) + args.skip((i + 1) as int) =~= host + args.skip(i as int));
    } else {
        assert(host + args.skip(i as int) =~= host);
    }
}

/// A command line without `--log-level` / `-l` is forwarded to the host unchanged, with no level.
pub proof fn lemma_args_without_flags_forwarded(args: Seq<Seq<char>>)
    requires
        forall|j: int| 0 <= j < args.len() ==> !is_log_level_flag(#[trigger] args[j]),
    ensures
        split_args(args) == (args, None::<Seq<char>>),
{
    lemma_split_from_without_flags(args, 0, seq![], None);
    assert(Seq::<Seq<char>>::empty() + args.skip(0) =~= args);
}

/// Where `split_args_from` finds a level, it is the stated one or the value after a flag in
/// `args[i..]`; each argument it forwards was forwarded before or is one of `args[i..]`.
proof fn lemma_split_from_origins(
    args: Seq<Seq<char>>,
    i: nat,
    host: Seq<Seq<char>>,
    level: Option<Seq<char>>,
)
    requires
        i <= args.len(),
    ensures
        ({
            let r = split_args_from(args, i, host, level);
            &&& r.1 matches Some(l) ==> (level == Some(l) || exists|j: int|
                i <= j && j + 1 < args.len() && is_log_level_flag(#[trigger] args[j]) && args[j
                    + 1] == l)
            &&& forall|k: int|
                0 <= k < r.0.len() ==> host.contains(#[trigger] r.0[k]) || exists|j: int|
                    i <= j < args.len() && args[j] == r.0[k]
            &&& r.0.len() <= host.len() + (args.len() - i)
        }),
    decreases args.len() - i,
{
    if i >= args.len() {
        assert forall|k: int| 0 <= k < host.len() implies host.contains(#[trigger] host[k]) by {}
    } else if is_log_level_flag(args[i as int]) && i + 1 < args.len() {
        lemma_split_from_origins(args, i + 2, host, Some(args[(i + 1) as int]));
        let r = split_args_from(args, i, host, level);
        if let Some(l) = r.1 {
            if args[(i + 1) as int] == l {
                assert(is_log_level_flag(args[i as int]) && args[(i + 1) as int] == l);
            }
        }
    } else {
        let h2 = host.push(args[i as int]);
        lemma_split_from_origins(args, i + 1, h2, level);
        let r = split_args_from(args, i, host, level);
        assert forall|k: int| 0 <= k < r.0.len() implies host.contains(#[trigger] r.0[k])
            || exists|j: int| i <= j < args.len() && args[j] == r.0[k] by {
            if h2.contains(r.0[k]) {
                let m = choose|m: int| 0 <= m < h2.len() && h2[m] == r.0[k];
                if m < host.len() {
                    assert(host[m] == r.0[k]);
                } else {
                    assert(args[i as int] == r.0[k]);
                }
            }
        }
    }
}

/// The level that parsing reports is the value that follows a `--log-level` / `-l` flag on the
/// command line; every argument forwarded to the host is one of the given arguments, and no more
/// arguments are forwarded than were given.
pub proof fn lemma_split_args_origins(args: Seq<Seq<char>>)
    ensures
        split_args(args).1 matches Some(l) ==> exists|j: int|
            0 <= j && j + 1 < args.len() && is_log_level_flag(#[trigger] args[j]) && args[j + 1]
                == l,
        forall|k: int|
            0 <= k < split_args(args).0.len() ==> args.contains(#[trigger] split_args(args).0[k]),
        split_args(args).0.len() <= args.len(),
{
    lemma_split_from_origins(args, 0, seq![], None);
    assert forall|k: int| 0 <= k < split_args(args).0.len() implies args.contains(
        #[trigger] split_args(args).0[k],
    ) by {
        let j = choose|j: int| 0 <= j < args.len() && args[j] == split_args(args).0[k];
        assert(args[j] == split_args(args).0[k]);
    }
}

/// Only the exact texts `--log-level` and `-l` (after lower-casing) are level flags: when no
/// argument lowercases to either of them, the whole command line is forwarded to the host, in
/// order, and no level is reported.
pub proof fn lemma_only_exact_flags_are_taken(args: Seq<Seq<char>>)
    requires
        forall|j: int|
            0 <= j < args.len() ==> lowercase(#[trigger] args[j]) != "--log-level"@ && lowercase(
                args[j],
            ) != "-l"@,
    ensures
        split_args(args).0 == args,
        split_args(args).1 == None::<Seq<char>>,
{
    lemma_args_without_flags_forwarded(args);
}

/// Scanning `a + t` from `i` reaches the end of `a` in the state that scanning `a` alone ends in,
/// when the last argument of `a` is no level flag (so it cannot take the first of `t` as a value).
proof fn lemma_split_from_prefix(
    a: Seq<Seq<char>>,
    t: Seq<Seq<char>>,
    i: nat,
    host: Seq<Seq<char>>,
    level: Option<Seq<char>>,
)
    requires
        i <= a.len(),
        a.len() > 0 ==> !is_log_level_flag(a[a.len() - 1]),
    ensures
        ({
            let end = split_args_from(a, i, host, level);
            split_args_from(a + t, i, host, level) == split_args_from(a + t, a.len(), end.0, end.1)
        }),
    decreases a.len() - i,
{
    let at = a + t;
    if i < a.len() {
        assert(at[i as int] == a[i as int]);
        if is_log_level_flag(a[i as int]) && i + 1 < a.len() {
            assert(at[(i + 1) as int] == a[(i + 1) as int]);
            lemma_split_from_prefix(a, t, i + 2, host, Some(a[(i + 1) as int]));
        } else {
            lemma_split_from_prefix(a, t, i + 1, host.push(a[i as int]), level);
        }
    }
}

/// A level flag and its value at the end of a command line set the reported level to that value
/// and leave the forwarded arguments as they were without them (a later flag overrides an
/// earlier one) — unless the argument before the flag is itself a flag, which then takes the
/// flag as its value.
pub proof fn lemma_trailing_flag_sets_level(args: Seq<Seq<char>>, flag: Seq<char>, value: Seq<char>)
    requires
        lowercase(flag) == "--log-level"@ || lowercase(flag) == "-l"@,
        args.len() > 0 ==> lowercase(args[args.len() - 1]) != "--log-level"@ && lowercase(
            args[args.len() - 1],
        ) != "-l"@,
    ensures
        split_args(args + seq![flag, value]) == (split_args(args).0, Some(value)),
{
    let t = seq![flag, value];
    lemma_split_from_prefix(args, t, 0, seq![], None);
    let end = split_args(args);
    let at = args + t;
    assert(at[args.len() as int] == flag);
    assert(at[args.len() + 1int] == value);
    assert(split_args_from(at, args.len() + 2, end.0, Some(value)) == (end.0, Some(value)));
}

/// The `i`-th character of the prefix alphabet `a..z A..Z 0..9` (for `0 <= i < 62`).
pub open spec fn prefix_alphabet_char(i: int) -> char {
    if i < 26 {
        (97 + i) as char
    } else if i < 52 {
        (65 + (i - 26)) as char
    } else {
        (48 + (i - 52)) as char
    }
}

/// The prefix character that a random byte stands for: the byte modulo the alphabet's size picks
/// it.
pub open spec fn prefix_char(b: u8) -> char {
    prefix_alphabet_char((b % 62) as int)
}

/// The prefix that a sequence of random bytes gives, one character per byte.
pub open spec fn prefix_text(bytes: Seq<u8>) -> Seq<char> {
    bytes.map_values(|b: u8| prefix_char(b))
}

/// Whether a character is an ASCII letter or digit.
pub open spec fn is_ascii_alphanumeric(c: char) -> bool {
    ('a' <= c && c <= 'z') || ('A' <= c && c <= 'Z') || ('0' <= c && c <= '9')
}

fn prefix_char_of(b: u8) -> (c: char)
    ensures
        c == prefix_char(b),
{
    let i: u8 = b % 62;
    if i < 26 {
        (97u8 + i) as char
    } else if i < 52 {
        (65u8 + (i - 26)) as char
    } else {
        (48u8 + (i - 52)) as char
    }
}

/// Maps random bytes to a queue-name prefix, one alphanumeric character per byte.
pub fn prefix_from_bytes(bytes: &[u8]) -> (prefix: String)
    ensures
        prefix@ == prefix_text(bytes@),
{
    let mut prefix = String::new();
    let n = bytes.len();
    let mut i: usize = 0;
    while i < n
        invariant
            n == bytes@.len(),
            i <= n,
            prefix@ == prefix_text(bytes@.take(i as int)),
        decreases n - i,
    {
        let c = prefix_char_of(bytes[i]);
        push_char(&mut prefix, c);
        assert(bytes@.take(i + 1) =~= bytes@.take(i as int).push(bytes@[i as int]));
        assert(prefix_text(bytes@.take(i + 1)) =~= prefix_text(bytes@.take(i as int)).push(c));
        i = i + 1;
    }
    assert(bytes@.take(n as int) =~= bytes@);
    prefix
}

/// Every character of a prefix is an ASCII letter or digit, and there is one per random byte.
pub proof fn lemma_prefix_is_alphanumeric(bytes: Seq<u8>)
    ensures
        prefix_text(bytes).len() == bytes.len(),
        forall|i: int| 0 <= i < bytes.len() ==> is_ascii_alphanumeric(#[trigger] prefix_text(bytes)[i]),
{
    assert forall|i: int| 0 <= i < bytes.len() implies is_ascii_alphanumeric(
        #[trigger] prefix_text(bytes)[i],
    ) by {
        let k = (bytes[i] % 62) as int;
        assert(0 <= k < 62);
    }
}

/// Bytes that agree modulo 62 give the same prefix character, and the 62 residues give 62
/// different characters: each letter and digit is drawn with the same share of the byte values.
pub proof fn lemma_prefix_char_spreads(b1: u8, b2: u8)
    ensures
        prefix_char(b1) == prefix_char(b2) <==> b1 % 62 == b2 % 62,
        is_ascii_alphanumeric(prefix_char(b1)),
{
}

#[verifier::external_type_specification]
#[verifier::external_body]
pub struct ExRandomError(getrandom::Error);

/// Calls `getrandom::fill` on the bytes of `dest`. Claimed: the length of `dest` is unchanged, and
/// an empty `dest` succeeds (as the crate documents). What the bytes hold is chance, and the crate
/// makes no promise about them on error.
#[verifier::external_body]
fn fill_random(dest: &mut Vec<u8>) -> (res: Result<(), getrandom::Error>)
    ensures
        final(dest)@.len() == old(dest)@.len(),
        old(dest)@.len() == 0 ==> res is Ok,
{
    getrandom::fill(dest.as_mut_slice())
}

/// Generates an alphanumeric prefix of `len` characters for shared-memory queue names, from the
/// system's random source.
pub fn generate_shared_memory_prefix(len: usize) -> (res: Result<String, getrandom::Error>)
    ensures
        res matches Ok(prefix) ==> exists|bytes: Seq<u8>|
            bytes.len() == len && prefix@ == #[trigger] prefix_text(bytes),
        len == 0 ==> res is Ok,
{
    let mut bytes = vec![0u8; len];
    match fill_random(&mut bytes) {
        Err(e) => Err(e),
        Ok(()) => {
            let prefix = prefix_from_bytes(bytes.as_slice());
            Ok(prefix)
        },
    }
}


/// File name of the host's runtime configuration, in the working directory.
pub const RUNTIME_CONFIG_FILE: &'static str = "Renderite.Host.runtimeconfig.json";

/// File name of the renderer executable on Windows.
pub const WINDOWS_RENDERER_FILE: &'static str = "renderide.exe";

/// File name of the renderer executable on other systems.
pub const RENDERER_FILE: &'static str = "Renderite.Renderer";

/// The directory of the renderer: the directory of the running executable, or the working
/// directory when the executable's path is unknown or has no parent.
pub open spec fn renderer_dir_text(current_directory: Seq<char>, current_exe: Option<Seq<char>>) -> Seq<char> {
    match current_exe {
        Some(exe) => match parent_path(exe) {
            Some(dir) => dir,
            None => current_directory,
        },
        None => current_directory,
    }
}

/// The renderer directory is the parent of the executable's path, exactly as `Path::parent`
/// gives it, and the working directory only when there is no executable path or it has no
/// parent.
pub proof fn lemma_renderer_dir_is_exe_parent(current_directory: Seq<char>, exe: Seq<char>)
    ensures
        forall|dir: Seq<char>|
            parent_path(exe) == Some(dir) ==> renderer_dir_text(current_directory, Some(exe))
                == dir,
        parent_path(exe) == None::<Seq<char>> ==> renderer_dir_text(current_directory, Some(exe))
            == current_directory,
        renderer_dir_text(current_directory, None) == current_directory,
{
}

/// Resolved paths and flags for one bootstrapper run.
pub struct ResoBootConfig {
    /// Current working directory (Resonite install root when launched from there).
    pub current_directory: String,
    /// Path to `Renderite.Host.runtimeconfig.json` under [`Self::current_directory`].
    pub runtime_config: String,
    /// Directory containing the renderer binary (the bootstrapper executable's directory).
    pub renderite_directory: String,
    /// Renderer executable path (`renderide.exe` on Windows, `Renderite.Renderer` elsewhere).
    pub renderite_executable: String,
    /// Random prefix for `{}.bootstrapper_in` / `{}.bootstrapper_out`.
    pub shared_memory_prefix: String,
    /// `true` when running under Wine on Linux.
    pub is_wine: bool,
    /// The log level passed to renderer spawns, as given on the command line, if set.
    pub renderide_log_level: Option<String>,
}

impl ResoBootConfig {
    /// Builds the configuration of a run from what the environment reported: the working
    /// directory, the path of the running executable (if known), whether Wine runs it, and whether
    /// the system is Windows. `shared_memory_prefix` must be pre-generated (see
    /// [`generate_shared_memory_prefix`]).
    pub fn new(
        shared_memory_prefix: String,
        renderide_log_level: Option<String>,
        current_directory: String,
        current_exe: Option<String>,
        is_wine: bool,
        on_windows: bool,
    ) -> (config: ResoBootConfig)
        ensures
            config.current_directory@ == current_directory@,
            config.runtime_config@ == joined_path(current_directory@, RUNTIME_CONFIG_FILE@),
            config.renderite_directory@ == renderer_dir_text(
                current_directory@,
                match current_exe {
                    Some(e) => Some(e@),
                    None => None,
                },
            ),
            config.renderite_executable@ == joined_path(
                config.renderite_directory@,
                if on_windows {
                    WINDOWS_RENDERER_FILE@
                } else {
                    RENDERER_FILE@
                },
            ),
            config.shared_memory_prefix == shared_memory_prefix,
            config.is_wine == is_wine,
            config.renderide_log_level == renderide_log_level,
    {
        let runtime_config = join_path(current_directory.as_str(), RUNTIME_CONFIG_FILE);
        let exe_dir = match current_exe {
            Some(exe) => match parent_of(exe.as_str()) {
                Some(dir) => dir,
                None => current_directory.clone(),
            },
            None => current_directory.clone(),
        };
        let file = if on_windows {
            WINDOWS_RENDERER_FILE
        } else {
            RENDERER_FILE
        };
        let renderite_executable = join_path(exe_dir.as_str(), file);
        ResoBootConfig {
            current_directory,
            runtime_config,
            renderite_directory: exe_dir,
            renderite_executable,
            shared_memory_prefix,
            is_wine,
            renderide_log_level,
        }
    }
}

} // verus!
