//! Assembly of the final launch invocation: the executable and the
//! argument vector, in a deterministic order.

use vstd::prelude::*;

use crate::config::{str_list_view, Configuration, ConfigurationV};
use crate::fflags::FlagSet;
use crate::provision::{BinaryPath, Os};
use crate::roblox::{
    security_level_name, spec_definitions_file_for_level, spec_level_name,
};
use crate::strutil::{is_prefix_of, spec_decimal, str_starts_with, u16_to_string};

verus! {

/// Whether `c` is an ASCII letter.
pub open spec fn spec_is_ascii_alpha(c: char) -> bool {
    (65 <= c as u32 <= 90) || (97 <= c as u32 <= 122)
}

fn is_ascii_alpha(c: char) -> (r: bool)
    ensures
        r == spec_is_ascii_alpha(c),
{
    let u = c as u32;
    (65 <= u && u <= 90) || (97 <= u && u <= 122)
}

/// Whether a path is absolute on `os`.  The execution sandbox presents
/// every path with a leading `/`, even on Windows, so the Windows case
/// is decided by hand: a drive letter followed by `:` and a separator,
/// or a UNC prefix; elsewhere a leading `/` decides.
pub open spec fn spec_is_absolute(path: Seq<char>, os: Os) -> bool {
    match os {
        Os::Windows => if path.len() >= 3 && path[1] == ':' {
            spec_is_ascii_alpha(path[0]) && (path[2] == '\\' || path[2] == '/')
        } else {
            is_prefix_of("//"@, path) || is_prefix_of("\\\\"@, path)
        },
        _ => path.len() >= 1 && path[0] == '/',
    }
}

/// Whether a path is absolute on `os`.
pub fn is_path_absolute(path: &str, os: Os) -> (r: bool)
    ensures
        r == spec_is_absolute(path@, os),
{
    let n = path.unicode_len();
    match os {
        Os::Windows => {
            if n >= 3 && path.get_char(1) == ':' {
                is_ascii_alpha(path.get_char(0)) && {
                    let sep = path.get_char(2);
                    sep == '\\' || sep == '/'
                }
            } else {
                str_starts_with(path, "//") || str_starts_with(path, "\\\\")
            }
        },
        _ => n >= 1 && path.get_char(0) == '/',
    }
}

/// A path as an argument names it: unchanged where absolute, else under
/// the worktree root.
pub open spec fn spec_prefixed(path: Seq<char>, root: Seq<char>, os: Os) -> Seq<char> {
    if spec_is_absolute(path, os) {
        path
    } else {
        root + "/"@ + path
    }
}

/// The working directory as arguments name it: the sandbox's leading
/// `/` falls away on Windows, where native paths carry none.
pub open spec fn spec_normalized_dir(dir: Seq<char>, os: Os) -> Seq<char> {
    if os == Os::Windows && dir.len() >= 1 && dir[0] == '/' {
        dir.skip(1)
    } else {
        dir
    }
}

/// Normalizes the working directory for `os`.
pub fn normalize_current_dir(dir: &str, os: Os) -> (r: String)
    ensures
        r@ == spec_normalized_dir(dir@, os),
{
    let n = dir.unicode_len();
    match os {
        Os::Windows => {
            if n >= 1 && dir.get_char(0) == '/' {
                let r = String::from_str(dir.substring_char(1, n));
                assert(r@ =~= dir@.skip(1));
                r
            } else {
                String::from_str(dir)
            }
        },
        _ => String::from_str(dir),
    }
}

/// One `--flag:NAME=VALUE` argument per resolved flag, in the set's
/// order.
pub open spec fn spec_flag_args(flags: Seq<(Seq<char>, Seq<char>)>) -> Seq<Seq<char>> {
    flags.map_values(|p: (Seq<char>, Seq<char>)| "--flag:"@ + p.0 + "="@ + p.1)
}

/// The user-declared path entries, each behind `opt` and prefixed with
/// the worktree root unless already absolute.
pub open spec fn spec_path_args(
    opt: Seq<char>,
    items: Seq<Seq<char>>,
    root: Seq<char>,
    os: Os,
) -> Seq<Seq<char>> {
    items.map_values(|d: Seq<char>| opt + spec_prefixed(d, root, os))
}

/// The argument vector of the invocation, part after part: the plugin
/// port and proxy target where the plugin is enabled; the subcommand
/// token; `--no-flags-enabled` unless flags are enabled by default; one
/// argument per resolved flag; the Roblox documentation and definition
/// assets where enabled, each behind its own sub-toggle; the
/// user-declared definition and documentation entries; and the raw
/// passthrough arguments.
pub open spec fn spec_command_args(
    cfg: ConfigurationV,
    flags: Seq<(Seq<char>, Seq<char>)>,
    binary: (Seq<char>, bool),
    current_dir: Seq<char>,
    worktree_root: Seq<char>,
    os: Os,
) -> Seq<Seq<char>> {
    let dir = spec_normalized_dir(current_dir, os);
    let plugin_part: Seq<Seq<char>> = if cfg.plugin.enabled {
        seq![
            spec_decimal(cfg.plugin.port as nat),
            if binary.1 {
                dir + "/"@ + binary.0
            } else {
                binary.0
            },
        ]
    } else {
        Seq::empty()
    };
    let no_flags_part: Seq<Seq<char>> = if !cfg.fflags.enable_by_default {
        seq!["--no-flags-enabled"@]
    } else {
        Seq::empty()
    };
    let docs_part: Seq<Seq<char>> = if cfg.roblox.enabled && cfg.roblox.download_api_documentation {
        seq!["--docs="@ + dir + "/"@ + "api-docs.json"@]
    } else {
        Seq::empty()
    };
    let defs_part: Seq<Seq<char>> = if cfg.roblox.enabled && cfg.roblox.download_definitions {
        seq![
            "--definitions="@ + dir + "/"@ + spec_definitions_file_for_level(
                spec_level_name(cfg.roblox.security_level),
            ),
        ]
    } else {
        Seq::empty()
    };
    plugin_part + seq!["lsp"@] + no_flags_part + spec_flag_args(flags) + docs_part + defs_part
        + spec_path_args("--definitions="@, cfg.definitions, worktree_root, os) + spec_path_args(
        "--docs="@,
        cfg.documentation,
        worktree_root,
        os,
    ) + cfg.binary.args
}

/// The assembled invocation: the executable, its ordered arguments, and
/// an always-empty environment.
#[derive(Debug)]
pub struct Command {
    pub command: String,
    pub args: Vec<String>,
    pub env: Vec<(String, String)>,
}

/// Appends `opt` + the prefixed `path` to `args`.
fn push_path_arg(args: &mut Vec<String>, opt: &str, path: &str, root: &str, os: Os)
    ensures
        str_list_view(final(args)@) == str_list_view(old(args)@).push(
            opt@ + spec_prefixed(path@, root@, os),
        ),
{
    let mut s = String::from_str(opt);
    if !is_path_absolute(path, os) {
        s.append(root);
        s.append("/");
    }
    s.append(path);
    assert(s@ =~= opt@ + spec_prefixed(path@, root@, os));
    args.push(s);
    assert(str_list_view(final(args)@) =~= str_list_view(old(args)@).push(
        opt@ + spec_prefixed(path@, root@, os),
    ));
}

/// Assembles the launch invocation from the resolved configuration, the
/// resolved flags, the resolved binary, and the platform facts.
///
/// With the plugin enabled the proxy is the executable and the language
/// server becomes its target, so a proxy path is required there.
pub fn build_command(
    cfg: &Configuration,
    flags: &FlagSet,
    binary: &BinaryPath,
    proxy_path: Option<&String>,
    current_dir: &str,
    worktree_root: &str,
    os: Os,
) -> (r: Command)
    requires
        cfg.plugin.enabled ==> proxy_path is Some,
    ensures
        str_list_view(r.args@) == spec_command_args(
            cfg@,
            flags@,
            binary@,
            current_dir@,
            worktree_root@,
            os,
        ),
        r.command@ == if cfg.plugin.enabled {
            match proxy_path {
                Some(p) => p@,
                None => binary.path@,
            }
        } else {
            binary.path@
        },
        r.env@.len() == 0,
{
    let dir = normalize_current_dir(current_dir, os);
    let mut args: Vec<String> = Vec::new();
    assert(str_list_view(args@) =~= Seq::<Seq<char>>::empty());

    let ghost plugin_part: Seq<Seq<char>> = if cfg@.plugin.enabled {
        seq![
            spec_decimal(cfg@.plugin.port as nat),
            if binary@.1 {
                dir@ + "/"@ + binary@.0
            } else {
                binary@.0
            },
        ]
    } else {
        Seq::<Seq<char>>::empty()
    };
    if cfg.plugin.enabled {
        args.push(u16_to_string(cfg.plugin.port));
        if binary.is_extension_owned {
            let mut target = dir.clone();
            target.append("/");
            target.append(binary.path.as_str());
            assert(target@ =~= dir@ + "/"@ + binary@.0);
            args.push(target);
        } else {
            args.push(binary.path.clone());
        }
    }
    assert(str_list_view(args@) =~= plugin_part);

    args.push(String::from_str("lsp"));
    assert(str_list_view(args@) =~= plugin_part + seq!["lsp"@]);

    let ghost no_flags_part: Seq<Seq<char>> = if !cfg@.fflags.enable_by_default {
        seq!["--no-flags-enabled"@]
    } else {
        Seq::<Seq<char>>::empty()
    };
    if !cfg.fflags.enable_by_default {
        args.push(String::from_str("--no-flags-enabled"));
    }
    assert(str_list_view(args@) =~= plugin_part + seq!["lsp"@] + no_flags_part);

    let ghost before_flags = str_list_view(args@);
    let mut i: usize = 0;
    assert(spec_flag_args(flags@.take(0)) =~= Seq::<Seq<char>>::empty());
    assert(str_list_view(args@) =~= before_flags + spec_flag_args(flags@.take(0)));
    while i < flags.entries.len()
        invariant
            0 <= i <= flags.entries@.len(),
            str_list_view(args@) == before_flags + spec_flag_args(flags@.take(i as int)),
        decreases flags.entries@.len() - i,
    {
        let e = &flags.entries[i];
        let mut s = String::from_str("--flag:");
        s.append(e.0.as_str());
        s.append("=");
        s.append(e.1.as_str());
        assert(s@ =~= "--flag:"@ + flags@[i as int].0 + "="@ + flags@[i as int].1);
        let ghost pre = str_list_view(args@);
        args.push(s);
        proof {
            assert(str_list_view(args@) =~= pre.push(
                "--flag:"@ + flags@[i as int].0 + "="@ + flags@[i as int].1,
            ));
            assert(spec_flag_args(flags@.take(i as int + 1)) =~= spec_flag_args(
                flags@.take(i as int),
            ).push("--flag:"@ + flags@[i as int].0 + "="@ + flags@[i as int].1));
            assert(str_list_view(args@) =~= before_flags + spec_flag_args(
                flags@.take(i as int + 1),
            ));
        }
        i = i + 1;
    }
    assert(flags@.take(flags@.len() as int) =~= flags@);

    let ghost docs_part: Seq<Seq<char>> = if cfg@.roblox.enabled
        && cfg@.roblox.download_api_documentation {
        seq!["--docs="@ + dir@ + "/"@ + "api-docs.json"@]
    } else {
        Seq::<Seq<char>>::empty()
    };
    let ghost defs_part: Seq<Seq<char>> = if cfg@.roblox.enabled
        && cfg@.roblox.download_definitions {
        seq![
            "--definitions="@ + dir@ + "/"@ + spec_definitions_file_for_level(
                spec_level_name(cfg@.roblox.security_level),
            ),
        ]
    } else {
        Seq::<Seq<char>>::empty()
    };
    if cfg.roblox.enabled {
        if cfg.roblox.download_api_documentation {
            let mut s = String::from_str("--docs=");
            s.append(dir.as_str());
            s.append("/");
            s.append("api-docs.json");
            assert(s@ =~= "--docs="@ + dir@ + "/"@ + "api-docs.json"@);
            args.push(s);
        }
        if cfg.roblox.download_definitions {
            let level = security_level_name(cfg.roblox.security_level);
            let file = crate::roblox::get_definitions_file_for_level(level);
            let mut s = String::from_str("--definitions=");
            s.append(dir.as_str());
            s.append("/");
            s.append(file.as_str());
            assert(s@ =~= "--definitions="@ + dir@ + "/"@ + spec_definitions_file_for_level(
                spec_level_name(cfg@.roblox.security_level),
            ));
            args.push(s);
        }
    }
    assert(str_list_view(args@) =~= before_flags + spec_flag_args(flags@) + docs_part + defs_part);

    let ghost before_defs = str_list_view(args@);
    let mut i: usize = 0;
    assert(str_list_view(cfg.definitions@).take(0) =~= Seq::<Seq<char>>::empty());
    assert(spec_path_args("--definitions="@, str_list_view(cfg.definitions@).take(0), worktree_root@, os)
        =~= Seq::<Seq<char>>::empty());
    while i < cfg.definitions.len()
        invariant
            0 <= i <= cfg.definitions@.len(),
            str_list_view(args@) == before_defs + spec_path_args(
                "--definitions="@,
                str_list_view(cfg.definitions@).take(i as int),
                worktree_root@,
                os,
            ),
        decreases cfg.definitions@.len() - i,
    {
        push_path_arg(&mut args, "--definitions=", cfg.definitions[i].as_str(), worktree_root, os);
        proof {
            let items = str_list_view(cfg.definitions@);
            assert(spec_path_args("--definitions="@, items.take(i as int + 1), worktree_root@, os)
                =~= spec_path_args("--definitions="@, items.take(i as int), worktree_root@, os).push(
                "--definitions="@ + spec_prefixed(items[i as int], worktree_root@, os),
            ));
        }
        i = i + 1;
    }
    assert(str_list_view(cfg.definitions@).take(cfg.definitions@.len() as int) =~= str_list_view(
        cfg.definitions@,
    ));

    let ghost before_docs = str_list_view(args@);
    let mut i: usize = 0;
    assert(str_list_view(cfg.documentation@).take(0) =~= Seq::<Seq<char>>::empty());
    assert(spec_path_args("--docs="@, str_list_view(cfg.documentation@).take(0), worktree_root@, os)
        =~= Seq::<Seq<char>>::empty());
    while i < cfg.documentation.len()
        invariant
            0 <= i <= cfg.documentation@.len(),
            str_list_view(args@) == before_docs + spec_path_args(
                "--docs="@,
                str_list_view(cfg.documentation@).take(i as int),
                worktree_root@,
                os,
            ),
        decreases cfg.documentation@.len() - i,
    {
        push_path_arg(&mut args, "--docs=", cfg.documentation[i].as_str(), worktree_root, os);
        proof {
            let items = str_list_view(cfg.documentation@);
            assert(spec_path_args("--docs="@, items.take(i as int + 1), worktree_root@, os)
                =~= spec_path_args("--docs="@, items.take(i as int), worktree_root@, os).push(
                "--docs="@ + spec_prefixed(items[i as int], worktree_root@, os),
            ));
        }
        i = i + 1;
    }
    assert(str_list_view(cfg.documentation@).take(cfg.documentation@.len() as int) =~= str_list_view(
        cfg.documentation@,
    ));

    let ghost before_raw = str_list_view(args@);
    let mut i: usize = 0;
    assert(cfg@.binary.args.take(0) =~= Seq::<Seq<char>>::empty());
    while i < cfg.binary.args.len()
        invariant
            0 <= i <= cfg.binary.args@.len(),
            str_list_view(args@) == before_raw + cfg@.binary.args.take(i as int),
        decreases cfg.binary.args@.len() - i,
    {
        let ghost pre = str_list_view(args@);
        args.push(cfg.binary.args[i].clone());
        proof {
            assert(str_list_view(args@) =~= pre.push(cfg@.binary.args[i as int]));
            assert(cfg@.binary.args.take(i as int + 1) =~= cfg@.binary.args.take(i as int).push(
                cfg@.binary.args[i as int],
            ));
            assert(str_list_view(args@) =~= before_raw + cfg@.binary.args.take(i as int + 1));
        }
        i = i + 1;
    }
    assert(cfg@.binary.args.take(cfg@.binary.args.len() as int) =~= cfg@.binary.args);

    let command = if cfg.plugin.enabled {
        match proxy_path {
            Some(p) => p.clone(),
            None => binary.path.clone(),
        }
    } else {
        binary.path.clone()
    };

    assert(str_list_view(args@) =~= spec_command_args(
        cfg@,
        flags@,
        binary@,
        current_dir@,
        worktree_root@,
        os,
    ));
    Command { command, args, env: Vec::new() }
}

} // verus!
