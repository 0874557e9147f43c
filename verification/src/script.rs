//! Running a script of the charm: where it lies, the environment it gets,
//! and what its exit means. The process itself is started elsewhere.

use crate::error::{ScriptError, ValidationError, ValidationErrorView};
use crate::strmap::{put, StrMap};
use crate::text::contains_char;
use vstd::prelude::*;

verus! {

/// How a process ended.
#[derive(Clone, Copy, Debug, PartialEq, Eq, Structural)]
pub enum ExitStatus {
    /// It exited with this code.
    Exited(u32),
    /// This signal ended it.
    Signaled(u8),
    /// It ended with a status that is neither.
    Other(i32),
    /// How it ended could not be found out.
    Undetermined,
}

/// What the end of a script means: success for the exit code 0, else the
/// error that tells how it failed.
pub open spec fn outcome_of(status: ExitStatus) -> Result<(), ScriptError> {
    match status {
        ExitStatus::Exited(code) => if code == 0 {
            Ok(())
        } else {
            Err(ScriptError::HostScriptFailed(code))
        },
        ExitStatus::Signaled(signal) => Err(ScriptError::HostScriptSignaled(signal)),
        ExitStatus::Other(_) => Err(ScriptError::HostScriptAbnormal),
        ExitStatus::Undetermined => Err(ScriptError::HostScriptAbnormal),
    }
}

/// Tells success from failure by the way a script ended.
pub fn exit_result(status: ExitStatus) -> (r: Result<(), ScriptError>)
    ensures
        r == outcome_of(status),
{
    match status {
        ExitStatus::Exited(code) => {
            if code == 0 {
                Ok(())
            } else {
                Err(ScriptError::HostScriptFailed(code))
            }
        },
        ExitStatus::Signaled(signal) => Err(ScriptError::HostScriptSignaled(signal)),
        ExitStatus::Other(_) => Err(ScriptError::HostScriptAbnormal),
        ExitStatus::Undetermined => Err(ScriptError::HostScriptAbnormal),
    }
}

/// The directory of the charm's own programs.
pub open spec fn bin_dir_of(charm_dir: Seq<char>) -> Seq<char> {
    charm_dir + seq!['/', 'b', 'i', 'n']
}

/// The directory of the charm's own programs.
pub fn bin_dir(charm_dir: &str) -> (r: String)
    ensures
        r@ == bin_dir_of(charm_dir@),
{
    proof {
        reveal_strlit("/bin");
        assert("/bin"@ =~= seq!['/', 'b', 'i', 'n']);
    }
    charm_dir.to_owned().concat("/bin")
}

/// The file of a host script of the charm.
pub open spec fn host_script_path_of(charm_dir: Seq<char>, script: Seq<char>) -> Seq<char> {
    charm_dir + seq!['/', 'h', 'o', 's', 't', '_', 's', 'c', 'r', 'i', 'p', 't', 's', '/'] + script
}

/// The file of a host script of the charm.
pub fn host_script_path(charm_dir: &str, script: &str) -> (r: String)
    ensures
        r@ == host_script_path_of(charm_dir@, script@),
{
    proof {
        reveal_strlit("/host_scripts/");
        assert("/host_scripts/"@ =~= seq![
            '/',
            'h',
            'o',
            's',
            't',
            '_',
            's',
            'c',
            'r',
            'i',
            'p',
            't',
            's',
            '/',
        ]);
    }
    let r = charm_dir.to_owned().concat("/host_scripts/").concat(script);
    assert(r@ =~= host_script_path_of(charm_dir@, script@));
    r
}

/// The search path that a script gets: the search path of the daemon, then
/// the charm's own programs, then the directory of the daemon's executable
/// where it is known. Without a search path of the daemon it is the charm's
/// programs alone. A directory that is added must not hold a colon, which
/// is what parts the directories of a search path: then there is no search
/// path.
pub open spec fn search_path_of(
    current: Option<Seq<char>>,
    charm_dir: Seq<char>,
    exe_dir: Option<Seq<char>>,
) -> Option<Seq<char>> {
    match current {
        None => Some(bin_dir_of(charm_dir)),
        Some(path) => if bin_dir_of(charm_dir).contains(':') {
            None
        } else {
            match exe_dir {
                None => Some(path + seq![':'] + bin_dir_of(charm_dir)),
                Some(dir) => if dir.contains(':') {
                    None
                } else {
                    Some(path + seq![':'] + bin_dir_of(charm_dir) + seq![':'] + dir)
                },
            }
        },
    }
}

/// The search path that a script gets, from the search path of the daemon
/// and the directory of its executable. Fails where a directory that is to
/// be added holds a colon.
pub fn search_path(current: &Option<String>, charm_dir: &str, exe_dir: &Option<String>) -> (r:
    Result<String, ValidationError>)
    ensures
        match r {
            Ok(path) => Some(path@) == search_path_of(
                current.deep_view(),
                charm_dir@,
                exe_dir.deep_view(),
            ),
            Err(e) => e@ == ValidationErrorView::InvalidPath && search_path_of(
                current.deep_view(),
                charm_dir@,
                exe_dir.deep_view(),
            ) is None,
        },
{
    let bin = bin_dir(charm_dir);
    match current {
        None => Ok(bin),
        Some(path) => {
            if contains_char(bin.as_str(), ':') {
                return Err(ValidationError::InvalidPath);
            }
            proof {
                reveal_strlit(":");
                assert(":"@ =~= seq![':']);
            }
            let with_bin = path.clone().concat(":").concat(bin.as_str());
            match exe_dir {
                None => Ok(with_bin),
                Some(dir) => {
                    if contains_char(dir.as_str(), ':') {
                        Err(ValidationError::InvalidPath)
                    } else {
                        Ok(with_bin.concat(":").concat(dir.as_str()))
                    }
                },
            }
        },
    }
}

/// The entries of `base` with those of `top` laid over them, in their
/// order: a variable of `top` replaces one of the same name.
pub open spec fn overlay<T>(base: Seq<(Seq<char>, T)>, top: Seq<(Seq<char>, T)>) -> Seq<
    (Seq<char>, T),
>
    decreases top.len(),
{
    if top.len() == 0 {
        base
    } else {
        put(overlay(base, top.drop_last()), top.last().0, top.last().1)
    }
}

/// Lays the entries of `top` over those of `base`.
pub fn overlay_strings(base: &mut StrMap<String>, top: &StrMap<String>)
    ensures
        final(base).deep_view() == overlay(old(base).deep_view(), top.deep_view()),
{
    let ghost start = base.entries();
    let ghost all = top.entries();
    let n: usize = top.len();
    let mut i: usize = 0;
    while i < n
        invariant
            n == all.len(),
            all == top.entries(),
            i <= n,
            base.entries() == overlay(start, all.take(i as int)),
        decreases n - i,
    {
        proof {
            let next = all.take(i as int + 1);
            assert(next.drop_last() =~= all.take(i as int));
            assert(next.last() == all[i as int]);
        }
        base.insert(top.key_at(i).clone(), top.value_at(i).clone());
        i += 1;
    }
    assert(all.take(n as int) =~= all);
}

/// The environment of a script: the search path, the mark that the script
/// talks to the daemon as a client, the id of the script and the name of
/// the hook, with the caller's variables laid over them.
pub open spec fn script_environment_of(
    search_path: Seq<char>,
    script_id: Seq<char>,
    hook_name: Seq<char>,
    environment: Seq<(Seq<char>, Seq<char>)>,
) -> Seq<(Seq<char>, Seq<char>)> {
    overlay(
        seq![
            ("PATH"@, search_path),
            ("LUCKY_CONTEXT"@, "client"@),
            ("LUCKY_SCRIPT_ID"@, script_id),
            ("LUCKY_HOOK"@, hook_name),
        ],
        environment,
    )
}

/// Builds the environment of a script.
pub fn script_environment(
    search_path: &str,
    script_id: &str,
    hook_name: &str,
    environment: &StrMap<String>,
) -> (r: StrMap<String>)
    ensures
        r.deep_view() == script_environment_of(
            search_path@,
            script_id@,
            hook_name@,
            environment.deep_view(),
        ),
{
    proof {
        reveal_strlit("PATH");
        reveal_strlit("LUCKY_CONTEXT");
        reveal_strlit("LUCKY_SCRIPT_ID");
        reveal_strlit("LUCKY_HOOK");
    }
    let mut env: StrMap<String> = StrMap::new();
    env.insert("PATH".to_owned(), search_path.to_owned());
    assert(env.entries() =~= seq![("PATH"@, search_path@)]);
    assert(!crate::strmap::has_key(env.entries(), "LUCKY_CONTEXT"@)) by {
        assert("PATH"@.len() != "LUCKY_CONTEXT"@.len());
    }
    env.insert("LUCKY_CONTEXT".to_owned(), "client".to_owned());
    assert(env.entries() =~= seq![("PATH"@, search_path@), ("LUCKY_CONTEXT"@, "client"@)]);
    assert(!crate::strmap::has_key(env.entries(), "LUCKY_SCRIPT_ID"@)) by {
        assert("PATH"@.len() != "LUCKY_SCRIPT_ID"@.len());
        assert("LUCKY_CONTEXT"@.len() != "LUCKY_SCRIPT_ID"@.len());
    }
    env.insert("LUCKY_SCRIPT_ID".to_owned(), script_id.to_owned());
    assert(env.entries() =~= seq![
        ("PATH"@, search_path@),
        ("LUCKY_CONTEXT"@, "client"@),
        ("LUCKY_SCRIPT_ID"@, script_id@),
    ]);
    assert(!crate::strmap::has_key(env.entries(), "LUCKY_HOOK"@)) by {
        assert("PATH"@.len() != "LUCKY_HOOK"@.len());
        assert("LUCKY_CONTEXT"@.len() != "LUCKY_HOOK"@.len());
        assert("LUCKY_SCRIPT_ID"@.len() != "LUCKY_HOOK"@.len());
    }
    env.insert("LUCKY_HOOK".to_owned(), hook_name.to_owned());
    assert(env.entries() =~= seq![
        ("PATH"@, search_path@),
        ("LUCKY_CONTEXT"@, "client"@),
        ("LUCKY_SCRIPT_ID"@, script_id@),
        ("LUCKY_HOOK"@, hook_name@),
    ]);
    overlay_strings(&mut env, environment);
    env
}

} // verus!
