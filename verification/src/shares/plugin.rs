//! The network-shares plugin: whether it is loaded, which requests it takes, and
//! how it reports failures to its host.

use crate::plugin_error::{permanent, permanent_with, ErrorClass, ErrorModel, PluginError};
use crate::shares::mounting::MountError;
use crate::shares::runtime::NetworkSharesRuntime;
use crate::shares::state::SharesStateError;
use crate::shares::verbs::{find_verb, verb_names, Verb, VerbDispatchError};
use crate::text::{
    chars_of, debug_quoted, debug_text, has_prefix, joined, lines, lines_of, opt_str_view, parse_u32, piece_views,
    starts_with, unsigned_of, words, words_of,
};
use vstd::prelude::*;

verus! {

/// The plugin's name.
pub const PLUGIN_NAME: &'static str = "org.evoframework.network.shares";

/// The effective user that a process status names: the third word of its first
/// `Uid:` line.
pub open spec fn effective_uid(lines: Seq<Seq<char>>) -> Option<nat>
    decreases lines.len(),
{
    if lines.len() == 0 {
        None
    } else if has_prefix(lines[0], "Uid:"@) {
        let words = words_of(lines[0]);
        if words.len() > 2 {
            unsigned_of(words[2], u32::MAX as nat)
        } else {
            None
        }
    } else {
        effective_uid(lines.skip(1))
    }
}

/// Whether mounting needs `sudo`: the process is not known to run as root.
pub open spec fn sudo_needed(status: Option<Seq<char>>) -> bool {
    match status {
        Some(text) => effective_uid(lines_of(text)) != Some(0nat),
        None => true,
    }
}

/// Whether mounting needs `sudo`, from the text of the process status.
pub fn needs_sudo(status: Option<&str>) -> (r: bool)
    ensures
        r == sudo_needed(opt_str_view(status)),
{
    let text = match status {
        Some(s) => s,
        None => {
            return true;
        },
    };
    let all = lines(chars_of(text).as_slice());
    let n: usize = all.len();
    let ghost views = piece_views(all@);
    assert(views.skip(0) =~= views);
    let mut i: usize = 0;
    while i < n
        invariant
            i <= n == all@.len(),
            views == piece_views(all@),
            views == lines_of(text@),
            status == Some(text),
            effective_uid(views.skip(i as int)) == effective_uid(views),
        decreases n - i,
    {
        assert(views.skip(i as int)[0] == all@[i as int]@);
        assert(views.skip(i as int).skip(1) =~= views.skip(i + 1));
        if starts_with(all[i].as_slice(), "Uid:") {
            let parts = words(all[i].as_slice());
            assert(piece_views(parts@).len() == parts@.len());
            if parts.len() > 2 {
                assert(piece_views(parts@)[2] == parts@[2]@);
                return match parse_u32(parts[2].as_slice()) {
                    Some(uid) => uid != 0,
                    None => true,
                };
            }
            return true;
        }
        i = i + 1;
    }
    assert(views.skip(n as int).len() == 0);
    true
}

/// The plugin.
pub struct NetworkSharesPlugin {
    pub loaded: bool,
    pub runtime: Option<NetworkSharesRuntime>,
}

impl NetworkSharesPlugin {
    /// A plugin that has not been loaded.
    pub fn new() -> (r: NetworkSharesPlugin)
        ensures
            !r.loaded,
            r.runtime is None,
    {
        NetworkSharesPlugin { loaded: false, runtime: None }
    }

    /// Takes in what came of opening the runtime. A failure leaves the plugin as
    /// it was.
    pub fn load(&mut self, opened: Result<NetworkSharesRuntime, SharesStateError>) -> (r: Result<
        (),
        PluginError,
    >)
        ensures
            match opened {
                Ok(runtime) => {
                    &&& r is Ok
                    &&& final(self).loaded
                    &&& final(self).runtime == Some(runtime)
                },
                Err(e) => {
                    &&& r is Err
                    &&& r->Err_0@ == ErrorModel::Permanent(
                        "network.shares runtime open failed: "@ + e.message(),
                    )
                    &&& *final(self) == *old(self)
                },
            },
    {
        match opened {
            Ok(runtime) => {
                self.runtime = Some(runtime);
                self.loaded = true;
                Ok(())
            },
            Err(e) => Err(
                permanent_with("network.shares runtime open failed: ", e.to_text().as_str()),
            ),
        }
    }

    /// Drops the runtime.
    pub fn unload(&mut self)
        ensures
            !final(self).loaded,
            final(self).runtime is None,
    {
        self.runtime = None;
        self.loaded = false;
    }

    /// Why the plugin is unhealthy; none when it is healthy.
    pub fn health(&self) -> (r: Option<String>)
        ensures
            self.loaded && self.runtime is Some ==> r is None,
            !(self.loaded && self.runtime is Some) ==> r is Some && r->Some_0@
                == "network.shares plugin not loaded"@,
    {
        if self.loaded && self.runtime.is_some() {
            None
        } else {
            Some("network.shares plugin not loaded".to_owned())
        }
    }

    /// Which verb a request runs, if the plugin takes it.
    pub fn accept_request(&self, request_type: &str, past_deadline: bool) -> (r: Result<Verb, PluginError>)
        ensures
            if self.runtime is None {
                r is Err && r->Err_0@ == ErrorModel::Permanent("network.shares plugin not loaded"@)
            } else if past_deadline {
                r is Err && r->Err_0@ == ErrorModel::Transient("request deadline already expired"@)
            } else if verb_names().contains(request_type@) {
                r is Ok && r->Ok_0.name() == request_type@
            } else {
                r is Err && r->Err_0@ == ErrorModel::Permanent(
                    "network.shares: unknown verb "@ + debug_quoted(request_type@),
                )
            },
    {
        if self.runtime.is_none() {
            return Err(permanent("network.shares plugin not loaded"));
        }
        if past_deadline {
            return Err(PluginError::Transient("request deadline already expired".to_owned()));
        }
        match find_verb(request_type) {
            Some(v) => {
                proof {
                    crate::shares::verbs::lemma_name_is_listed(v);
                }
                Ok(v)
            },
            None => Err(
                permanent_with("network.shares: unknown verb ", debug_text(request_type).as_str()),
            ),
        }
    }
}

impl Default for NetworkSharesPlugin {
    fn default() -> (r: NetworkSharesPlugin)
        ensures
            !r.loaded,
            r.runtime is None,
    {
        NetworkSharesPlugin::new()
    }
}

/// What the operator is told when nobody is there to answer a password prompt.
pub open spec fn no_responder_text(key: Seq<char>) -> Seq<char> {
    "network.share mutation refused: no user-interaction responder session is currently connected to answer the password prompt for credential key "@
        + key + ". Try again after a session claims the responder slot."@
}

/// How a verb's failure is reported: a failed mount may pass, nothing else does. A
/// mount for which nobody could be asked for the password keeps its own subclass
/// and text.
pub open spec fn reported(e: VerbDispatchError) -> ErrorModel {
    match e {
        VerbDispatchError::Mount(MountError::NoResponderAvailable { key, .. }) => {
            ErrorModel::WithSubclass {
                class: ErrorClass::PermissionDenied,
                subclass: "no_responder_available"@,
                message: no_responder_text(key@),
            }
        },
        VerbDispatchError::Mount(_) => ErrorModel::Transient(e.message()),
        _ => ErrorModel::Permanent(e.message()),
    }
}

/// How a verb's failure is reported.
pub fn verb_error_to_plugin_error(e: &VerbDispatchError) -> (r: PluginError)
    ensures
        r@ == reported(*e),
{
    match e {
        VerbDispatchError::Mount(MountError::NoResponderAvailable { key, .. }) => {
            let mut message = joined(
                "network.share mutation refused: no user-interaction responder session is currently connected to answer the password prompt for credential key ",
                key.as_str(),
            );
            message.append(". Try again after a session claims the responder slot.");
            PluginError::WithSubclass {
                class: ErrorClass::PermissionDenied,
                subclass: "no_responder_available".to_owned(),
                message,
            }
        },
        VerbDispatchError::Mount(_) => PluginError::Transient(e.to_text()),
        _ => PluginError::Permanent(e.to_text()),
    }
}

/// The first `Uid:` line decides, whatever stands before and after it: mounting
/// needs no `sudo` if and only if its third word is zero.
pub proof fn law_the_first_uid_line_decides(
    before: Seq<Seq<char>>,
    line: Seq<char>,
    after: Seq<Seq<char>>,
)
    requires
        forall|i: int| 0 <= i < before.len() ==> !has_prefix(#[trigger] before[i], "Uid:"@),
        has_prefix(line, "Uid:"@),
    ensures
        words_of(line).len() > 2 ==> effective_uid(before + seq![line] + after) == unsigned_of(
            words_of(line)[2],
            u32::MAX as nat,
        ),
        words_of(line).len() <= 2 ==> effective_uid(before + seq![line] + after) is None,
    decreases before.len(),
{
    let all = before + seq![line] + after;
    if before.len() == 0 {
        assert(all[0] == line);
    } else {
        assert(all[0] == before[0]);
        assert(all.skip(1) =~= before.skip(1) + seq![line] + after);
        assert forall|i: int| 0 <= i < before.skip(1).len() implies !has_prefix(
            #[trigger] before.skip(1)[i],
            "Uid:"@,
        ) by {
            assert(!has_prefix(before[i + 1], "Uid:"@));
        }
        law_the_first_uid_line_decides(before.skip(1), line, after);
    }
}

/// Only root mounts without `sudo`; a process that is not known to be root does not.
pub proof fn law_only_root_needs_no_sudo(text: Seq<char>)
    ensures
        sudo_needed(None),
        effective_uid(lines_of(text)) is None ==> sudo_needed(Some(text)),
        effective_uid(lines_of(text)) matches Some(uid) ==> (sudo_needed(Some(text)) <==> uid != 0),
{
}

/// A failed mount may pass, and nothing else may: neither an unknown verb, nor a
/// request or response that does not read, nor a state that was not saved. A mount
/// for which nobody could be asked is refused as such, naming the key. Everything else
/// is reported in the verb's own words.
pub proof fn law_only_failed_mounts_may_pass(e: VerbDispatchError)
    ensures
        reported(e) is Transient <==> (e is Mount && !(e->Mount_0 is NoResponderAvailable)),
        reported(e) is WithSubclass <==> (e is Mount && e->Mount_0 is NoResponderAvailable),
        reported(e) is Transient ==> reported(e)->Transient_0 == e.message(),
        reported(e) is Permanent ==> reported(e)->Permanent_0 == e.message(),
        e matches VerbDispatchError::Mount(MountError::NoResponderAvailable { key, .. }) ==> {
            &&& reported(e)->class == ErrorClass::PermissionDenied
            &&& reported(e)->subclass == "no_responder_available"@
            &&& reported(e)->message == no_responder_text(key@)
            &&& reported(e)->message.len() > key@.len()
        },
{
    reveal_strlit(". Try again after a session claims the responder slot.");
    assert(". Try again after a session claims the responder slot."@.len() > 0);
}

} // verus!
