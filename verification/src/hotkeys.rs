//! Bookkeeping of the global hotkeys: a saved table of the hotkeys that are
//! registered with the operating system, and a draft table that the settings
//! screen edits until its changes are committed.

use vstd::prelude::*;
use global_hotkey::hotkey::HotKey;
use global_hotkey::GlobalHotKeyManager;
use crate::hotkey_backend::{
    hotkey_error_text, hotkey_event_id, hotkey_id, hotkey_parse_returns, hotkey_text_parses, parse_hotkey,
    register_hotkey, unregister_hotkey,
};
use crate::hotkey_config::{
    config_entries, config_fits, config_text, lemma_config_round_trip, opt_string_view, read_config,
    write_config,
};
use crate::hotkey_syntax::parse_returns;
use crate::text::same_text;

verus! {

/// Number of commands that can have a hotkey.
pub const N_HOTK: usize = 2;

/// The commands that a hotkey can trigger; each has at most one hotkey.
#[derive(Debug, Clone, Copy, PartialEq, Eq, Structural)]
pub enum HotkeyName {
    FullscreenScreenshot,
    RectScreenshot,
}

/// Position of a command in the hotkey tables.
pub open spec fn name_index(n: HotkeyName) -> int {
    match n {
        HotkeyName::FullscreenScreenshot => 0,
        HotkeyName::RectScreenshot => 1,
    }
}

/// The command at a position of the hotkey tables.
pub open spec fn name_at(i: int) -> HotkeyName {
    if i == 0 {
        HotkeyName::FullscreenScreenshot
    } else {
        HotkeyName::RectScreenshot
    }
}

/// The text that names a command to the user.
pub open spec fn name_label(n: HotkeyName) -> Seq<char> {
    match n {
        HotkeyName::FullscreenScreenshot => "Fullscreen screenshot"@,
        HotkeyName::RectScreenshot => "Rect screenshot"@,
    }
}

impl HotkeyName {
    /// The position of the command in the hotkey tables.
    pub fn index(self) -> (r: usize)
        ensures
            r == name_index(self),
            r < N_HOTK,
    {
        match self {
            HotkeyName::FullscreenScreenshot => 0,
            HotkeyName::RectScreenshot => 1,
        }
    }

    /// The command at position `i`.
    pub fn from_index(i: usize) -> (r: HotkeyName)
        requires
            i < N_HOTK,
        ensures
            r == name_at(i as int),
            name_index(r) == i,
    {
        if i == 0 {
            HotkeyName::FullscreenScreenshot
        } else {
            HotkeyName::RectScreenshot
        }
    }

    /// The text that names the command to the user.
    pub fn label(self) -> (r: &'static str)
        ensures
            r@ == name_label(self),
    {
        match self {
            HotkeyName::FullscreenScreenshot => "Fullscreen screenshot",
            HotkeyName::RectScreenshot => "Rect screenshot",
        }
    }

    /// The text that names the command to the user, as an owned string.
    pub fn label_string(self) -> (r: String)
        ensures
            r@ == name_label(self),
    {
        String::from_str(self.label())
    }
}

/// Positions and commands correspond one to one.
pub proof fn lemma_name_index_round_trip(n: HotkeyName, i: int)
    requires
        0 <= i < N_HOTK,
    ensures
        0 <= name_index(n) < N_HOTK,
        name_at(name_index(n)) == n,
        name_index(name_at(i)) == i,
{
}

/// Whether the hotkey parser returns on a text and accepts it.
pub open spec fn hotkey_accepted(s: Seq<char>) -> bool {
    hotkey_parse_returns(s) && hotkey_text_parses(s)
}

pub open spec fn unregister_failure_text(n: HotkeyName) -> Seq<char> {
    "Unable to unregister the hotkey related to command "@ + name_label(n)
}

pub open spec fn register_failure_text(n: HotkeyName) -> Seq<char> {
    "Unable to register the hotkey related to command "@ + name_label(n)
}

pub open spec fn register_error_text(n: HotkeyName, detail: Seq<char>) -> Seq<char> {
    register_failure_text(n) + ".\nError: "@ + detail
}

pub open spec fn already_registered_text() -> Seq<char> {
    "Hotkey already registered"@
}

/// How committing slot `k` can fail: removing a saved hotkey that the
/// operating system refuses to release (the slot is emptied all the same),
/// or saving a draft hotkey that does not parse or that the operating system
/// refuses (the slot keeps its saved hotkey).
pub open spec fn entry_failed(
    old_saved: Option<Seq<char>>,
    new_saved: Option<Seq<char>>,
    draft: Option<Seq<char>>,
    n: HotkeyName,
    msg: Seq<char>,
) -> bool {
    match draft {
        None => old_saved is Some && new_saved is None && msg == unregister_failure_text(n),
        Some(s) => old_saved != draft && new_saved == old_saved && if hotkey_accepted(s) {
            exists|t: Seq<char>| msg == #[trigger] register_error_text(n, t)
        } else {
            msg == register_failure_text(n)
        },
    }
}

/// A commit that stopped at slot `k` with message `msg`: the slots before it
/// were committed, the slots after it were left alone.
pub open spec fn failed_at(
    old_saved: Seq<Option<Seq<char>>>,
    draft: Seq<Option<Seq<char>>>,
    new_saved: Seq<Option<Seq<char>>>,
    k: int,
    msg: Seq<char>,
) -> bool {
    &&& 0 <= k < N_HOTK
    &&& new_saved.len() == N_HOTK
    &&& forall|j: int| 0 <= j < k ==> new_saved[j] == draft[j]
    &&& forall|j: int| k < j < N_HOTK ==> new_saved[j] == old_saved[j]
    &&& entry_failed(old_saved[k], new_saved[k], draft[k], name_at(k), msg)
}

/// The outcome of committing `draft` over `old_saved`: on success the saved
/// table equals the draft; on failure it stopped at the first slot that failed.
pub open spec fn commit_outcome(
    old_saved: Seq<Option<Seq<char>>>,
    draft: Seq<Option<Seq<char>>>,
    new_saved: Seq<Option<Seq<char>>>,
    r: Result<(), Seq<char>>,
) -> bool {
    if r is Ok {
        new_saved == draft
    } else {
        exists|k: int| #[trigger] failed_at(old_saved, draft, new_saved, k, r->Err_0)
    }
}

pub open spec fn result_text(r: Result<(), String>) -> Result<(), Seq<char>> {
    match r {
        Ok(()) => Ok(()),
        Err(s) => Err(s@),
    }
}

/// No hotkey text occurs in two slots.
pub open spec fn no_shared_hotkey(t: Seq<Option<Seq<char>>>) -> bool {
    forall|i: int, j: int|
        0 <= i < t.len() && 0 <= j < t.len() && i != j && t[i] is Some ==> t[i] != t[j]
}

/// The slots that a configuration text sets replace those of the draft.
pub open spec fn merged_draft(draft: Seq<Option<Seq<char>>>, read: Seq<Option<Seq<char>>>) -> Seq<
    Option<Seq<char>>,
> {
    Seq::new(N_HOTK as nat, |i: int| if read[i] is Some { read[i] } else { draft[i] })
}

/// The commands whose hotkey has the given identifier, in table order.
pub open spec fn matching_names(ids: Seq<Option<u32>>, id: u32) -> Seq<HotkeyName>
    decreases ids.len(),
{
    if ids.len() == 0 {
        seq![]
    } else {
        let rest = matching_names(ids.drop_last(), id);
        if ids.last() == Some(id) {
            rest.push(name_at(ids.len() - 1))
        } else {
            rest
        }
    }
}

/// A hotkey text that the draft did not hold and that the parser accepts is,
/// once requested for a command, what the draft gives back for that command;
/// the other commands keep theirs; deleting it empties the slot again; and no
/// text ends up in two slots.
pub proof fn lemma_registered_hotkey_read_back(
    draft: Seq<Option<Seq<char>>>,
    h: Seq<char>,
    name: HotkeyName,
    other: HotkeyName,
)
    requires
        draft.len() == N_HOTK,
        !draft.contains(Some(h)),
        hotkey_accepted(h),
        no_shared_hotkey(draft),
    ensures
        draft.update(name_index(name), Some(h))[name_index(name)] == Some(h),
        other != name ==> draft.update(name_index(name), Some(h))[name_index(other)] == draft[name_index(other)],
        draft.update(name_index(name), Some(h)).update(name_index(name), None)[name_index(name)] is None,
        no_shared_hotkey(draft.update(name_index(name), Some(h))),
{
    let after = draft.update(name_index(name), Some(h));
    assert forall|a: int, b: int|
        0 <= a < after.len() && 0 <= b < after.len() && a != b && after[a] is Some implies after[a] != after[b] by {
        if a == name_index(name) {
            if draft[b] == Some(h) {
                assert(draft.contains(Some(h)));
            }
        } else if b == name_index(name) {
            if draft[a] == Some(h) {
                assert(draft.contains(Some(h)));
            }
        }
    }
}

/// What `deserialize` does with the text that `serialize` wrote for a saved
/// table, starting from an empty draft: the draft becomes that table (its
/// texts non-empty and without line breaks, as hotkey texts are), and when
/// the commit succeeds the saved table is that table too.
pub proof fn lemma_deserialize_reads_back(
    draft: Seq<Option<Seq<char>>>,
    table: Seq<Option<Seq<char>>>,
    old_saved: Seq<Option<Seq<char>>>,
    new_saved: Seq<Option<Seq<char>>>,
    r: Result<(), Seq<char>>,
)
    requires
        draft.len() == N_HOTK,
        forall|i: int| 0 <= i < N_HOTK ==> (#[trigger] draft[i]) is None,
        table.len() == N_HOTK,
        forall|i: int|
            0 <= i < table.len() ==> match #[trigger] table[i] {
                Some(s) => s.len() > 0 && !s.contains('\n'),
                None => true,
            },
        commit_outcome(old_saved, merged_draft(draft, config_entries(config_text(table))), new_saved, r),
    ensures
        config_fits(config_text(table)),
        merged_draft(draft, config_entries(config_text(table))) == table,
        r is Ok ==> new_saved == table,
{
    lemma_config_round_trip(table);
    let m = merged_draft(draft, config_entries(config_text(table)));
    assert forall|i: int| 0 <= i < N_HOTK implies #[trigger] m[i] == table[i] by {
        assert(draft[i] is None);
    }
    assert(m =~= table);
}

/// The identifiers that the events of the saved hotkeys carry, slot by slot.
pub open spec fn saved_ids(saved: Seq<Option<Seq<char>>>) -> Seq<Option<u32>> {
    saved.map_values(
        |e: Option<Seq<char>>|
            match e {
                Some(t) => Some(hotkey_event_id(t)),
                None => None,
            },
    )
}

/// The two tables of hotkey texts (saved and draft) and the listening flag.
pub struct HotkeysView {
    pub saved: Seq<Option<Seq<char>>>,
    pub draft: Seq<Option<Seq<char>>>,
    pub listen_enabled: bool,
}

pub open spec fn saved_text(e: Option<(HotKey, String)>) -> Option<Seq<char>> {
    match e {
        Some((_, s)) => Some(s@),
        None => None,
    }
}

/// The hotkeys of the application. `backup` holds, per command, the hotkey
/// registered with the operating system and its text; `vec` is the draft that
/// the settings screen edits, committed by `update_changes`.
pub struct RegisteredHotkeys {
    backup: Vec<Option<(HotKey, String)>>,
    vec: Vec<Option<String>>,
    listen_enabled: bool,
}

impl View for RegisteredHotkeys {
    type V = HotkeysView;

    closed spec fn view(&self) -> HotkeysView {
        HotkeysView {
            saved: self.backup@.map_values(|e: Option<(HotKey, String)>| saved_text(e)),
            draft: self.vec@.map_values(|e: Option<String>| opt_string_view(e)),
            listen_enabled: self.listen_enabled,
        }
    }
}

fn text_of(e: &Option<String>) -> (r: Option<String>)
    ensures
        opt_string_view(r) == opt_string_view(*e),
{
    match e {
        Some(s) => Some(s.clone()),
        None => None,
    }
}

fn register_failure_message(name: HotkeyName) -> (r: String)
    ensures
        r@ == register_failure_text(name),
{
    let mut m = String::from_str("Unable to register the hotkey related to command ");
    m.append(name.label());
    m
}

impl RegisteredHotkeys {
    proof fn lemma_view_slots(&self)
        ensures
            self@.saved.len() == self.backup@.len(),
            self@.draft.len() == self.vec@.len(),
            forall|i: int| 0 <= i < self.backup@.len() ==> #[trigger] self@.saved[i] == saved_text(self.backup@[i]),
            forall|i: int| 0 <= i < self.vec@.len() ==> #[trigger] self@.draft[i] == opt_string_view(self.vec@[i]),
    {
    }

    /// Both tables have one slot per command.
    pub open spec fn wf(&self) -> bool {
        &&& self@.saved.len() == N_HOTK
        &&& self@.draft.len() == N_HOTK
        &&& forall|j: int| 0 <= j < N_HOTK ==> (#[trigger] self@.saved[j] matches Some(t) ==> hotkey_accepted(t))
    }

    /// Empty tables, with listening enabled.
    pub fn new() -> (r: RegisteredHotkeys)
        ensures
            r.wf(),
            r@.saved == seq![None::<Seq<char>>, None],
            r@.draft == seq![None::<Seq<char>>, None],
            r@.listen_enabled,
    {
        let r = RegisteredHotkeys {
            backup: vec![None, None],
            vec: vec![None, None],
            listen_enabled: true,
        };
        assert(r@.saved =~= seq![None::<Seq<char>>, None]);
        assert(r@.draft =~= seq![None::<Seq<char>>, None]);
        r
    }

    /// Whether a draft slot already holds `hotkey`.
    fn check_if_already_registered(&self, hotkey: &String) -> (r: bool)
        requires
            self.wf(),
        ensures
            r == self@.draft.contains(Some(hotkey@)),
    {
        let mut i: usize = 0;
        while i < self.vec.len()
            invariant
                self.wf(),
                i <= self.vec@.len(),
                forall|j: int| 0 <= j < i ==> self@.draft[j] != Some(hotkey@),
            decreases self.vec@.len() - i,
        {
            proof { self.lemma_view_slots(); }
            match &self.vec[i] {
                Some(s) => {
                    if same_text(s.as_str(), hotkey.as_str()) {
                        assert(self@.draft[i as int] == Some(hotkey@));
                        return true;
                    }
                },
                None => {},
            }
            i = i + 1;
        }
        false
    }

    /// Asks for `h_str` to become the hotkey of `name` in the draft. A text that
    /// a draft slot already holds is refused with "Hotkey already registered";
    /// a text that the hotkey parser does not accept leaves the draft as it was.
    pub fn request_register(&mut self, h_str: String, name: HotkeyName) -> (r: Result<(), &'static str>)
        requires
            old(self).wf(),
        ensures
            final(self).wf(),
            final(self)@.saved == old(self)@.saved,
            final(self)@.listen_enabled == old(self)@.listen_enabled,
            old(self)@.draft.contains(Some(h_str@)) ==> r is Err && final(self)@.draft == old(self)@.draft,
            r matches Err(m) ==> m@ == already_registered_text(),
            !old(self)@.draft.contains(Some(h_str@)) ==> r is Ok && final(self)@.draft == if hotkey_accepted(h_str@) {
                old(self)@.draft.update(name_index(name), Some(h_str@))
            } else {
                old(self)@.draft
            },
            no_shared_hotkey(old(self)@.draft) ==> no_shared_hotkey(final(self)@.draft),
    {
        if self.check_if_already_registered(&h_str) {
            return Err("Hotkey already registered");
        }
        if parse_returns(h_str.as_str()) {
            let parsed = parse_hotkey(h_str.as_str());
            if parsed.is_ok() {
                let i = name.index();
                let ghost d = self@.draft;
                self.vec.set(i, Some(h_str));
                assert(self@.draft =~= d.update(i as int, Some(h_str@)));
                assert(no_shared_hotkey(d) ==> no_shared_hotkey(self@.draft)) by {
                    if no_shared_hotkey(d) {
                        assert forall|a: int, b: int|
                            0 <= a < N_HOTK && 0 <= b < N_HOTK && a != b && self@.draft[a] is Some implies self@.draft[a]
                            != self@.draft[b] by {
                            if a == i {
                                assert(d[b] != Some(h_str@)) by {
                                    if d[b] == Some(h_str@) {
                                        assert(d.contains(Some(h_str@)));
                                    }
                                }
                            } else if b == i {
                                assert(d[a] != Some(h_str@)) by {
                                    if d[a] == Some(h_str@) {
                                        assert(d.contains(Some(h_str@)));
                                    }
                                }
                            }
                        }
                    }
                }
            }
        }
        Ok(())
    }

    /// Clears the draft hotkey of `name`.
    pub fn request_unregister(&mut self, name: HotkeyName)
        requires
            old(self).wf(),
        ensures
            final(self).wf(),
            final(self)@.saved == old(self)@.saved,
            final(self)@.listen_enabled == old(self)@.listen_enabled,
            final(self)@.draft == old(self)@.draft.update(name_index(name), None),
    {
        let i = name.index();
        let ghost d = self@.draft;
        self.vec.set(i, None);
        assert(self@.draft =~= d.update(i as int, None));
    }

    /// The draft hotkey text of `name`.
    pub fn get_hotkey_string(&self, name: HotkeyName) -> (r: Option<String>)
        requires
            self.wf(),
        ensures
            opt_string_view(r) == self@.draft[name_index(name)],
    {
        text_of(&self.vec[name.index()])
    }

    /// Turns the listening to hotkey presses on or off.
    pub fn set_listen_enabled(&mut self, val: bool)
        requires
            old(self).wf(),
        ensures
            final(self).wf(),
            final(self)@.saved == old(self)@.saved,
            final(self)@.draft == old(self)@.draft,
            final(self)@.listen_enabled == val,
    {
        self.listen_enabled = val;
    }

    /// Starts an editing session: the draft becomes a copy of the saved hotkeys.
    pub fn prepare_for_updates(&mut self)
        requires
            old(self).wf(),
        ensures
            final(self).wf(),
            final(self)@.saved == old(self)@.saved,
            final(self)@.listen_enabled == old(self)@.listen_enabled,
            final(self)@.draft == old(self)@.saved,
    {
        let ghost saved = self@.saved;
        let mut i: usize = 0;
        while i < N_HOTK
            invariant
                self.wf(),
                i <= N_HOTK,
                self@.saved == saved,
                self@.listen_enabled == old(self)@.listen_enabled,
                forall|j: int| 0 <= j < i ==> self@.draft[j] == saved[j],
            decreases N_HOTK - i,
        {
            proof { self.lemma_view_slots(); }
            let ghost d = self@.draft;
            let replacement: Option<Option<String>> = match (&self.vec[i], &self.backup[i]) {
                (None, None) => None,
                (None, Some((_, s))) => Some(Some(s.clone())),
                (Some(_), None) => Some(None),
                (Some(s1), Some((_, s2))) => {
                    if !same_text(s1.as_str(), s2.as_str()) {
                        Some(Some(s2.clone()))
                    } else {
                        None
                    }
                },
            };
            match replacement {
                Some(v) => {
                    self.vec.set(i, v);
                    proof { self.lemma_view_slots(); }
                    assert(self@.draft =~= d.update(i as int, saved[i as int]));
                },
                None => {},
            }
            i = i + 1;
        }
        assert(self@.draft =~= saved);
    }

    /// What follows the operating system's answer to the registration of the
    /// hotkey `h` (parsed from `h_str`) for `name`: when it accepted, the
    /// saved slot of `name` holds the text and the commit of the slot
    /// succeeds; when it refused, the slot is unchanged and the error names
    /// the command, followed by the system's reason. The other slots and the
    /// draft stay as they were.
    fn record_registration(
        &mut self,
        h_str: String,
        name: HotkeyName,
        h: HotKey,
        outcome: Result<(), global_hotkey::Error>,
    ) -> (r: Result<(), String>)
        requires
            old(self).wf(),
            hotkey_accepted(h_str@),
        ensures
            final(self).wf(),
            final(self)@.draft == old(self)@.draft,
            final(self)@.listen_enabled == old(self)@.listen_enabled,
            forall|j: int|
                0 <= j < N_HOTK && j != name_index(name) ==> final(self)@.saved[j] == old(self)@.saved[j],
            outcome is Ok ==> r is Ok && final(self)@.saved[name_index(name)] == Some(h_str@),
            outcome is Err ==> (r matches Err(m) && final(self)@.saved[name_index(name)] == old(
                self,
            )@.saved[name_index(name)] && exists|t: Seq<char>| m@ == #[trigger] register_error_text(name, t)),
    {
        match outcome {
            Ok(()) => {
                let i = name.index();
                let ghost s = self@.saved;
                let ghost hs = h_str@;
                self.backup.set(i, Some((h, h_str)));
                assert(self@.saved =~= s.update(i as int, Some(hs)));
                Ok(())
            },
            Err(e) => {
                let detail = hotkey_error_text(&e);
                let mut m = register_failure_message(name);
                m.append(".\nError: ");
                m.append(detail.as_str());
                assert(m@ == register_error_text(name, detail@));
                Err(m)
            },
        }
    }

    /// Registers `h_str` as the hotkey of `name` with the operating system and,
    /// on success, records it in the saved table.
    fn register(&mut self, h_str: String, name: HotkeyName, manager: &GlobalHotKeyManager) -> (r:
        Result<(), String>)
        requires
            old(self).wf(),
        ensures
            final(self).wf(),
            final(self)@.draft == old(self)@.draft,
            final(self)@.listen_enabled == old(self)@.listen_enabled,
            forall|j: int|
                0 <= j < N_HOTK && j != name_index(name) ==> final(self)@.saved[j] == old(self)@.saved[j],
            r is Ok ==> final(self)@.saved[name_index(name)] == Some(h_str@) && hotkey_accepted(
                h_str@,
            ),
            r matches Err(m) ==> final(self)@.saved[name_index(name)] == old(self)@.saved[name_index(name)]
                && if hotkey_accepted(h_str@) {
                exists|t: Seq<char>| m@ == #[trigger] register_error_text(name, t)
            } else {
                m@ == register_failure_text(name)
            },
    {
        if parse_returns(h_str.as_str()) {
            match parse_hotkey(h_str.as_str()) {
                Ok(h) => {
                    let outcome = register_hotkey(manager, h);
                    self.record_registration(h_str, name, h, outcome)
                },
                Err(_) => Err(register_failure_message(name)),
            }
        } else {
            Err(register_failure_message(name))
        }
    }

    /// Withdraws the saved hotkey of `name` from the operating system. The
    /// saved slot is emptied whether or not the withdrawal succeeds.
    fn unregister(&mut self, name: HotkeyName, manager: &GlobalHotKeyManager) -> (r: Result<(), String>)
        requires
            old(self).wf(),
        ensures
            final(self).wf(),
            final(self)@.draft == old(self)@.draft,
            final(self)@.listen_enabled == old(self)@.listen_enabled,
            final(self)@.saved == old(self)@.saved.update(name_index(name), None),
            r matches Err(m) ==> m@ == unregister_failure_text(name),
    {
        let i = name.index();
        let temp: Option<HotKey> = match &self.backup[i] {
            Some((h, _)) => Some(*h),
            None => None,
        };
        let ghost s = self@.saved;
        self.backup.set(i, None);
        assert(self@.saved =~= s.update(i as int, None));
        match temp {
            Some(h) => {
                if unregister_hotkey(manager, h).is_ok() {
                    return Ok(());
                }
            },
            None => {},
        }
        let mut m = String::from_str("Unable to unregister the hotkey related to command ");
        m.append(name.label());
        Err(m)
    }

    /// Commits the draft: slot by slot, a hotkey that left the draft is
    /// withdrawn from the operating system and a new or changed one is
    /// registered. Stops at the first slot that fails and returns its message.
    /// A draft equal to the saved hotkeys is committed without any call.
    pub fn update_changes(&mut self, manager: &GlobalHotKeyManager) -> (r: Result<(), String>)
        requires
            old(self).wf(),
        ensures
            final(self).wf(),
            final(self)@.draft == old(self)@.draft,
            final(self)@.listen_enabled == old(self)@.listen_enabled,
            commit_outcome(old(self)@.saved, old(self)@.draft, final(self)@.saved, result_text(r)),
            old(self)@.saved == old(self)@.draft ==> r is Ok && final(self)@ == old(self)@,
    {
        let ghost old_saved = self@.saved;
        let ghost draft = self@.draft;
        let mut i: usize = 0;
        while i < N_HOTK
            invariant
                self.wf(),
                i <= N_HOTK,
                self@.draft == draft,
                draft == old(self)@.draft,
                old_saved == old(self)@.saved,
                self@.listen_enabled == old(self)@.listen_enabled,
                old_saved.len() == N_HOTK,
                draft.len() == N_HOTK,
                forall|j: int| 0 <= j < i ==> self@.saved[j] == draft[j],
                forall|j: int| i <= j < N_HOTK ==> self@.saved[j] == old_saved[j],
                old_saved == draft ==> self@.saved == old_saved,
            decreases N_HOTK - i,
        {
            proof { self.lemma_view_slots(); }
            let name = HotkeyName::from_index(i);
            let wanted: Option<String> = text_of(&self.vec[i]);
            let has_saved = self.backup[i].is_some();
            let differs: bool = match (&wanted, &self.backup[i]) {
                (Some(s1), Some((_, s2))) => !same_text(s1.as_str(), s2.as_str()),
                _ => true,
            };
            let ghost before = self@.saved;
            let res: Result<(), String> = match wanted {
                None => {
                    if has_saved {
                        self.unregister(name, manager)
                    } else {
                        Ok(())
                    }
                },
                Some(s) => {
                    if has_saved && !differs {
                        Ok(())
                    } else {
                        self.register(s, name, manager)
                    }
                },
            };
            match res {
                Err(e) => {
                    proof {
                        assert(failed_at(old_saved, draft, self@.saved, i as int, e@));
                        assert(exists|k: int| #[trigger] failed_at(old_saved, draft, self@.saved, k, e@));
                        let ghost er: Result<(), Seq<char>> = Err(e@);
                        assert(er->Err_0 == e@);
                        assert(!(er is Ok));
                        assert(commit_outcome(old_saved, draft, self@.saved, er));
                    }
                    let r: Result<(), String> = Err(e);
                    assert(result_text(r) == Err::<(), Seq<char>>(r->Err_0@));
                    return r;
                },
                Ok(()) => {},
            }
            i = i + 1;
        }
        assert(self@.saved =~= draft);
        Ok(())
    }

    /// The configuration text that records the saved hotkeys.
    pub fn serialize(&self) -> (r: String)
        requires
            self.wf(),
        ensures
            r@ == config_text(self@.saved),
    {
        let mut entries: Vec<Option<String>> = Vec::new();
        let mut i: usize = 0;
        while i < N_HOTK
            invariant
                self.wf(),
                i <= N_HOTK,
                entries@.len() == i,
                forall|j: int| 0 <= j < i ==> opt_string_view(#[trigger] entries@[j]) == self@.saved[j],
            decreases N_HOTK - i,
        {
            let e: Option<String> = match &self.backup[i] {
                Some((_, s)) => Some(s.clone()),
                None => None,
            };
            entries.push(e);
            i = i + 1;
        }
        assert(entries@.map_values(|e: Option<String>| opt_string_view(e)) =~= self@.saved);
        write_config(&entries)
    }

    /// Loads the hotkeys recorded in a configuration text: every slot that the
    /// text sets replaces the draft slot, then the draft is committed (a failed
    /// commit is not reported).
    pub fn deserialize(&mut self, content: &str, manager: &GlobalHotKeyManager)
        requires
            old(self).wf(),
            config_fits(content@),
        ensures
            final(self).wf(),
            final(self)@.listen_enabled == old(self)@.listen_enabled,
            final(self)@.draft == merged_draft(old(self)@.draft, config_entries(content@)),
            exists|r: Result<(), Seq<char>>|
                commit_outcome(old(self)@.saved, final(self)@.draft, final(self)@.saved, r),
    {
        let read = read_config(content);
        let ghost entries = config_entries(content@);
        let ghost d0 = self@.draft;
        let mut i: usize = 0;
        while i < N_HOTK
            invariant
                self.wf(),
                i <= N_HOTK,
                read@.len() == N_HOTK,
                entries.len() == N_HOTK,
                d0.len() == N_HOTK,
                forall|j: int| 0 <= j < N_HOTK ==> opt_string_view(#[trigger] read@[j]) == entries[j],
                self@.saved == old(self)@.saved,
                self@.listen_enabled == old(self)@.listen_enabled,
                forall|j: int| 0 <= j < i ==> self@.draft[j] == merged_draft(d0, entries)[j],
                forall|j: int| i <= j < N_HOTK ==> self@.draft[j] == d0[j],
            decreases N_HOTK - i,
        {
            let e = text_of(&read[i]);
            match e {
                Some(s) => {
                    let ghost d = self@.draft;
                    let ghost sv = s@;
                    self.vec.set(i, Some(s));
                    assert(self@.draft =~= d.update(i as int, Some(sv)));
                },
                None => {},
            }
            i = i + 1;
        }
        assert(self@.draft =~= merged_draft(d0, entries));
        let r = self.update_changes(manager);
        assert(commit_outcome(old(self)@.saved, self@.draft, self@.saved, result_text(r)));
    }

    /// The identifiers that hotkey events carry, per saved slot.
    pub fn saved_hotkey_ids(&self) -> (r: Vec<Option<u32>>)
        requires
            self.wf(),
        ensures
            r@ == saved_ids(self@.saved),
    {
        let mut r: Vec<Option<u32>> = Vec::new();
        let mut i: usize = 0;
        while i < N_HOTK
            invariant
                self.wf(),
                i <= N_HOTK,
                r@.len() == i,
                forall|j: int| 0 <= j < i ==> #[trigger] r@[j] == saved_ids(self@.saved)[j],
            decreases N_HOTK - i,
        {
            proof { self.lemma_view_slots(); }
            let id: Option<u32> = match &self.backup[i] {
                Some((_, s)) => {
                    assert(self@.saved[i as int] == Some(s@));
                    Some(hotkey_id(s.as_str()))
                },
                None => None,
            };
            r.push(id);
            i = i + 1;
        }
        assert(r@ =~= saved_ids(self@.saved));
        r
    }

    /// The commands that a hotkey event triggers: none while listening is
    /// off; otherwise those whose saved hotkey has the event's identifier, in
    /// table order.
    pub fn commands_for_event(&self, event_id: u32) -> (r: Vec<HotkeyName>)
        requires
            self.wf(),
        ensures
            !self@.listen_enabled ==> r@.len() == 0,
            self@.listen_enabled ==> r@ == matching_names(saved_ids(self@.saved), event_id),
    {
        if !self.listen_enabled {
            return Vec::new();
        }
        let ids = self.saved_hotkey_ids();
        names_for_event(&ids, event_id)
    }
}

/// The commands whose saved hotkey has the identifier of a hotkey event, in
/// table order.
pub fn names_for_event(ids: &Vec<Option<u32>>, event_id: u32) -> (r: Vec<HotkeyName>)
    requires
        ids@.len() <= N_HOTK,
    ensures
        r@ == matching_names(ids@, event_id),
{
    let mut r: Vec<HotkeyName> = Vec::new();
    let mut i: usize = 0;
    while i < ids.len()
        invariant
            i <= ids@.len() <= N_HOTK,
            r@ == matching_names(ids@.take(i as int), event_id),
        decreases ids@.len() - i,
    {
        proof {
            assert(ids@.take(i + 1).drop_last() =~= ids@.take(i as int));
        }
        if ids[i] == Some(event_id) {
            r.push(HotkeyName::from_index(i));
        }
        i = i + 1;
    }
    assert(ids@.take(ids@.len() as int) =~= ids@);
    r
}

} // verus!
