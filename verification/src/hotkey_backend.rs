//! The calls into the `global_hotkey` crate that the hotkey bookkeeping makes.

use vstd::prelude::*;
use global_hotkey::hotkey::HotKey;
use global_hotkey::GlobalHotKeyManager;
use std::str::FromStr;

verus! {

#[verifier::external_type_specification]
#[verifier::external_body]
pub struct ExHotKey(global_hotkey::hotkey::HotKey);

#[verifier::external_type_specification]
#[verifier::external_body]
pub struct ExGlobalHotKeyManager(global_hotkey::GlobalHotKeyManager);

#[verifier::external_type_specification]
#[verifier::external_body]
pub struct ExHotKeyError(global_hotkey::Error);

/// Whether `global_hotkey` accepts a text as a hotkey (`HotKey::from_str`
/// returns `Ok`).
pub uninterp spec fn hotkey_text_parses(s: Seq<char>) -> bool;

/// What `str::trim` gives for a text: the text without the leading and
/// trailing characters that Unicode counts as white space.
pub uninterp spec fn trimmed(s: Seq<char>) -> Seq<char>;

/// What `str::to_uppercase` gives for a text: its Unicode upper-case form.
pub uninterp spec fn uppercased(s: Seq<char>) -> Seq<char>;

/// `str::trim`: the text without leading and trailing white space. The
/// Unicode table of white space is not written out here; the result is
/// named.
#[verifier::external_body]
pub(crate) fn trim_text(s: &str) -> (r: &str)
    ensures
        r@ == trimmed(s@),
{
    s.trim()
}

/// `str::to_uppercase`: the Unicode upper-case form of the text. The
/// Unicode case tables are not written out here; the result is named.
#[verifier::external_body]
pub(crate) fn uppercase_text(s: &str) -> (r: String)
    ensures
        r@ == uppercased(s@),
{
    s.to_uppercase()
}

/// The pieces of a text between its '+' characters, in order, as
/// `str::split('+')` gives them (one piece, the whole text, when it has no
/// '+').
pub open spec fn plus_tokens(s: Seq<char>) -> Seq<Seq<char>>
    decreases s.len(),
{
    if s.len() == 0 {
        seq![seq![]]
    } else if s.last() == '+' {
        plus_tokens(s.drop_last()).push(seq![])
    } else {
        let t = plus_tokens(s.drop_last());
        t.update(t.len() - 1, t.last().push(s.last()))
    }
}

/// The modifier names that `global_hotkey` recognises, in upper case.
pub open spec fn modifier_words() -> Seq<Seq<char>> {
    seq![
        "OPTION"@, "ALT"@, "CONTROL"@, "CTRL"@, "COMMAND"@, "CMD"@, "SUPER"@, "SHIFT"@,
        "COMMANDORCONTROL"@, "COMMANDORCTRL"@, "CMDORCTRL"@, "CMDORCONTROL"@,
    ]
}

/// A token that the parser takes for a modifier: trimmed and upper-cased,
/// it is a modifier name.
pub open spec fn is_modifier_token(t: Seq<char>) -> bool {
    modifier_words().contains(uppercased(trimmed(t)))
}

/// Texts on which `HotKey::from_str` returns: the parser panics exactly on a
/// text of two or more '+'-separated tokens that are all modifiers (it then
/// has no key to build the hotkey with); on any other text it returns a
/// hotkey or an error.
pub open spec fn hotkey_parse_returns(s: Seq<char>) -> bool {
    ||| plus_tokens(s).len() < 2
    ||| exists|i: int| 0 <= i < plus_tokens(s).len() && !is_modifier_token(#[trigger] plus_tokens(s)[i])
}

/// Parses a hotkey text with `HotKey::from_str` of `global_hotkey`; whether it
/// succeeds is a function of the text alone. The hotkey value itself is opaque
/// here.
#[verifier::external_body]
pub(crate) fn parse_hotkey(s: &str) -> (r: Result<HotKey, global_hotkey::Error>)
    requires
        hotkey_parse_returns(s@),
    ensures
        r is Ok == hotkey_text_parses(s@),
{
    HotKey::from_str(s)
}

/// `GlobalHotKeyManager::register`: asks the operating system to report the
/// hotkey. Whether it succeeds depends on the system, so nothing is stated.
#[verifier::external_body]
pub(crate) fn register_hotkey(manager: &GlobalHotKeyManager, h: HotKey) -> (r: Result<(), global_hotkey::Error>)
{
    manager.register(h)
}

/// `GlobalHotKeyManager::unregister`: stops the reporting of the hotkey.
/// Whether it succeeds depends on the system, so nothing is stated.
#[verifier::external_body]
pub(crate) fn unregister_hotkey(manager: &GlobalHotKeyManager, h: HotKey) -> (r: Result<(), global_hotkey::Error>)
{
    manager.unregister(h)
}

/// The `Display` text of a `global_hotkey` error. Its wording is left
/// unstated.
#[verifier::external_body]
pub(crate) fn hotkey_error_text(e: &global_hotkey::Error) -> (r: String)
{
    e.to_string()
}

/// The identifier (`HotKey::id`) of the hotkey that `HotKey::from_str`
/// makes of a text. `global_hotkey` computes it from the hotkey's modifiers
/// and key alone, so it is a function of the text.
pub uninterp spec fn hotkey_event_id(text: Seq<char>) -> u32;

/// `HotKey::id`: the identifier that hotkey events carry, of the hotkey
/// given by its text (converted with `HotKey::from_str`, which the
/// `requires` makes succeed). It is a hash of the hotkey's modifiers and key,
/// whose algorithm is not written out here; the result is named.
#[verifier::external_body]
pub(crate) fn hotkey_id(text: &str) -> (r: u32)
    requires
        hotkey_parse_returns(text@),
        hotkey_text_parses(text@),
    ensures
        r == hotkey_event_id(text@),
{
    HotKey::from_str(text).expect("the text is a hotkey").id()
}

} // verus!
