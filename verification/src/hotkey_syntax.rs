//! Checks on hotkey texts made before they are handed to the hotkey parser.

use vstd::prelude::*;
use crate::hotkey_backend::{
    hotkey_parse_returns, is_modifier_token, modifier_words, plus_tokens, trim_text, trimmed,
    uppercase_text, uppercased,
};
use crate::text::same_text;

verus! {

/// Splitting a text one character longer: a '+' starts a new, empty token;
/// any other character extends the last token.
proof fn lemma_plus_tokens_step(s: Seq<char>, i: int)
    requires
        0 <= i < s.len(),
    ensures
        plus_tokens(s.take(i)).len() >= 1,
        s[i] == '+' ==> plus_tokens(s.take(i + 1)) == plus_tokens(s.take(i)).push(seq![]),
        s[i] != '+' ==> plus_tokens(s.take(i + 1)) == plus_tokens(s.take(i)).update(
            plus_tokens(s.take(i)).len() - 1,
            plus_tokens(s.take(i)).last().push(s[i]),
        ),
{
    lemma_plus_tokens_not_empty(s.take(i));
    assert(s.take(i + 1).drop_last() =~= s.take(i));
    assert(s.take(i + 1).last() == s[i]);
}

proof fn lemma_plus_tokens_not_empty(s: Seq<char>)
    ensures
        plus_tokens(s).len() >= 1,
    decreases s.len(),
{
    if s.len() > 0 {
        lemma_plus_tokens_not_empty(s.drop_last());
    }
}

/// Whether the parser takes the token for a modifier.
fn token_is_modifier(t: &str) -> (r: bool)
    ensures
        r == is_modifier_token(t@),
{
    let u = uppercase_text(trim_text(t));
    let m0 = same_text(u.as_str(), "OPTION");
    let m1 = same_text(u.as_str(), "ALT");
    let m2 = same_text(u.as_str(), "CONTROL");
    let m3 = same_text(u.as_str(), "CTRL");
    let m4 = same_text(u.as_str(), "COMMAND");
    let m5 = same_text(u.as_str(), "CMD");
    let m6 = same_text(u.as_str(), "SUPER");
    let m7 = same_text(u.as_str(), "SHIFT");
    let m8 = same_text(u.as_str(), "COMMANDORCONTROL");
    let m9 = same_text(u.as_str(), "COMMANDORCTRL");
    let m10 = same_text(u.as_str(), "CMDORCTRL");
    let m11 = same_text(u.as_str(), "CMDORCONTROL");
    let r = m0 || m1 || m2 || m3 || m4 || m5 || m6 || m7 || m8 || m9 || m10 || m11;
    proof {
        let w = modifier_words();
        let x = uppercased(trimmed(t@));
        assert(u@ == x);
        assert(w[0] == "OPTION"@);
        assert(w[1] == "ALT"@);
        assert(w[2] == "CONTROL"@);
        assert(w[3] == "CTRL"@);
        assert(w[4] == "COMMAND"@);
        assert(w[5] == "CMD"@);
        assert(w[6] == "SUPER"@);
        assert(w[7] == "SHIFT"@);
        assert(w[8] == "COMMANDORCONTROL"@);
        assert(w[9] == "COMMANDORCTRL"@);
        assert(w[10] == "CMDORCTRL"@);
        assert(w[11] == "CMDORCONTROL"@);
        if r {
            if m0 { assert(w[0] == x); }
            else if m1 { assert(w[1] == x); }
            else if m2 { assert(w[2] == x); }
            else if m3 { assert(w[3] == x); }
            else if m4 { assert(w[4] == x); }
            else if m5 { assert(w[5] == x); }
            else if m6 { assert(w[6] == x); }
            else if m7 { assert(w[7] == x); }
            else if m8 { assert(w[8] == x); }
            else if m9 { assert(w[9] == x); }
            else if m10 { assert(w[10] == x); }
            else { assert(w[11] == x); }
            assert(w.contains(x));
        } else {
            assert forall|k: int| 0 <= k < w.len() implies #[trigger] w[k] != x by {
                if k == 0 {} else if k == 1 {} else if k == 2 {} else if k == 3 {}
                else if k == 4 {} else if k == 5 {} else if k == 6 {} else if k == 7 {}
                else if k == 8 {} else if k == 9 {} else if k == 10 {} else {}
            }
        }
    }
    r
}

/// Whether the hotkey parser is sure to return on `s` (see
/// `hotkey_parse_returns`): it is unless `s` has two or more tokens and all
/// of them are modifiers.
pub fn parse_returns(s: &str) -> (r: bool)
    ensures
        r == hotkey_parse_returns(s@),
{
    let n = s.unicode_len();
    let mut start: usize = 0;
    let mut finished: usize = 0;
    let mut non_modifier = false;
    let mut i: usize = 0;
    let ghost mut done: Seq<Seq<char>> = seq![];
    proof {
        assert(s@.take(0) =~= Seq::<char>::empty());
    }
    while i < n
        invariant
            n == s@.len(),
            start <= i <= n,
            finished == done.len(),
            finished <= i,
            plus_tokens(s@.take(i as int)) == done.push(s@.subrange(start as int, i as int)),
            non_modifier == exists|j: int| 0 <= j < done.len() && !is_modifier_token(#[trigger] done[j]),
        decreases n - i,
    {
        proof {
            lemma_plus_tokens_step(s@, i as int);
        }
        if s.get_char(i) == '+' {
            let token = s.substring_char(start, i);
            let m = token_is_modifier(token);
            proof {
                let old_done = done;
                assert(token@ == s@.subrange(start as int, i as int));
                assert(plus_tokens(s@.take(i as int)) == old_done.push(token@));
                done = done.push(token@);
                assert(s@.subrange(i + 1, i + 1) =~= Seq::<char>::empty());
                assert(plus_tokens(s@.take(i + 1)) =~= done.push(s@.subrange(i + 1, i + 1)));
                if !m {
                    assert(!is_modifier_token(done[old_done.len() as int]));
                }
                if non_modifier {
                    let j = choose|j: int| 0 <= j < old_done.len() && !is_modifier_token(#[trigger] old_done[j]);
                    assert(done[j] == old_done[j]);
                }
                if exists|j: int| 0 <= j < done.len() && !is_modifier_token(#[trigger] done[j]) {
                    let j = choose|j: int| 0 <= j < done.len() && !is_modifier_token(#[trigger] done[j]);
                    if j < old_done.len() {
                        assert(old_done[j] == done[j]);
                    }
                }
            }
            non_modifier = non_modifier || !m;
            finished = finished + 1;
            start = i + 1;
        } else {
            proof {
                assert(s@.subrange(start as int, i as int).push(s@[i as int]) =~= s@.subrange(
                    start as int,
                    i + 1,
                ));
                assert(plus_tokens(s@.take(i + 1)) =~= done.push(s@.subrange(start as int, i + 1)));
            }
        }
        i = i + 1;
    }
    let last = s.substring_char(start, n);
    let m = token_is_modifier(last);
    proof {
        assert(s@.take(n as int) =~= s@);
        let toks = plus_tokens(s@);
        assert(toks == done.push(last@));
        assert(toks[done.len() as int] == last@);
        if non_modifier {
            let j = choose|j: int| 0 <= j < done.len() && !is_modifier_token(#[trigger] done[j]);
            assert(toks[j] == done[j]);
        }
        if !m {
            assert(!is_modifier_token(toks[done.len() as int]));
        }
        if exists|j: int| 0 <= j < toks.len() && !is_modifier_token(#[trigger] toks[j]) {
            let j = choose|j: int| 0 <= j < toks.len() && !is_modifier_token(#[trigger] toks[j]);
            if j < done.len() {
                assert(done[j] == toks[j]);
            }
        }
    }
    finished == 0 || non_modifier || !m
}

} // verus!
