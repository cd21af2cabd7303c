//! The text format in which the saved hotkeys are kept between runs: one line
//! per hotkey name, in the order of the names, holding the hotkey text or
//! nothing when no hotkey is set.

use vstd::prelude::*;
use vstd::utf8::{encode_utf8, encode_scalar};
use crate::hotkeys::N_HOTK;

verus! {

/// Length of the first line of `c`, its '\n' included (the whole text when it
/// has no '\n').
pub open spec fn line_end(c: Seq<char>) -> nat
    decreases c.len(),
{
    if c.len() == 0 {
        0
    } else if c[0] == '\n' {
        1
    } else {
        1 + line_end(c.drop_first())
    }
}

/// The lines of a text as a line reader returns them: each with its '\n',
/// the last one without it when the text does not end in '\n'.
pub open spec fn config_lines(c: Seq<char>) -> Seq<Seq<char>>
    decreases c.len(),
{
    if c.len() == 0 {
        seq![]
    } else {
        let e = line_end(c) as int;
        if e <= 0 || e > c.len() {
            seq![]
        } else {
            seq![c.take(e)] + config_lines(c.skip(e))
        }
    }
}

/// Number of bytes of a text in UTF-8.
pub open spec fn byte_len(s: Seq<char>) -> nat {
    encode_utf8(s).len()
}

/// What one line sets: a line longer than one byte holds a hotkey text, its
/// last character (the '\n') dropped; a shorter line sets nothing.
pub open spec fn config_entry(line: Seq<char>) -> Option<Seq<char>> {
    if byte_len(line) > 1 {
        Some(line.drop_last())
    } else {
        None
    }
}

/// A text whose lines past the hotkey slots set nothing (the reader has no
/// slot for them).
pub open spec fn config_fits(c: Seq<char>) -> bool {
    forall|i: int|
        N_HOTK <= i < config_lines(c).len() ==> byte_len(#[trigger] config_lines(c)[i]) <= 1
}

/// What a configuration text sets, slot by slot.
pub open spec fn config_entries(c: Seq<char>) -> Seq<Option<Seq<char>>> {
    Seq::new(
        N_HOTK as nat,
        |i: int|
            if i < config_lines(c).len() {
                config_entry(config_lines(c)[i])
            } else {
                None
            },
    )
}

/// The line that records one slot.
pub open spec fn entry_line(e: Option<Seq<char>>) -> Seq<char> {
    match e {
        Some(s) => s.push('\n'),
        None => seq!['\n'],
    }
}

/// The configuration text for the given slots.
pub open spec fn config_text(entries: Seq<Option<Seq<char>>>) -> Seq<char>
    decreases entries.len(),
{
    if entries.len() == 0 {
        seq![]
    } else {
        entry_line(entries[0]) + config_text(entries.drop_first())
    }
}

proof fn lemma_line_end_scan(c: Seq<char>, k: int)
    requires
        0 <= k <= c.len(),
        forall|j: int| 0 <= j < k ==> c[j] != '\n',
        k == c.len() || c[k] == '\n',
    ensures
        line_end(c) == if k == c.len() { k } else { k + 1 },
    decreases k,
{
    if k > 0 {
        lemma_line_end_scan(c.drop_first(), k - 1);
    }
}

proof fn lemma_config_text_append(a: Seq<Option<Seq<char>>>, b: Seq<Option<Seq<char>>>)
    ensures
        config_text(a + b) == config_text(a) + config_text(b),
    decreases a.len(),
{
    if a.len() == 0 {
        assert(a + b =~= b);
        assert(config_text(a) + config_text(b) =~= config_text(b));
    } else {
        lemma_config_text_append(a.drop_first(), b);
        assert((a + b).drop_first() =~= a.drop_first() + b);
        assert(config_text(a + b) =~= config_text(a) + config_text(b));
    }
}

proof fn lemma_utf8_len_at_least_chars(s: Seq<char>)
    ensures
        encode_utf8(s).len() >= s.len(),
    decreases s.len(),
{
    if s.len() > 0 {
        lemma_utf8_len_at_least_chars(s.drop_first());
        assert(encode_scalar(s[0] as u32).len() >= 1);
    }
}

proof fn lemma_more_than_one_byte(l: Seq<char>)
    requires
        l.len() >= 1,
    ensures
        (byte_len(l) > 1) == (l.len() >= 2 || (l[0] as u32) > 0x7f),
{
    lemma_utf8_len_at_least_chars(l);
    if l.len() == 1 {
        assert(l.drop_first() =~= Seq::<char>::empty());
        assert(encode_utf8(Seq::<char>::empty()) =~= Seq::<u8>::empty());
        assert(encode_utf8(l) =~= encode_scalar(l[0] as u32) + encode_utf8(l.drop_first()));
    }
}

/// Finds the end of the first line of `c`.
fn first_line_end(c: &str) -> (r: usize)
    ensures
        r == line_end(c@),
        r <= c@.len(),
        c@.len() > 0 ==> r > 0,
{
    let n = c.unicode_len();
    let mut k: usize = 0;
    while k < n && c.get_char(k) != '\n'
        invariant
            n == c@.len(),
            k <= n,
            forall|j: int| 0 <= j < k ==> c@[j] != '\n',
        decreases n - k,
    {
        k = k + 1;
    }
    proof {
        lemma_line_end_scan(c@, k as int);
    }
    if k == n {
        k
    } else {
        k + 1
    }
}

/// Reads a configuration text: slot `i` gets the text of line `i` when that
/// line is longer than one byte (its last character dropped), and nothing
/// otherwise.
pub fn read_config(content: &str) -> (r: Vec<Option<String>>)
    requires
        config_fits(content@),
    ensures
        r@.len() == N_HOTK,
        forall|i: int|
            0 <= i < N_HOTK ==> (match #[trigger] r@[i] {
                Some(s) => Some(s@),
                None => None,
            }) == config_entries(content@)[i],
{
    let mut r: Vec<Option<String>> = Vec::new();
    let mut rest: &str = content;
    let mut idx: usize = 0;
    while idx < N_HOTK
        invariant
            idx <= N_HOTK,
            r@.len() == idx,
            config_fits(content@),
            idx <= config_lines(content@).len() ==> config_lines(rest@) =~= config_lines(
                content@,
            ).skip(idx as int),
            idx > config_lines(content@).len() ==> rest@.len() == 0,
            forall|i: int|
                0 <= i < idx ==> (match #[trigger] r@[i] {
                    Some(s) => Some(s@),
                    None => None,
                }) == config_entries(content@)[i],
        decreases N_HOTK - idx,
    {
        let n = rest.unicode_len();
        if n == 0 {
            proof {
                assert(config_lines(rest@) =~= seq![]);
                assert(idx >= config_lines(content@).len());
                assert(config_entries(content@)[idx as int] == None::<Seq<char>>);
            }
            r.push(None);
            assert(rest@.len() == 0);
        } else {
            let e = first_line_end(rest);
            let line = rest.substring_char(0, e);
            let long_line = e >= 2 || (line.get_char(0) as u32) > 0x7f;
            proof {
                assert(line@ =~= rest@.take(e as int));
                assert(config_lines(rest@) =~= seq![rest@.take(e as int)] + config_lines(
                    rest@.skip(e as int),
                ));
                assert(config_lines(rest@)[0] == line@);
                assert(idx < config_lines(content@).len());
                assert(config_lines(content@)[idx as int] == line@);
                lemma_more_than_one_byte(line@);
            }
            if long_line {
                let text = line.substring_char(0, e - 1);
                assert(text@ =~= line@.drop_last());
                r.push(Some(String::from_str(text)));
            } else {
                r.push(None);
            }
            let next = rest.substring_char(e, n);
            proof {
                assert(next@ =~= rest@.skip(e as int));
                assert(config_lines(next@) =~= config_lines(rest@).skip(1));
                assert(config_lines(content@).skip(idx as int).skip(1) =~= config_lines(
                    content@,
                ).skip(idx + 1));
            }
            rest = next;
        }
        idx = idx + 1;
    }
    r
}

/// Text of one slot's line.
fn push_entry_line(out: &mut String, e: &Option<String>)
    ensures
        final(out)@ == old(out)@ + entry_line(match e {
            Some(s) => Some(s@),
            None => None,
        }),
{
    proof {
        reveal_strlit("\n");
    }
    match e {
        Some(s) => {
            out.append(s.as_str());
            out.append("\n");
        },
        None => {
            out.append("\n");
        },
    }
}

pub open spec fn opt_string_view(e: Option<String>) -> Option<Seq<char>> {
    match e {
        Some(s) => Some(s@),
        None => None,
    }
}

/// Writes the configuration text for the given slots.
pub fn write_config(entries: &Vec<Option<String>>) -> (r: String)
    ensures
        r@ == config_text(entries@.map_values(|e: Option<String>| opt_string_view(e))),
{
    let ghost es = entries@.map_values(|e: Option<String>| opt_string_view(e));
    let mut out = String::new();
    let mut i: usize = 0;
    while i < entries.len()
        invariant
            i <= entries@.len(),
            es == entries@.map_values(|e: Option<String>| opt_string_view(e)),
            out@ == config_text(es.take(i as int)),
        decreases entries@.len() - i,
    {
        push_entry_line(&mut out, &entries[i]);
        proof {
            lemma_config_text_append(es.take(i as int), seq![es[i as int]]);
            assert(es.take(i as int) + seq![es[i as int]] =~= es.take(i + 1));
            assert(seq![es[i as int]].drop_first() =~= seq![]);
            assert(config_text(Seq::<Option<Seq<char>>>::empty()) =~= seq![]);
            assert(config_text(seq![es[i as int]]) =~= entry_line(es[i as int]));
        }
        i = i + 1;
    }
    assert(es.take(entries@.len() as int) =~= es);
    out
}

proof fn lemma_lines_of_config_text(entries: Seq<Option<Seq<char>>>)
    requires
        forall|i: int|
            0 <= i < entries.len() ==> match #[trigger] entries[i] {
                Some(s) => !s.contains('\n'),
                None => true,
            },
    ensures
        config_lines(config_text(entries)) == entries.map_values(|e: Option<Seq<char>>| entry_line(e)),
    decreases entries.len(),
{
    let lines = entries.map_values(|e: Option<Seq<char>>| entry_line(e));
    if entries.len() == 0 {
        assert(lines =~= seq![]);
    } else {
        let l = entry_line(entries[0]);
        let rest = config_text(entries.drop_first());
        let c = config_text(entries);
        assert(c == l + rest);
        let k = l.len() - 1;
        assert forall|j: int| 0 <= j < k implies c[j] != '\n' by {
            match entries[0] {
                Some(s) => {
                    assert(c[j] == s[j]);
                    if s[j] == '\n' {
                        assert(s.contains('\n'));
                    }
                },
                None => {},
            }
        }
        assert(c[k] == '\n');
        lemma_line_end_scan(c, k);
        assert(c.take(l.len() as int) =~= l);
        assert(c.skip(l.len() as int) =~= rest);
        assert forall|i: int| 0 <= i < entries.drop_first().len() implies match #[trigger] entries.drop_first()[i] {
            Some(s) => !s.contains('\n'),
            None => true,
        } by {
            assert(entries.drop_first()[i] == entries[i + 1]);
        }
        lemma_lines_of_config_text(entries.drop_first());
        assert(lines =~= seq![l] + entries.drop_first().map_values(|e: Option<Seq<char>>| entry_line(e)));
    }
}

/// What is written is what is read back: for slots whose hotkey texts are
/// non-empty and hold no line break, reading the written configuration gives
/// back every slot.
pub proof fn lemma_config_round_trip(entries: Seq<Option<Seq<char>>>)
    requires
        entries.len() == N_HOTK,
        forall|i: int|
            0 <= i < entries.len() ==> match #[trigger] entries[i] {
                Some(s) => s.len() > 0 && !s.contains('\n'),
                None => true,
            },
    ensures
        config_fits(config_text(entries)),
        config_entries(config_text(entries)) == entries,
{
    let c = config_text(entries);
    lemma_lines_of_config_text(entries);
    let lines = config_lines(c);
    assert forall|i: int| 0 <= i < N_HOTK implies #[trigger] config_entries(c)[i] == entries[i] by {
        assert(lines[i] == entry_line(entries[i]));
        match entries[i] {
            Some(s) => {
                lemma_utf8_len_at_least_chars(s.push('\n'));
                assert(s.push('\n').drop_last() =~= s);
            },
            None => {
                assert(seq!['\n'].drop_first() =~= Seq::<char>::empty());
                assert(encode_utf8(seq!['\n']) =~= encode_scalar('\n' as u32) + encode_utf8(Seq::<char>::empty()));
                assert(encode_utf8(Seq::<char>::empty()) =~= Seq::<u8>::empty());
                lemma_newline_is_one_byte();
            },
        }
    }
    assert(config_entries(c) =~= entries);
}

proof fn lemma_newline_is_one_byte()
    ensures
        encode_scalar('\n' as u32).len() == 1,
{
    assert(('\n' as u32) == 10);
}

} // verus!
