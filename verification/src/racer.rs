//! Client-side state of the completion daemon and the wire protocol.
//!
//! The daemon is an external process spoken to over line-based text: one
//! request line per completion, answered by a stream of match records that
//! ends with a fixed `END` marker.  Everything here works on plain values;
//! the surrounding program owns the process handle and moves the bytes.

use vstd::prelude::*;

verus! {

use vstd::arithmetic::div_mod::{lemma_mod_add_multiples_vanish, lemma_small_mod};
use vstd::string::*;

use crate::error::IRustError;

broadcast use crate::term::lemma_write_char_cmds;
use crate::term::{ClearType, Color, TermCommand, write_char_cmds};
use crate::utils::{StringTools, dec_str, stripped, usize_to_string};
use crate::IRust;

/// The completion session: everything the logic reads of it.  The daemon's
/// process handle lives with the surrounding program.
pub struct Racer {
    /// Path handed to the daemon as the "current file" of every request.
    pub main_file: String,
    /// The `(row, column)` the next request will ask about.
    pub cursor: (usize, usize),
    /// Candidates of the last answered request, in the daemon's order.
    pub suggestions: Vec<String>,
    /// Position of the next item to hand out; wraps past the end.
    pub suggestion_idx: usize,
    /// Whether the input changed since the suggestions were fetched.
    pub needs_update: bool,
}

/// The request line for one completion query.
pub open spec fn spec_request_line(row: nat, col: nat, file: Seq<char>) -> Seq<char> {
    "complete "@ + dec_str(row) + " "@ + dec_str(col) + " "@ + file + "\n"@
}

/// Build the request line `complete <row> <col> <file>` with a trailing
/// newline.
pub fn request_line(row: usize, col: usize, file: &str) -> (s: String)
    ensures
        s@ == spec_request_line(row as nat, col as nat, file@),
{
    let mut s = String::from_str("complete ");
    let r = usize_to_string(row);
    s.append(r.as_str());
    s.append(" ");
    let c = usize_to_string(col);
    s.append(c.as_str());
    s.append(" ");
    s.append(file);
    s.append("\n");
    s
}

/// The response holds the three-byte end-of-response marker somewhere.
pub open spec fn has_end_marker(s: Seq<u8>) -> bool {
    exists|i: int|
        0 <= i && i + 2 < s.len() && (#[trigger] s[i]) == 'E' as u8 && s[i + 1] == 'N' as u8 && s[
            i + 2
        ] == 'D' as u8
}

/// Decide whether the bytes read so far already hold the end-of-response
/// marker, scanning from the end of the buffer backward: the daemon may
/// append trailing data after the marker within the same read.
pub fn contains_end_marker(buf: &[u8]) -> (r: bool)
    ensures
        r == has_end_marker(buf@),
{
    let n = buf.len();
    let mut i: usize = n;
    let mut count: usize = 0;
    while i > 0
        invariant
            i <= n,
            n == buf@.len(),
            (count == 1) <==> (i < n && buf@[i as int] == 'D' as u8),
            (count == 2) <==> (i + 1 < n && buf@[i as int] == 'N' as u8 && buf@[i + 1] == 'D' as u8),
            forall|j: int|
                i <= j && j + 2 < n ==> !((#[trigger] buf@[j]) == 'E' as u8 && buf@[j + 1]
                    == 'N' as u8 && buf@[j + 2] == 'D' as u8),
        decreases i,
    {
        i = i - 1;
        let b = buf[i];
        if b == 'D' as u8 {
            count = 1;
        } else if b == 'N' as u8 && count == 1 {
            count = 2;
        } else if b == 'E' as u8 && count == 2 {
            proof {
                assert(0 <= i as int && i as int + 2 < n && buf@[i as int] == 'E' as u8 && buf@[
                    i as int + 1
                ] == 'N' as u8 && buf@[i as int + 2] == 'D' as u8);
            }
            return true;
        } else {
            count = 0;
        }
    }
    false
}

/// Index of the first comma at or after `j`, or the length when there is
/// none.
pub open spec fn first_comma_from(s: Seq<char>, j: int) -> int
    decreases s.len() - j,
{
    if j < 0 || j >= s.len() {
        s.len() as int
    } else if s[j] == ',' {
        j
    } else {
        first_comma_from(s, j + 1)
    }
}

proof fn lemma_first_comma_from_bounds(s: Seq<char>, j: int)
    requires
        0 <= j <= s.len(),
    ensures
        j <= first_comma_from(s, j) <= s.len(),
    decreases s.len() - j,
{
    if j < s.len() && s[j] != ',' {
        lemma_first_comma_from_bounds(s, j + 1);
    }
}

proof fn lemma_first_comma_characterize(s: Seq<char>, a: int, k: int)
    requires
        0 <= a <= k <= s.len(),
        forall|j: int| a <= j < k ==> s[j] != ',',
        k < s.len() ==> s[k] == ',',
    ensures
        first_comma_from(s, a) == if k < s.len() {
            k
        } else {
            s.len() as int
        },
    decreases k - a,
{
    if a < k {
        lemma_first_comma_characterize(s, a + 1, k);
    }
}

/// The candidates in a decoded response, in order.  A record starts with the
/// two-character tag `H` + space (the tail of the daemon's `MATCH` keyword)
/// and its candidate text runs up to the next comma; the search then goes on
/// from that comma.  A tag with no comma after it is unfinished trailing
/// data and yields nothing.
pub open spec fn parse_records(s: Seq<char>) -> Seq<Seq<char>>
    decreases s.len(),
    via parse_records_decreases
{
    if s.len() < 2 {
        Seq::<Seq<char>>::empty()
    } else if s[0] == 'H' && s[1] == ' ' {
        let k = first_comma_from(s, 2);
        if k < s.len() {
            seq![s.subrange(2, k)] + parse_records(s.subrange(k, s.len() as int))
        } else {
            Seq::<Seq<char>>::empty()
        }
    } else {
        parse_records(s.subrange(1, s.len() as int))
    }
}

#[via_fn]
proof fn parse_records_decreases(s: Seq<char>) {
    if s.len() >= 2 && s[0] == 'H' && s[1] == ' ' {
        lemma_first_comma_from_bounds(s, 2);
    }
}

/// Extract every candidate of a decoded response, in the daemon's order.
pub fn parse_suggestions(text: &str) -> (r: Vec<String>)
    ensures
        r.deep_view() == parse_records(text@),
{
    let n = text.unicode_len();
    let mut out: Vec<String> = Vec::new();
    let mut p: usize = 0;
    proof {
        assert(text@.subrange(0, n as int) =~= text@);
        assert(out.deep_view() + parse_records(text@) =~~= parse_records(text@));
    }
    loop
        invariant
            p <= n,
            n == text@.len(),
            out.deep_view() + parse_records(text@.subrange(p as int, n as int)) == parse_records(
                text@,
            ),
        ensures
            out.deep_view() == parse_records(text@),
        decreases n - p,
    {
        if n - p < 2 {
            proof {
                let s = text@.subrange(p as int, n as int);
                assert(s.len() < 2);
                assert(parse_records(s) =~~= Seq::<Seq<char>>::empty());
                assert(out.deep_view() + parse_records(s) =~~= out.deep_view());
            }
            break;
        }
        let c0 = text.get_char(p);
        let c1 = text.get_char(p + 1);
        if c0 == 'H' && c1 == ' ' {
            let mut q: usize = p + 2;
            loop
                invariant
                    p + 2 <= q <= n,
                    n == text@.len(),
                    forall|j: int| p + 2 <= j < q ==> text@[j] != ',',
                ensures
                    p + 2 <= q <= n,
                    forall|j: int| p + 2 <= j < q ==> text@[j] != ',',
                    q < n ==> text@[q as int] == ',',
                decreases n - q,
            {
                if q >= n {
                    break;
                }
                if text.get_char(q) == ',' {
                    break;
                }
                q = q + 1;
            }
            proof {
                let s = text@.subrange(p as int, n as int);
                assert forall|j: int| 2 <= j < q - p implies s[j] != ',' by {
                    assert(s[j] == text@[p + j]);
                }
                if q < n {
                    assert(s[q - p] == text@[q as int]);
                }
                lemma_first_comma_characterize(s, 2, q - p);
            }
            if q < n {
                let ghost d0 = out.deep_view();
                let cand = String::from_str(text.substring_char(p + 2, q));
                out.push(cand);
                proof {
                    let s = text@.subrange(p as int, n as int);
                    let s2 = text@.subrange(q as int, n as int);
                    assert(s.subrange(2, q - p) =~= text@.subrange(p + 2, q as int));
                    assert(s.subrange(q - p, s.len() as int) =~= s2);
                    assert(parse_records(s) == seq![text@.subrange(p + 2, q as int)]
                        + parse_records(s2));
                    assert(out.deep_view() =~~= d0 + seq![text@.subrange(p + 2, q as int)]);
                    assert(out.deep_view() + parse_records(s2) =~~= d0 + parse_records(s));
                }
                p = q;
            } else {
                proof {
                    let s = text@.subrange(p as int, n as int);
                    assert(first_comma_from(s, 2) == s.len());
                    assert(parse_records(s) =~~= Seq::<Seq<char>>::empty());
                    assert(out.deep_view() + parse_records(s) =~~= out.deep_view());
                }
                break;
            }
        } else {
            proof {
                let s = text@.subrange(p as int, n as int);
                let s1 = text@.subrange(p + 1, n as int);
                assert(s.len() >= 2);
                assert(s[0] == text@[p as int]);
                assert(s[1] == text@[p + 1]);
                assert(s.subrange(1, s.len() as int) =~= s1);
            }
            p = p + 1;
        }
    }
    out
}

/// Relies on `String::from_utf8`: it succeeds exactly on valid UTF-8 input
/// and yields its decoding.
#[verifier::external_body]
fn decode_response(bytes: Vec<u8>) -> (r: Option<String>)
    ensures
        r is Some <==> vstd::utf8::valid_utf8(bytes@),
        r matches Some(s) ==> s@ == vstd::utf8::decode_utf8(bytes@),
{
    String::from_utf8(bytes).ok()
}

impl Racer {
    /// A fresh session around a just-spawned daemon: no suggestions yet and
    /// a fetch owed before the first one is handed out.
    pub fn new(main_file: String) -> (r: Racer)
        ensures
            r.main_file == main_file,
            r.cursor == (2usize, 5usize),
            r.suggestions@ == Seq::<String>::empty(),
            r.suggestion_idx == 0,
            r.needs_update == true,
    {
        Racer {
            main_file,
            cursor: (2, 5),
            suggestions: Vec::new(),
            suggestion_idx: 0,
            needs_update: true,
        }
    }

    /// The request line asking about this session's current coordinates.
    pub fn request_line(&self) -> (s: String)
        ensures
            s@ == spec_request_line(
                self.cursor.0 as nat,
                self.cursor.1 as nat,
                self.main_file@,
            ),
    {
        request_line(self.cursor.0, self.cursor.1, self.main_file.as_str())
    }

    /// Replace the suggestions with the records of a decoded response and
    /// mark them fresh.
    pub fn apply_response(&mut self, text: &str)
        ensures
            final(self).suggestions.deep_view() == parse_records(text@),
            final(self).needs_update == false,
            final(self).suggestion_idx == old(self).suggestion_idx,
            final(self).cursor == old(self).cursor,
            final(self).main_file == old(self).main_file,
    {
        let sug = parse_suggestions(text);
        self.suggestions = sug;
        self.needs_update = false;
    }

    /// Take in the raw bytes of one complete response.  Fails exactly when
    /// they are not valid text; the prior suggestions are then kept.
    pub fn handle_response(&mut self, raw: Vec<u8>) -> (r: Result<(), IRustError>)
        ensures
            r is Ok <==> vstd::utf8::valid_utf8(raw@),
            vstd::utf8::valid_utf8(raw@) ==> {
                &&& final(self).suggestions.deep_view() == parse_records(
                    vstd::utf8::decode_utf8(raw@),
                )
                &&& final(self).needs_update == false
                &&& final(self).suggestion_idx == old(self).suggestion_idx
                &&& final(self).cursor == old(self).cursor
                &&& final(self).main_file == old(self).main_file
            },
            !vstd::utf8::valid_utf8(raw@) ==> *final(self) == *old(self) && (r matches Err(e)
                && e is ResponseDecodeFailed),
    {
        match decode_response(raw) {
            Some(text) => {
                self.apply_response(text.as_str());
                Ok(())
            },
            None => Err(IRustError::ResponseDecodeFailed),
        }
    }

    /// Index of the item the next read hands out.
    pub open spec fn cycle_index(self) -> int {
        if self.suggestion_idx >= self.suggestions@.len() {
            0
        } else {
            self.suggestion_idx as int
        }
    }

    /// The session and the item one read hands out: nothing on an empty
    /// set, otherwise the item under the (wrapped) index, which then
    /// advances by one.
    pub open spec fn spec_next_suggestion(self) -> (Racer, Option<String>) {
        if self.suggestions@.len() == 0 {
            (Racer { suggestion_idx: 0, ..self }, None::<String>)
        } else {
            let i = self.cycle_index();
            (Racer { suggestion_idx: (i + 1) as usize, ..self }, Some(self.suggestions@[i]))
        }
    }

    /// Hand out the next suggestion, cycling through the set; nothing when
    /// the set is empty, whatever the index says.
    pub fn next_suggestion(&mut self) -> (r: Option<String>)
        ensures
            (*final(self), r) == old(self).spec_next_suggestion(),
            old(self).suggestions@.len() == 0 ==> r is None,
            old(self).suggestions@.len() > 0 ==> r == Some(
                old(self).suggestions@[old(self).cycle_index()],
            ) && final(self).suggestion_idx == old(self).cycle_index() + 1,
            final(self).suggestions == old(self).suggestions,
            final(self).needs_update == old(self).needs_update,
            final(self).cursor == old(self).cursor,
            final(self).main_file == old(self).main_file,
    {
        if self.suggestion_idx >= self.suggestions.len() {
            self.suggestion_idx = 0;
        }
        if self.suggestions.len() == 0 {
            return None;
        }
        let s = self.suggestions[self.suggestion_idx].clone();
        self.suggestion_idx = self.suggestion_idx + 1;
        Some(s)
    }

    /// The last suggestion handed out, or the first one when none was
    /// consumed yet; nothing when the set is empty.  Used to re-render the
    /// same suggestion after a redraw without advancing the cycle.
    pub fn current_suggestion(&self) -> (r: Option<String>)
        ensures
            ({
                let i: int = if self.suggestion_idx > 1 {
                    self.suggestion_idx - 1
                } else {
                    0
                };
                if i < self.suggestions@.len() {
                    r == Some(self.suggestions@[i])
                } else {
                    r is None
                }
            }),
    {
        if self.suggestion_idx > 1 {
            if self.suggestion_idx - 1 < self.suggestions.len() {
                Some(self.suggestions[self.suggestion_idx - 1].clone())
            } else {
                None
            }
        } else {
            if self.suggestions.len() > 0 {
                Some(self.suggestions[0].clone())
            } else {
                None
            }
        }
    }
}

/// The items `k` successive reads hand out, oldest first.
pub open spec fn spec_next_n_outputs(r: Racer, k: nat) -> Seq<Option<String>>
    decreases k,
{
    if k == 0 {
        Seq::<Option<String>>::empty()
    } else {
        seq![r.spec_next_suggestion().1] + spec_next_n_outputs(
            r.spec_next_suggestion().0,
            (k - 1) as nat,
        )
    }
}

proof fn lemma_cycling_from(r: Racer, k: nat)
    requires
        0 < r.suggestions@.len(),
        r.suggestions@.len() <= usize::MAX,
        r.suggestion_idx <= r.suggestions@.len(),
    ensures
        spec_next_n_outputs(r, k).len() == k,
        forall|j: int|
            0 <= j < k ==> #[trigger] spec_next_n_outputs(r, k)[j] == Some(
                r.suggestions@[(r.cycle_index() + j) % (r.suggestions@.len() as int)],
            ),
    decreases k,
{
    let m = r.suggestions@.len() as int;
    if k > 0 {
        let e = r.cycle_index();
        let r2 = r.spec_next_suggestion().0;
        lemma_cycling_from(r2, (k - 1) as nat);
        assert forall|j: int|
            0 <= j < k implies #[trigger] spec_next_n_outputs(r, k)[j] == Some(
            r.suggestions@[(e + j) % m],
        ) by {
            if j == 0 {
                lemma_small_mod(e as nat, m as nat);
            } else {
                assert(spec_next_n_outputs(r, k)[j] == spec_next_n_outputs(r2, (k - 1) as nat)[
                    j - 1
                ]);
                if e + 1 == m {
                    assert(r2.cycle_index() == 0);
                    lemma_mod_add_multiples_vanish(j - 1, m);
                    assert((0 + (j - 1)) % m == (m + (j - 1)) % m);
                } else {
                    lemma_small_mod((e + 1) as nat, m as nat);
                }
            }
        }
    }
}

/// Law: reading `k` times from a freshly filled set of size `m > 0` hands
/// out the items at indices `0, 1, ..., k-1` taken modulo `m`, in order.
pub proof fn lemma_cycling(r: Racer, k: nat)
    requires
        0 < r.suggestions@.len(),
        r.suggestions@.len() <= usize::MAX,
        r.suggestion_idx == 0,
    ensures
        spec_next_n_outputs(r, k).len() == k,
        forall|j: int|
            0 <= j < k ==> #[trigger] spec_next_n_outputs(r, k)[j] == Some(
                r.suggestions@[j % (r.suggestions@.len() as int)],
            ),
{
    lemma_cycling_from(r, k);
    assert(r.cycle_index() == 0);
}

/// The commands that draw a suggestion without disturbing the user's
/// cursor: color on, position saved, rest of the line cleared, text
/// written, position restored, color reset.
pub open spec fn render_cmds(color: Color, text: Seq<char>) -> Seq<TermCommand> {
    seq![
        TermCommand::SetFg(color),
        TermCommand::SavePosition,
        TermCommand::Clear(ClearType::UntilNewLine),
    ] + write_char_cmds(text) + seq![TermCommand::RestorePosition, TermCommand::ResetColor]
}

impl IRust {
    /// Record whether the cached suggestions still match the input; a no-op
    /// when no session exists.
    pub fn racer_needs_update(&mut self, value: bool)
        ensures
            old(self).racer is None ==> *final(self) == *old(self),
            old(self).racer matches Some(rc) ==> *final(self) == (IRust {
                racer: Some(Racer { needs_update: value, ..rc }),
                ..*old(self)
            }),
    {
        let racer = self.racer.take();
        if let Some(mut racer) = racer {
            racer.needs_update = value;
            self.racer = Some(racer);
        }
    }

    /// Decide whether a completion request must be sent now.  Nothing is
    /// asked when no session exists, when the edit cursor is not at the end
    /// of the input, or when the cached suggestions are still fresh.
    /// Otherwise the request coordinates are recorded on the session and
    /// the request line to send is returned.
    pub fn completion_request(&mut self) -> (r: Option<String>)
        requires
            old(self).buffer.text@.len() < usize::MAX,
        ensures
            old(self).racer is None ==> r is None && *final(self) == *old(self),
            !old(self).buffer.at_end() ==> r is None && *final(self) == *old(self),
            old(self).racer is Some && old(self).buffer.at_end() && !old(
                self,
            ).racer->0.needs_update ==> r is None && *final(self) == *old(self),
            old(self).racer is Some && old(self).buffer.at_end() && old(
                self,
            ).racer->0.needs_update ==> ({
                let rc = old(self).racer->0;
                &&& *final(self) == (IRust {
                    racer: Some(
                        Racer {
                            cursor: (
                                old(self).repl_lines,
                                (old(self).buffer.text@.len() + 1) as usize,
                            ),
                            ..rc
                        },
                    ),
                    ..*old(self)
                })
                &&& r is Some && r->0@ == spec_request_line(
                    old(self).repl_lines as nat,
                    old(self).buffer.text@.len() + 1,
                    rc.main_file@,
                )
            }),
    {
        let at_end = self.buffer.is_at_end();
        let len = self.buffer.len();
        let racer = self.racer.take();
        match racer {
            None => None,
            Some(mut rc) => {
                if !at_end {
                    self.racer = Some(rc);
                    None
                } else if !rc.needs_update {
                    self.racer = Some(rc);
                    None
                } else {
                    rc.cursor = (self.repl_lines, len + 1);
                    let line = rc.request_line();
                    self.racer = Some(rc);
                    Some(line)
                }
            },
        }
    }

    /// Take the next suggestion and return the commands that draw its
    /// still-untyped tail inline, leaving the cursor model untouched.  No
    /// commands come back when no session exists, when the edit cursor is
    /// not at the end of the input, or when the set is empty.
    pub fn render_next_suggestion(&mut self) -> (cmds: Vec<TermCommand>)
        ensures
            old(self).racer is None ==> cmds@ == Seq::<TermCommand>::empty() && *final(self)
                == *old(self),
            !old(self).buffer.at_end() ==> cmds@ == Seq::<TermCommand>::empty() && *final(self)
                == *old(self),
            old(self).racer is Some && old(self).buffer.at_end() ==> ({
                let rc = old(self).racer->0;
                &&& *final(self) == (IRust {
                    racer: Some(rc.spec_next_suggestion().0),
                    ..*old(self)
                })
                &&& match rc.spec_next_suggestion().1 {
                    None => cmds@ == Seq::<TermCommand>::empty(),
                    Some(sug) => cmds@ == render_cmds(
                        old(self).options.racer_color,
                        stripped(old(self).buffer.text@, sug@),
                    ),
                }
            }),
            final(self).cursor == old(self).cursor,
    {
        let at_end = self.buffer.is_at_end();
        let color = self.options.racer_color;
        let racer = self.racer.take();
        match racer {
            None => Vec::new(),
            Some(mut rc) => {
                if !at_end {
                    self.racer = Some(rc);
                    return Vec::new();
                }
                let next = rc.next_suggestion();
                self.racer = Some(rc);
                match next {
                    None => Vec::new(),
                    Some(sug) => {
                        let tail = StringTools::strings_unique(
                            self.buffer.text.as_str(),
                            sug.as_str(),
                        );
                        let mut cmds: Vec<TermCommand> = Vec::new();
                        cmds.push(TermCommand::SetFg(color));
                        cmds.push(TermCommand::SavePosition);
                        cmds.push(TermCommand::Clear(ClearType::UntilNewLine));
                        let tn = tail.as_str().unicode_len();
                        let mut i: usize = 0;
                        proof {
                            assert(cmds@ =~= seq![
                                TermCommand::SetFg(color),
                                TermCommand::SavePosition,
                                TermCommand::Clear(ClearType::UntilNewLine),
                            ] + write_char_cmds(tail@.subrange(0, 0)));
                        }
                        while i < tn
                            invariant
                                i <= tn,
                                tn == tail@.len(),
                                cmds@ == seq![
                                    TermCommand::SetFg(color),
                                    TermCommand::SavePosition,
                                    TermCommand::Clear(ClearType::UntilNewLine),
                                ] + write_char_cmds(tail@.subrange(0, i as int)),
                            decreases tn - i,
                        {
                            let c = tail.as_str().get_char(i);
                            cmds.push(TermCommand::WriteChar(c));
                            proof {
                                assert(write_char_cmds(tail@.subrange(0, i + 1))
                                    =~= write_char_cmds(tail@.subrange(0, i as int)) + seq![
                                    TermCommand::WriteChar(tail@[i as int]),
                                ]);
                                assert(cmds@ == seq![
                                    TermCommand::SetFg(color),
                                    TermCommand::SavePosition,
                                    TermCommand::Clear(ClearType::UntilNewLine),
                                ] + write_char_cmds(tail@.subrange(0, i + 1)));
                            }
                            i = i + 1;
                        }
                        cmds.push(TermCommand::RestorePosition);
                        cmds.push(TermCommand::ResetColor);
                        proof {
                            assert(tail@.subrange(0, tail@.len() as int) =~= tail@);
                            assert(cmds@ =~= render_cmds(color, tail@));
                        }
                        cmds
                    },
                }
            },
        }
    }
}

} // verus!
