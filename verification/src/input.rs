//! Text input: the line that a tab composes, and what typing sends to the
//! focused session.

use crate::state::{AppState, TerminalTab};
use crate::text::{
    chars_of, drop_last_char, push_char, string_from_chars, texts, trim_text, trimmed,
};
use vstd::prelude::*;
use vstd::utf8::encode_utf8;

verus! {

broadcast use vstd::std_specs::hash::group_hash_axioms;

/// The character ends a line: a carriage return or a line feed.
pub open spec fn is_line_end(ch: char) -> bool {
    ch == '\r' || ch == '\n'
}

/// The character erases the one before it: a backspace or a delete.
pub open spec fn is_erase(ch: char) -> bool {
    ch == '\u{8}' || ch == '\u{7f}'
}

/// The character is a control code: below the space, or from the delete
/// to the end of the second control block.
pub open spec fn is_control(ch: char) -> bool {
    ch as u32 <= 0x1f || 0x7f <= ch as u32 <= 0x9f
}

/// Computes `is_control`.
pub fn char_is_control(ch: char) -> (control: bool)
    ensures
        control == is_control(ch),
{
    let code: u32 = ch as u32;
    code <= 0x1f || (0x7f <= code && code <= 0x9f)
}

/// What a tab holds of the line being composed and of the lines before it.
pub struct LineState {
    pub buffer: Seq<char>,
    pub history: Seq<Seq<char>>,
    pub output: Seq<Seq<char>>,
}

impl LineState {
    /// The state after a line has been taken whose command, the line
    /// without the white space around it, is `command`: a command that is
    /// not empty goes to the history, an empty one leaves a blank line in
    /// the output; the buffer is empty either way.
    pub open spec fn recorded(self, command: Seq<char>) -> LineState {
        if command.len() > 0 {
            LineState {
                buffer: Seq::<char>::empty(),
                history: self.history.push(command),
                output: self.output,
            }
        } else {
            LineState {
                buffer: Seq::<char>::empty(),
                history: self.history,
                output: self.output.push(Seq::<char>::empty()),
            }
        }
    }

    /// The state after Enter: the line being composed is taken, trimmed.
    pub open spec fn committed(self) -> LineState {
        self.recorded(trimmed(self.buffer))
    }

    /// The state after the last character has been erased, if there is one.
    pub open spec fn erased(self) -> LineState {
        if self.buffer.len() > 0 {
            LineState { buffer: self.buffer.drop_last(), ..self }
        } else {
            self
        }
    }

    /// The state after one character of text input: a line end commits, an
    /// erasing character erases, any other control code is dropped, and
    /// every other character joins the buffer.
    pub open spec fn after_char(self, ch: char) -> LineState {
        if is_line_end(ch) {
            self.committed()
        } else if is_erase(ch) {
            self.erased()
        } else if is_control(ch) {
            self
        } else {
            LineState { buffer: self.buffer.push(ch), ..self }
        }
    }

    /// The state after the characters of a text, one after the other.
    pub open spec fn after_text(self, text: Seq<char>) -> LineState
        decreases text.len(),
    {
        if text.len() == 0 {
            self
        } else {
            self.after_text(text.drop_last()).after_char(text.last())
        }
    }
}

/// The history and the output only grow: text input adds lines to their
/// ends and takes none away.
pub proof fn lemma_lines_only_grow(line: LineState, text: Seq<char>)
    ensures
        line.history.is_prefix_of(line.after_text(text).history),
        line.output.is_prefix_of(line.after_text(text).output),
    decreases text.len(),
{
    if text.len() > 0 {
        lemma_lines_only_grow(line, text.drop_last());
    }
}

/// The bytes that one character of text input sends to the session: a
/// carriage return for a line end, nothing for an erasing character or
/// another control code, and its UTF-8 encoding for every other character.
pub open spec fn bytes_for_char(ch: char) -> Option<Seq<u8>> {
    if is_line_end(ch) {
        Some(seq![0x0du8])
    } else if is_erase(ch) || is_control(ch) {
        None
    } else {
        Some(encode_utf8(seq![ch]))
    }
}

/// The writes that a text sends to the session, in order.
pub open spec fn writes_for_text(text: Seq<char>) -> Seq<Seq<u8>>
    decreases text.len(),
{
    if text.len() == 0 {
        Seq::<Seq<u8>>::empty()
    } else {
        match bytes_for_char(text.last()) {
            Some(bytes) => writes_for_text(text.drop_last()).push(bytes),
            None => writes_for_text(text.drop_last()),
        }
    }
}

/// The text holds a character that ends a line.
pub open spec fn ends_a_line(text: Seq<char>) -> bool {
    exists|i: int| 0 <= i < text.len() && is_line_end(#[trigger] text[i])
}

/// The bytes of each write of a list.
pub open spec fn bytes_of(writes: Seq<Vec<u8>>) -> Seq<Seq<u8>> {
    writes.map_values(|write: Vec<u8>| write@)
}

/// The UTF-8 encoding of one character.
pub fn encode_char(ch: char) -> (bytes: Vec<u8>)
    ensures
        bytes@ == encode_utf8(seq![ch]),
{
    let chars = vec![ch];
    assert(chars@ =~= seq![ch]);
    let text = string_from_chars(&chars);
    text.as_str().as_bytes_vec()
}

impl TerminalTab {
    /// The line being composed and the lines before it.
    pub open spec fn line_state(&self) -> LineState {
        LineState {
            buffer: self.input_buffer@,
            history: texts(self.command_history@),
            output: texts(self.output_lines@),
        }
    }

    /// Both are the same tab: they agree on all but the lines.
    pub open spec fn same_tab(&self, other: &TerminalTab) -> bool {
        &&& self.id == other.id
        &&& self.title == other.title
        &&& self.current_directory == other.current_directory
        &&& self.process_name == other.process_name
    }

    /// Enter: takes the line being composed. A line that is more than
    /// white space goes to the history, trimmed, and is returned; any other
    /// leaves a blank line in the output.
    pub fn commit_line(&mut self) -> (command: Option<String>)
        ensures
            final(self).line_state() == old(self).line_state().committed(),
            final(self).same_tab(old(self)),
            match command {
                Some(line) => line@ == trimmed(old(self).input_buffer@) && line@.len() > 0,
                None => trimmed(old(self).input_buffer@).len() == 0,
            },
    {
        let line = trim_text(self.input_buffer.as_str());
        self.record_line(line)
    }

    /// Takes the line being composed, of which trimming leaves `command`.
    /// A command that is not empty goes to the history and is returned; an
    /// empty one leaves a blank line in the output.
    pub fn record_line(&mut self, command: String) -> (recorded: Option<String>)
        ensures
            final(self).line_state() == old(self).line_state().recorded(command@),
            final(self).same_tab(old(self)),
            match recorded {
                Some(line) => line@ == command@ && command@.len() > 0,
                None => command@.len() == 0,
            },
    {
        self.input_buffer = String::new();
        if command.as_str().unicode_len() > 0 {
            self.command_history.push(command.clone());
            assert(texts(self.command_history@) =~= texts(old(self).command_history@).push(
                command@,
            ));
            Some(command)
        } else {
            self.output_lines.push(String::new());
            assert(texts(self.output_lines@) =~= texts(old(self).output_lines@).push(
                Seq::<char>::empty(),
            ));
            None
        }
    }

    /// Takes one character of text input.
    pub fn type_char(&mut self, ch: char)
        ensures
            final(self).line_state() == old(self).line_state().after_char(ch),
            final(self).same_tab(old(self)),
    {
        if ch == '\r' || ch == '\n' {
            self.commit_line();
        } else if ch == '\u{8}' || ch == '\u{7f}' {
            drop_last_char(&mut self.input_buffer);
        } else if char_is_control(ch) {
        } else {
            push_char(&mut self.input_buffer, ch);
        }
    }
}

/// The write that one character of text input sends to the session.
pub fn char_to_bytes(ch: char) -> (bytes: Option<Vec<u8>>)
    ensures
        bytes is Some == bytes_for_char(ch) is Some,
        bytes matches Some(found) ==> bytes_for_char(ch) == Some(found@),
{
    if ch == '\r' || ch == '\n' {
        let bytes = vec![0x0du8];
        assert(bytes@ =~= seq![0x0du8]);
        Some(bytes)
    } else if ch == '\u{8}' || ch == '\u{7f}' || char_is_control(ch) {
        None
    } else {
        Some(encode_char(ch))
    }
}

/// What text input asks for: the session it goes to, and the writes to
/// send to it, each with the viewport moved to the latest output.
#[derive(Debug, PartialEq, Eq)]
pub struct TextInputOutcome {
    pub terminal_id: u64,
    pub writes: Vec<Vec<u8>>,
}

impl AppState {
    /// The tabs after the active tab has taken a text.
    pub open spec fn tabs_typed(&self, later: &AppState, text: Seq<char>) -> bool {
        if self.tabs@.contains_key(self.active_tab_id) {
            &&& later.tabs@.contains_key(self.active_tab_id)
            &&& later.tabs@ == self.tabs@.insert(
                self.active_tab_id,
                later.tabs@[self.active_tab_id],
            )
            &&& later.tabs@[self.active_tab_id].same_tab(&self.tabs@[self.active_tab_id])
            &&& later.tabs@[self.active_tab_id].line_state()
                == self.tabs@[self.active_tab_id].line_state().after_text(text)
        } else {
            later.tabs@ == self.tabs@
        }
    }

    /// Takes text input for the focused session. The active tab takes the
    /// characters into its line, one after the other. Where the session is
    /// live, each character's bytes are to be written to it, and a text that
    /// ends a line makes the session follow its output again. Without a
    /// focused session nothing happens.
    pub fn handle_text_input(&mut self, input: &str) -> (outcome: Option<TextInputOutcome>)
        ensures
            old(self).focused_terminal is None ==> {
                &&& outcome is None
                &&& final(self).tabs@ == old(self).tabs@
                &&& final(self).follow_output@ == old(self).follow_output@
            },
            old(self).focused_terminal matches Some(id) ==> {
                &&& outcome matches Some(asked)
                &&& asked.terminal_id == id
                &&& bytes_of(asked.writes@) == (if old(self).terminals@.contains_key(id) {
                    writes_for_text(input@)
                } else {
                    Seq::<Seq<u8>>::empty()
                })
                &&& old(self).tabs_typed(final(self), input@)
                &&& final(self).follow_output@ == (if old(self).terminals@.contains_key(id)
                    && ends_a_line(input@) {
                    old(self).follow_output@.insert(id, true)
                } else {
                    old(self).follow_output@
                })
            },
            final(self).tab_order@ == old(self).tab_order@,
            final(self).active_tab_id == old(self).active_tab_id,
            final(self).next_tab_id == old(self).next_tab_id,
            final(self).tab_layouts@ == old(self).tab_layouts@,
            final(self).focused_terminal == old(self).focused_terminal,
            final(self).terminals@ == old(self).terminals@,
            final(self).next_terminal_id == old(self).next_terminal_id,
            final(self).korean_input_states@ == old(self).korean_input_states@,
            final(self).scroll_offset@ == old(self).scroll_offset@,
            final(self).selected_terminals@ == old(self).selected_terminals@,
            final(self).same_settings(old(self)),
            old(self).wf() ==> final(self).wf(),
    {
        let terminal_id = match self.focused_terminal {
            None => {
                return None;
            },
            Some(id) => id,
        };
        let live = self.terminals.contains_key(&terminal_id);
        let chars = chars_of(input);
        let active = self.active_tab_id;
        let mut tab = self.tabs.remove(&active);
        let mut writes: Vec<Vec<u8>> = Vec::new();
        let mut line_ended = false;
        let mut i: usize = 0;
        assert(chars@.take(0) =~= Seq::<char>::empty());
        assert(bytes_of(writes@) =~= Seq::<Seq<u8>>::empty());
        while i < chars.len()
            invariant
                i <= chars.len(),
                tab is Some == old(self).tabs@.contains_key(active),
                tab matches Some(typed) ==> {
                    &&& typed.same_tab(&old(self).tabs@[active])
                    &&& typed.line_state() == old(self).tabs@[active].line_state().after_text(
                        chars@.take(i as int),
                    )
                },
                bytes_of(writes@) == (if live {
                    writes_for_text(chars@.take(i as int))
                } else {
                    Seq::<Seq<u8>>::empty()
                }),
                line_ended == ends_a_line(chars@.take(i as int)),
            decreases chars.len() - i,
        {
            let ch = chars[i];
            let ghost seen = chars@.take(i as int);
            let ghost next = chars@.take(i + 1);
            proof {
                assert(next.drop_last() =~= seen);
                assert(next.last() == ch);
                if ends_a_line(seen) {
                    let k = choose|k: int| 0 <= k < seen.len() && is_line_end(#[trigger] seen[k]);
                    assert(is_line_end(next[k]));
                }
                if is_line_end(ch) {
                    assert(is_line_end(next[i as int]));
                }
                if ends_a_line(next) && !is_line_end(ch) {
                    let k = choose|k: int| 0 <= k < next.len() && is_line_end(#[trigger] next[k]);
                    assert(is_line_end(seen[k]));
                }
            }
            match tab {
                Some(typed) => {
                    let mut typed = typed;
                    typed.type_char(ch);
                    tab = Some(typed);
                },
                None => {},
            }
            if ch == '\r' || ch == '\n' {
                line_ended = true;
            }
            if live {
                match char_to_bytes(ch) {
                    Some(bytes) => {
                        let ghost before = bytes_of(writes@);
                        writes.push(bytes);
                        assert(bytes_of(writes@) =~= before.push(bytes@));
                    },
                    None => {},
                }
            }
            i = i + 1;
        }
        assert(chars@.take(chars@.len() as int) =~= chars@);
        match tab {
            Some(typed) => {
                self.tabs.insert(active, typed);
                assert(self.tabs@ =~= old(self).tabs@.insert(active, self.tabs@[active]));
            },
            None => {
                assert(self.tabs@ =~= old(self).tabs@);
            },
        }
        if live && line_ended {
            self.follow_output.insert(terminal_id, true);
        }
        proof {
            if old(self).wf() {
                old(self).lemma_same_members_keep_wf(final(self));
            }
        }
        Some(TextInputOutcome { terminal_id, writes })
    }
}

} // verus!
