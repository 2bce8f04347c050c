//! The input pane: message entry with a cursor.
use vstd::prelude::*;

use super::event::{KeyCode, KeyEvent, KeyModifiers};
use crate::text::{chars_of, string_of};
use vstd::utf8::{encode_scalar, encode_utf8};

verus! {

/// Result of handling a key event in the input pane.
#[derive(Debug, Clone, PartialEq, Eq)]
pub enum InputResult {
    /// No action needed.
    NoAction,
    /// A message should be sent.
    Submit(String),
}

/// The text of the pane and the cursor, as a character position.
pub struct InputView {
    pub text: Seq<char>,
    pub pos: nat,
}

/// `\r\n` and a lone `\r` both become `\n`.
pub open spec fn normalize_newlines(s: Seq<char>) -> Seq<char>
    decreases s.len(),
{
    if s.len() == 0 {
        seq![]
    } else if s[0] == '\r' && s.len() > 1 && s[1] == '\n' {
        seq!['\n'] + normalize_newlines(s.skip(2))
    } else if s[0] == '\r' {
        seq!['\n'] + normalize_newlines(s.skip(1))
    } else {
        seq![s[0]] + normalize_newlines(s.skip(1))
    }
}

/// `s` with `ins` inserted at position `pos`.
pub open spec fn inserted(s: Seq<char>, pos: int, ins: Seq<char>) -> Seq<char> {
    s.take(pos) + ins + s.skip(pos)
}

/// The pane after inserting `ins` at the cursor: the cursor moves past it.
pub open spec fn after_insert(v: InputView, ins: Seq<char>) -> InputView {
    InputView { text: inserted(v.text, v.pos as int, ins), pos: v.pos + ins.len() }
}

/// What a key does to the pane, and what it returns.
pub open spec fn key_effect(v: InputView, key: KeyEvent) -> (InputView, Option<Seq<char>>) {
    match key.code {
        KeyCode::Enter => if key.modifiers.shift {
            (after_insert(v, seq!['\n']), None)
        } else {
            (InputView { text: seq![], pos: 0 }, Some(v.text))
        },
        KeyCode::Char(c) => if c == 'c' && key.modifiers.control {
            (v, None)
        } else {
            (after_insert(v, seq![c]), None)
        },
        KeyCode::Backspace => if v.pos > 0 {
            (InputView { text: v.text.remove(v.pos - 1), pos: (v.pos - 1) as nat }, None)
        } else {
            (v, None)
        },
        KeyCode::Delete => if v.pos < v.text.len() {
            (InputView { text: v.text.remove(v.pos as int), pos: v.pos }, None)
        } else {
            (v, None)
        },
        KeyCode::Left => if v.pos > 0 {
            (InputView { text: v.text, pos: (v.pos - 1) as nat }, None)
        } else {
            (v, None)
        },
        KeyCode::Right => if v.pos < v.text.len() {
            (InputView { text: v.text, pos: v.pos + 1 }, None)
        } else {
            (v, None)
        },
        KeyCode::Home => (InputView { text: v.text, pos: 0 }, None),
        KeyCode::End => (InputView { text: v.text, pos: v.text.len() }, None),
        _ => (v, None),
    }
}

/// The byte offset of character position `pos` in the UTF-8 encoding of `text`.
pub open spec fn byte_offset(text: Seq<char>, pos: int) -> usize {
    encode_utf8(text.take(pos)).len() as usize
}

/// The input pane for entering messages.
#[derive(Debug)]
pub struct InputPane {
    /// The current input text.
    text: String,
    /// The same text, character by character.
    chars: Vec<char>,
    /// Cursor position, in characters.
    pos: usize,
}

impl View for InputPane {
    type V = InputView;

    closed spec fn view(&self) -> InputView {
        InputView { text: self.chars@, pos: self.pos as nat }
    }
}

impl InputPane {
    /// The text mirrors the characters and the cursor lies within the text.
    #[verifier::type_invariant]
    closed spec fn consistent(&self) -> bool {
        &&& self.text@ == self.chars@
        &&& self.pos <= self.chars@.len()
    }

    /// An empty pane.
    pub fn new() -> (res: Self)
        ensures
            res@.text.len() == 0,
            res@.pos == 0,
    {
        InputPane { text: String::new(), chars: Vec::new(), pos: 0 }
    }

    /// Handles a key: Enter submits the text (Shift+Enter inserts a newline),
    /// Ctrl+C is left to the application, characters are inserted at the
    /// cursor, Backspace and Delete remove the character before or after it,
    /// Left, Right, Home and End move it.
    pub fn handle_key_event(&mut self, key: KeyEvent) -> (res: InputResult)
        ensures
            old(self)@.pos <= old(self)@.text.len(),
            final(self)@.pos <= final(self)@.text.len(),
            final(self)@ == key_effect(old(self)@, key).0,
            match key_effect(old(self)@, key).1 {
                Some(t) => res matches InputResult::Submit(s) && s@ == t,
                None => res is NoAction,
            },
    {
        proof {
            use_type_invariant(&*self);
        }
        match key.code {
            KeyCode::Enter => self.handle_enter(key.modifiers),
            KeyCode::Char(c) => {
                if c == 'c' && key.modifiers.control {
                    InputResult::NoAction
                } else {
                    self.insert_char(c);
                    InputResult::NoAction
                }
            },
            KeyCode::Backspace => {
                self.delete_backward();
                InputResult::NoAction
            },
            KeyCode::Delete => {
                self.delete_forward();
                InputResult::NoAction
            },
            KeyCode::Left => {
                self.move_cursor_left();
                InputResult::NoAction
            },
            KeyCode::Right => {
                self.move_cursor_right();
                InputResult::NoAction
            },
            KeyCode::Home => {
                self.set_pos(0);
                InputResult::NoAction
            },
            KeyCode::End => {
                proof {
                    use_type_invariant(&*self);
                }
                let n = self.chars.len();
                self.set_pos(n);
                InputResult::NoAction
            },
            _ => InputResult::NoAction,
        }
    }

    fn set_pos(&mut self, p: usize)
        requires
            p <= old(self)@.text.len(),
        ensures
            final(self)@ == (InputView { text: old(self)@.text, pos: p as nat }),
    {
        proof {
            use_type_invariant(&*self);
        }
        self.pos = p;
    }

    /// Enter submits the text and empties the pane; Shift+Enter inserts a newline.
    fn handle_enter(&mut self, modifiers: KeyModifiers) -> (res: InputResult)
        ensures
            modifiers.shift ==> final(self)@ == after_insert(old(self)@, seq!['\n']),
            modifiers.shift ==> res is NoAction,
            !modifiers.shift ==> final(self)@ == (InputView { text: seq![], pos: 0 }),
            !modifiers.shift ==> (res matches InputResult::Submit(s) && s@ == old(self)@.text),
    {
        if modifiers.shift {
            self.insert_char('\n');
            InputResult::NoAction
        } else {
            proof {
                use_type_invariant(&*self);
            }
            let text = self.text.clone();
            self.store(Vec::new(), 0);
            InputResult::Submit(text)
        }
    }

    /// Replaces the characters, keeping the text in step.
    fn store(&mut self, chars: Vec<char>, pos: usize)
        requires
            pos <= chars@.len(),
        ensures
            final(self)@ == (InputView { text: chars@, pos: pos as nat }),
    {
        let text = string_of(&chars);
        *self = InputPane { text, chars, pos };
    }

    /// Inserts pasted text at the cursor, with its line endings normalized.
    pub fn handle_paste(&mut self, text: &str)
        ensures
            final(self)@ == after_insert(old(self)@, normalize_newlines(text@)),
    {
        let cs = chars_of(text);
        let mut norm: Vec<char> = Vec::new();
        let mut i: usize = 0;
        assert(cs@.skip(0) =~= cs@);
        while i < cs.len()
            invariant
                i <= cs@.len(),
                cs@ == text@,
                norm@ + normalize_newlines(cs@.skip(i as int)) == normalize_newlines(cs@),
            decreases cs.len() - i,
        {
            let ghost rest = cs@.skip(i as int);
            if cs[i] == '\r' && i + 1 < cs.len() && cs[i + 1] == '\n' {
                assert(rest.skip(2) =~= cs@.skip(i + 2));
                norm.push('\n');
                assert(norm@ + normalize_newlines(cs@.skip(i + 2)) =~= norm@.drop_last() + normalize_newlines(rest));
                i = i + 2;
            } else {
                let c = if cs[i] == '\r' {
                    '\n'
                } else {
                    cs[i]
                };
                assert(rest.skip(1) =~= cs@.skip(i + 1));
                norm.push(c);
                assert(norm@ + normalize_newlines(cs@.skip(i + 1)) =~= norm@.drop_last() + normalize_newlines(rest));
                i = i + 1;
            }
        }
        assert(normalize_newlines(cs@.skip(i as int)) =~= seq![]);
        assert(norm@ + seq![] =~= norm@);
        let ghost start = self@;
        proof {
            use_type_invariant(&*self);
            assert(start.text.take(start.pos as int) + norm@.take(0) + start.text.skip(start.pos as int) =~= start.text);
        }
        let mut k: usize = 0;
        while k < norm.len()
            invariant
                k <= norm@.len(),
                norm@ == normalize_newlines(text@),
                self@ == after_insert(start, norm@.take(k as int)),
                start.pos <= start.text.len(),
            decreases norm.len() - k,
        {
            self.insert_char(norm[k]);
            proof {
                let t = start.text;
                let p = start.pos as int;
                let a = norm@.take(k as int);
                let mid = t.take(p) + a + t.skip(p);
                assert(mid.take(p + k) =~= t.take(p) + a);
                assert(mid.skip(p + k) =~= t.skip(p));
                assert(norm@.take(k + 1) =~= a + seq![norm@[k as int]]);
                assert(mid.take(p + k) + seq![norm@[k as int]] + mid.skip(p + k) =~= inserted(t, p, norm@.take(k + 1)));
            }
            k = k + 1;
        }
        assert(norm@.take(norm@.len() as int) =~= norm@);
    }

    /// Inserts a character at the cursor and moves the cursor past it.
    fn insert_char(&mut self, c: char)
        ensures
            final(self)@ == after_insert(old(self)@, seq![c]),
    {
        proof {
            use_type_invariant(&*self);
        }
        let mut chars = crate::text::slice_chars(&self.chars, 0, self.chars.len());
        let p = self.pos;
        assert(chars@ =~= old(self)@.text);
        chars.insert(p, c);
        assert(chars@ =~= inserted(old(self)@.text, p as int, seq![c]));
        let n = chars.len();
        assert(p < n);
        self.store(chars, p + 1);
    }

    /// Deletes the character before the cursor.
    fn delete_backward(&mut self)
        ensures
            final(self)@ == key_effect(
                old(self)@,
                KeyEvent { code: KeyCode::Backspace, modifiers: KeyModifiers { shift: false, control: false, alt: false } },
            ).0,
    {
        proof {
            use_type_invariant(&*self);
        }
        if self.pos > 0 {
            let mut chars = crate::text::slice_chars(&self.chars, 0, self.chars.len());
            let p = self.pos - 1;
            chars.remove(p);
            assert(chars@ =~= old(self)@.text.remove(p as int));
            self.store(chars, p);
        }
    }

    /// Deletes the character after the cursor.
    fn delete_forward(&mut self)
        ensures
            final(self)@ == key_effect(
                old(self)@,
                KeyEvent { code: KeyCode::Delete, modifiers: KeyModifiers { shift: false, control: false, alt: false } },
            ).0,
    {
        proof {
            use_type_invariant(&*self);
        }
        if self.pos < self.chars.len() {
            let mut chars = crate::text::slice_chars(&self.chars, 0, self.chars.len());
            let p = self.pos;
            chars.remove(p);
            assert(chars@ =~= old(self)@.text.remove(p as int));
            self.store(chars, p);
        }
    }

    /// Moves the cursor left by one character.
    fn move_cursor_left(&mut self)
        ensures
            final(self)@ == key_effect(
                old(self)@,
                KeyEvent { code: KeyCode::Left, modifiers: KeyModifiers { shift: false, control: false, alt: false } },
            ).0,
    {
        proof {
            use_type_invariant(&*self);
        }
        if self.pos > 0 {
            let p = self.pos - 1;
            self.set_pos(p);
        }
    }

    /// Moves the cursor right by one character.
    fn move_cursor_right(&mut self)
        ensures
            final(self)@ == key_effect(
                old(self)@,
                KeyEvent { code: KeyCode::Right, modifiers: KeyModifiers { shift: false, control: false, alt: false } },
            ).0,
    {
        proof {
            use_type_invariant(&*self);
        }
        if self.pos < self.chars.len() {
            let p = self.pos + 1;
            self.set_pos(p);
        }
    }

    /// The current text.
    pub fn text(&self) -> (res: &str)
        ensures
            res@ == self@.text,
            self@.pos <= self@.text.len(),
    {
        proof {
            use_type_invariant(self);
        }
        self.text.as_str()
    }

    /// The cursor position, as a byte index into the text.
    pub fn cursor(&self) -> (res: usize)
        ensures
            res == byte_offset(self@.text, self@.pos as int),
            self@.pos <= self@.text.len(),
    {
        proof {
            use_type_invariant(self);
        }
        let prefix = self.text.as_str().substring_char(0, self.pos);
        prefix.len()
    }
}

impl Default for InputPane {
    fn default() -> (res: Self)
        ensures
            res@.text.len() == 0,
            res@.pos == 0,
    {
        InputPane::new()
    }
}

/// Typing a character and then Backspace leaves the pane as it was.
pub proof fn law_backspace_undoes_char(v: InputView, c: char, modifiers: KeyModifiers)
    requires
        v.pos <= v.text.len(),
        !(c == 'c' && modifiers.control),
    ensures
        key_effect(
            key_effect(v, KeyEvent { code: KeyCode::Char(c), modifiers }).0,
            KeyEvent { code: KeyCode::Backspace, modifiers },
        ).0 == v,
{
    let w = key_effect(v, KeyEvent { code: KeyCode::Char(c), modifiers }).0;
    assert(w == after_insert(v, seq![c]));
    assert(w.text.remove(v.pos as int) =~= v.text);
}

/// Pasted text keeps no carriage return: every line ending becomes `\n`.
pub proof fn law_paste_has_no_carriage_return(s: Seq<char>)
    ensures
        forall|i: int| 0 <= i < normalize_newlines(s).len() ==> #[trigger] normalize_newlines(s)[i] != '\r',
    decreases s.len(),
{
    if s.len() > 0 {
        if s[0] == '\r' && s.len() > 1 && s[1] == '\n' {
            law_paste_has_no_carriage_return(s.skip(2));
            assert forall|i: int| 0 <= i < normalize_newlines(s).len() implies #[trigger] normalize_newlines(s)[i] != '\r' by {
                if i > 0 {
                    assert(normalize_newlines(s)[i] == normalize_newlines(s.skip(2))[i - 1]);
                }
            }
        } else {
            law_paste_has_no_carriage_return(s.skip(1));
            assert forall|i: int| 0 <= i < normalize_newlines(s).len() implies #[trigger] normalize_newlines(s)[i] != '\r' by {
                if i > 0 {
                    assert(normalize_newlines(s)[i] == normalize_newlines(s.skip(1))[i - 1]);
                }
            }
        }
    }
}

/// The encoding of two sequences one after the other is the encoding of
/// the first followed by that of the second.
pub proof fn lemma_encode_utf8_append(a: Seq<char>, b: Seq<char>)
    ensures
        encode_utf8(a + b) == encode_utf8(a) + encode_utf8(b),
    decreases a.len(),
{
    if a.len() > 0 {
        assert((a + b).drop_first() =~= a.drop_first() + b);
        lemma_encode_utf8_append(a.drop_first(), b);
        assert(encode_utf8(a + b) =~= encode_scalar(a[0] as u32) + encode_utf8(a.drop_first() + b));
    } else {
        assert(a + b =~= b);
    }
}

/// The bytes before character `i + 1` are those before character `i` and
/// the encoding of character `i`.
pub proof fn lemma_byte_offset_step(text: Seq<char>, i: int)
    requires
        0 <= i < text.len(),
    ensures
        encode_utf8(text.take(i + 1)).len() == encode_utf8(text.take(i)).len()
            + encode_utf8(seq![text[i]]).len(),
{
    assert(text.take(i + 1) =~= text.take(i) + seq![text[i]]);
    lemma_encode_utf8_append(text.take(i), seq![text[i]]);
}

/// In bytes: typing a character puts its UTF-8 bytes at the cursor's byte
/// offset and moves the cursor past them; Backspace removes the bytes of
/// the character that ends at the cursor and moves the cursor to where it
/// began; Left and Right move the cursor over exactly one whole character.
/// The byte offset never passes the end of the text.
pub proof fn law_cursor_bytes(v: InputView, key: KeyEvent)
    requires
        v.pos <= v.text.len(),
    ensures
        ({
            let w = key_effect(v, key).0;
            let before = encode_utf8(v.text.take(v.pos as int));
            let after = encode_utf8(w.text.take(w.pos as int));
            &&& w.pos <= w.text.len()
            &&& after.len() <= encode_utf8(w.text).len()
            &&& match key.code {
                KeyCode::Char(c) => !(c == 'c' && key.modifiers.control) ==> {
                    &&& encode_utf8(w.text) == before + encode_utf8(seq![c]) + encode_utf8(
                        v.text.skip(v.pos as int),
                    )
                    &&& after.len() == before.len() + encode_utf8(seq![c]).len()
                },
                _ => true,
            }
            &&& key.code is Backspace && v.pos > 0 ==> {
                &&& encode_utf8(w.text) == after + encode_utf8(v.text.skip(v.pos as int))
                &&& before.len() == after.len() + encode_utf8(seq![v.text[v.pos - 1]]).len()
            }
            &&& key.code is Left && v.pos > 0 ==> before.len() == after.len() + encode_utf8(
                seq![v.text[v.pos - 1]],
            ).len()
            &&& key.code is Right && v.pos < v.text.len() ==> after.len() == before.len()
                + encode_utf8(seq![v.text[v.pos as int]]).len()
        }),
{
    let w = key_effect(v, key).0;
    let p = v.pos as int;
    assert(w.pos <= w.text.len());
    assert(w.text =~= w.text.take(w.pos as int) + w.text.skip(w.pos as int));
    lemma_encode_utf8_append(w.text.take(w.pos as int), w.text.skip(w.pos as int));
    match key.code {
        KeyCode::Char(c) => {
            if !(c == 'c' && key.modifiers.control) {
                assert(w.text.take(w.pos as int) =~= v.text.take(p) + seq![c]);
                lemma_encode_utf8_append(v.text.take(p), seq![c]);
                assert(w.text =~= (v.text.take(p) + seq![c]) + v.text.skip(p));
                lemma_encode_utf8_append(v.text.take(p) + seq![c], v.text.skip(p));
            }
        },
        KeyCode::Backspace => {
            if v.pos > 0 {
                lemma_byte_offset_step(v.text, p - 1);
                assert(w.text.take(w.pos as int) =~= v.text.take(p - 1));
                assert(w.text =~= v.text.take(p - 1) + v.text.skip(p));
                lemma_encode_utf8_append(v.text.take(p - 1), v.text.skip(p));
            }
        },
        KeyCode::Left => {
            if v.pos > 0 {
                lemma_byte_offset_step(v.text, p - 1);
            }
        },
        KeyCode::Right => {
            if v.pos < v.text.len() {
                lemma_byte_offset_step(v.text, p);
            }
        },
        _ => {},
    }
}

/// The UTF-8 bytes of the pane's text.
pub open spec fn text_bytes(v: InputView) -> Seq<u8> {
    encode_utf8(v.text)
}

/// The cursor as a byte index: the number of bytes of the characters
/// before it (what `cursor` returns).
pub open spec fn cursor_bytes(v: InputView) -> int {
    encode_utf8(v.text.take(v.pos as int)).len() as int
}

/// Byte index `b` is a character boundary of `text`: the bytes of the
/// first few whole characters end there.
pub open spec fn on_char_boundary(text: Seq<char>, b: int) -> bool {
    exists|k: int| 0 <= k <= text.len() && #[trigger] encode_utf8(text.take(k)).len() == b
}

/// The encoding of a text is that of its first `k` characters followed by
/// that of the rest.
pub proof fn lemma_encode_utf8_split(text: Seq<char>, k: int)
    requires
        0 <= k <= text.len(),
    ensures
        encode_utf8(text) == encode_utf8(text.take(k)) + encode_utf8(text.skip(k)),
{
    assert(text =~= text.take(k) + text.skip(k));
    lemma_encode_utf8_append(text.take(k), text.skip(k));
}

/// In the bytes of the text, with `cur` the cursor's byte index and `t` the
/// bytes before a key: the cursor lies on a character boundary, no further
/// than the end, before and after every key. A typed character `c` gives
/// the bytes `t[..cur] + c + t[cur..]` and moves the cursor past the bytes
/// of `c`. Backspace, with the cursor past the start, removes exactly the
/// bytes of the character that ends at `cur` and moves the cursor to where
/// it began. Left and Right move the cursor over exactly the bytes of one
/// whole character.
pub proof fn law_key_bytes(v: InputView, key: KeyEvent)
    requires
        v.pos <= v.text.len(),
    ensures
        ({
            let w = key_effect(v, key).0;
            let t = text_bytes(v);
            let cur = cursor_bytes(v);
            &&& 0 <= cur <= t.len() && on_char_boundary(v.text, cur)
            &&& 0 <= cursor_bytes(w) <= text_bytes(w).len() && on_char_boundary(
                w.text,
                cursor_bytes(w),
            )
            &&& match key.code {
                KeyCode::Char(c) => !(c == 'c' && key.modifiers.control) ==> {
                    &&& text_bytes(w) == t.take(cur) + encode_utf8(seq![c]) + t.skip(cur)
                    &&& cursor_bytes(w) == cur + encode_utf8(seq![c]).len()
                },
                _ => true,
            }
            &&& key.code is Backspace && v.pos > 0 ==> {
                &&& text_bytes(w) == t.take(cursor_bytes(w)) + t.skip(cur)
                &&& t.subrange(cursor_bytes(w), cur) == encode_utf8(seq![v.text[v.pos - 1]])
            }
            &&& key.code is Left && v.pos > 0 ==> t.subrange(cursor_bytes(w), cur) == encode_utf8(
                seq![v.text[v.pos - 1]],
            )
            &&& key.code is Right && v.pos < v.text.len() ==> t.subrange(cur, cursor_bytes(w))
                == encode_utf8(seq![v.text[v.pos as int]])
        }),
{
    let w = key_effect(v, key).0;
    let p = v.pos as int;
    let t = text_bytes(v);
    let cur = cursor_bytes(v);
    law_cursor_bytes(v, key);
    lemma_encode_utf8_split(v.text, p);
    assert(t.take(cur) =~= encode_utf8(v.text.take(p)));
    assert(t.skip(cur) =~= encode_utf8(v.text.skip(p)));
    assert(encode_utf8(v.text.take(p)).len() == cur);
    assert(on_char_boundary(v.text, cur));
    assert(w.pos <= w.text.len());
    lemma_encode_utf8_split(w.text, w.pos as int);
    assert(encode_utf8(w.text.take(w.pos as int)).len() == cursor_bytes(w));
    assert(on_char_boundary(w.text, cursor_bytes(w)));
    match key.code {
        KeyCode::Char(c) => {},
        KeyCode::Backspace => {
            if v.pos > 0 {
                let x = seq![v.text[p - 1]];
                assert(v.text.take(p) =~= v.text.take(p - 1) + x);
                lemma_encode_utf8_append(v.text.take(p - 1), x);
                assert(w.text.take(w.pos as int) =~= v.text.take(p - 1));
                let cw = cursor_bytes(w);
                assert(t.take(cw) =~= encode_utf8(v.text.take(p - 1)));
                assert(t.subrange(cw, cur) =~= encode_utf8(x));
            }
        },
        KeyCode::Left => {
            if v.pos > 0 {
                let x = seq![v.text[p - 1]];
                assert(v.text.take(p) =~= v.text.take(p - 1) + x);
                lemma_encode_utf8_append(v.text.take(p - 1), x);
                assert(t.subrange(cursor_bytes(w), cur) =~= encode_utf8(x));
            }
        },
        KeyCode::Right => {
            if v.pos < v.text.len() {
                let x = seq![v.text[p]];
                assert(v.text.take(p + 1) =~= v.text.take(p) + x);
                lemma_encode_utf8_append(v.text.take(p), x);
                lemma_encode_utf8_split(v.text, p + 1);
                assert(t.take(cursor_bytes(w)) =~= encode_utf8(v.text.take(p + 1)));
                assert(t.subrange(cur, cursor_bytes(w)) =~= encode_utf8(x));
            }
        },
        _ => {},
    }
}

/// Shift+Enter puts a newline at the cursor and moves the cursor past it,
/// just as typing any character there does; it submits nothing.
pub proof fn law_shift_enter_inserts_newline_at_cursor(v: InputView, modifiers: KeyModifiers)
    requires
        v.pos <= v.text.len(),
        modifiers.shift,
    ensures
        key_effect(v, KeyEvent { code: KeyCode::Enter, modifiers }).0 == (InputView {
            text: v.text.take(v.pos as int) + seq!['\n'] + v.text.skip(v.pos as int),
            pos: v.pos + 1,
        }),
        key_effect(v, KeyEvent { code: KeyCode::Enter, modifiers }).1 is None,
        key_effect(v, KeyEvent { code: KeyCode::Enter, modifiers }).0 == key_effect(
            v,
            KeyEvent { code: KeyCode::Char('\n'), modifiers },
        ).0,
{
}

/// Typing a character puts it at the cursor and moves the cursor past it.
pub proof fn law_typed_char_at_cursor(v: InputView, c: char, modifiers: KeyModifiers)
    requires
        v.pos <= v.text.len(),
        !(c == 'c' && modifiers.control),
    ensures
        key_effect(v, KeyEvent { code: KeyCode::Char(c), modifiers }).0 == (InputView {
            text: v.text.take(v.pos as int) + seq![c] + v.text.skip(v.pos as int),
            pos: v.pos + 1,
        }),
{
}

} // verus!
