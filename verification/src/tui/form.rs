//! Text fields and the keyboard handling shared by the two input forms
//! (the server wizard and the quick-command wizard).
//!
//! A form is a column of text fields followed by two buttons, SAVE and
//! CANCEL. With `n` fields the focus is one of `0..n` (a field), `n` (SAVE)
//! or `n + 1` (CANCEL).

use vstd::prelude::*;
use crate::input::{Key, KeyPress};
use crate::text::{chars_of, string_from_chars};

verus! {

/// One text field of a form.
pub struct FormField {
    pub label: &'static str,
    pub value: String,
    pub is_password: bool,
    pub placeholder: &'static str,
    /// Where text is inserted, counted in characters.
    pub cursor_pos: usize,
    /// The first character shown when the text is wider than the field.
    pub scroll_offset: usize,
}

/// The text and cursor after `key` on a field with text `v` and cursor
/// `cur`.
pub open spec fn edit_text(v: Seq<char>, cur: int, key: Key) -> (Seq<char>, int) {
    match key {
        Key::Left => (v, if cur > 0 { cur - 1 } else { cur }),
        Key::Right => (v, if cur < v.len() { cur + 1 } else { cur }),
        Key::Home => (v, 0),
        Key::End => (v, v.len() as int),
        Key::Delete => if cur < v.len() {
            (v.remove(cur), cur)
        } else {
            (v, cur)
        },
        Key::Backspace => if cur > 0 && cur <= v.len() {
            (v.remove(cur - 1), cur - 1)
        } else {
            (v, cur)
        },
        Key::Char(c) => if cur <= v.len() {
            (v.insert(cur, c), cur + 1)
        } else {
            (v, cur)
        },
        _ => (v, cur),
    }
}

/// `new` is `old` after `key`: text and cursor as `edit_text` says, the
/// rest untouched.
pub open spec fn field_edited(old: FormField, new: FormField, key: Key) -> bool {
    &&& new.value@ == edit_text(old.value@, old.cursor_pos as int, key).0
    &&& new.cursor_pos == edit_text(old.value@, old.cursor_pos as int, key).1
    &&& new.label == old.label
    &&& new.is_password == old.is_password
    &&& new.placeholder == old.placeholder
    &&& new.scroll_offset == old.scroll_offset
}

/// The keys that act on the text of the focused field.
pub open spec fn is_text_key(key: Key) -> bool {
    ||| key is Left
    ||| key is Right
    ||| key is Home
    ||| key is End
    ||| key is Delete
    ||| key is Backspace
    ||| key is Char
}

/// Applies a text-editing key to `field`.
pub fn edit_field(field: &mut FormField, key: Key)
    ensures
        field_edited(*old(field), *final(field), key),
{
    let len = field.value.as_str().unicode_len();
    match key {
        Key::Left => {
            if field.cursor_pos > 0 {
                field.cursor_pos = field.cursor_pos - 1;
            }
        },
        Key::Right => {
            if field.cursor_pos < len {
                field.cursor_pos = field.cursor_pos + 1;
            }
        },
        Key::Home => {
            field.cursor_pos = 0;
        },
        Key::End => {
            field.cursor_pos = len;
        },
        Key::Delete => {
            if field.cursor_pos < len {
                let mut chars = chars_of(field.value.as_str());
                chars.remove(field.cursor_pos);
                field.value = string_from_chars(&chars);
            }
        },
        Key::Backspace => {
            if field.cursor_pos > 0 && field.cursor_pos <= len {
                let mut chars = chars_of(field.value.as_str());
                chars.remove(field.cursor_pos - 1);
                field.value = string_from_chars(&chars);
                field.cursor_pos = field.cursor_pos - 1;
            }
        },
        Key::Char(c) => {
            if field.cursor_pos <= len {
                let mut chars = chars_of(field.value.as_str());
                chars.insert(field.cursor_pos, c);
                // The longer text still has a length that fits in `usize`,
                // so the cursor can move one place on.
                let new_len = chars.len();
                assert(field.cursor_pos < new_len);
                field.value = string_from_chars(&chars);
                field.cursor_pos = field.cursor_pos + 1;
            }
        },
        _ => {},
    }
}

/// What a key press asks of the form.
#[derive(Clone, Copy, Debug, PartialEq, Eq, Structural)]
pub enum FormStep {
    /// Keep editing.
    Stay,
    /// Validate and save.
    Submit,
    /// Leave without saving.
    Cancel,
}

/// The fields of a form, the focus and the error shown under it.
pub struct FormState {
    pub fields: Vec<FormField>,
    pub active_idx: usize,
    pub error_msg: Option<String>,
}

/// What `press` asks of a form with `n` fields and focus `active`.
pub open spec fn form_step(active: int, n: int, press: KeyPress, ctrl_s_submits: bool) -> FormStep {
    if press.key is Esc {
        FormStep::Cancel
    } else if ctrl_s_submits && press.ctrl && press.key == Key::Char('s') {
        FormStep::Submit
    } else if press.key is Enter && active == n {
        FormStep::Submit
    } else if press.key is Enter && active == n + 1 {
        FormStep::Cancel
    } else {
        FormStep::Stay
    }
}

/// The focus after `key`, among `n` fields and the two buttons.
pub open spec fn next_active(active: int, n: int, key: Key) -> int {
    match key {
        Key::Up | Key::BackTab => if active == 0 {
            n + 1
        } else {
            active - 1
        },
        Key::Down | Key::Tab => if active == n + 1 {
            0
        } else {
            active + 1
        },
        Key::Left | Key::Right => if active == n {
            n + 1
        } else if active == n + 1 {
            n
        } else {
            active
        },
        Key::Enter => if active < n {
            active + 1
        } else {
            active
        },
        _ => active,
    }
}

/// Whether `key` clears the error shown under the form.
pub open spec fn clears_error(active: int, n: int, key: Key) -> bool {
    match key {
        Key::Up | Key::Down | Key::Tab | Key::BackTab => true,
        Key::Delete | Key::Backspace | Key::Char(_) => active < n,
        _ => false,
    }
}

/// `new` is the form `old` after `key` left it open: focus, error and
/// fields as the key says.
pub open spec fn edited_in_place(old: FormState, new: FormState, key: Key) -> bool {
    let n = old.fields.len() as int;
    let a = old.active_idx as int;
    &&& new.active_idx == next_active(a, n, key)
    &&& new.error_msg == if clears_error(a, n, key) {
        None
    } else {
        old.error_msg
    }
    &&& new.fields.len() == n
    &&& a < n && is_text_key(key) ==> {
        &&& field_edited(old.fields@[a], new.fields@[a], key)
        &&& forall|j: int| 0 <= j < n && j != a ==> #[trigger] new.fields@[j] == old.fields@[j]
    }
    &&& !(a < n && is_text_key(key)) ==> new.fields@ == old.fields@
}

impl FormState {
    /// The form has at least one field and the focus is on a field or a
    /// button.
    pub open spec fn well_formed(&self) -> bool {
        &&& 0 < self.fields.len() < usize::MAX
        &&& self.active_idx <= self.fields.len() + 1
    }

    /// Every cursor stands within its text.
    pub open spec fn cursors_in_text(&self) -> bool {
        forall|j: int|
            0 <= j < self.fields.len() ==> #[trigger] self.fields@[j].cursor_pos
                <= self.fields@[j].value@.len()
    }

    /// Reacts to a key press. With `ctrl_s_submits`, Control-S asks to save
    /// from anywhere in the form.
    pub fn handle_key(&mut self, press: KeyPress, ctrl_s_submits: bool) -> (r: FormStep)
        requires
            old(self).well_formed(),
        ensures
            r == form_step(
                old(self).active_idx as int,
                old(self).fields.len() as int,
                press,
                ctrl_s_submits,
            ),
            r !is Stay ==> *final(self) == *old(self),
            r is Stay ==> edited_in_place(*old(self), *final(self), press.key),
            final(self).well_formed(),
            old(self).cursors_in_text() ==> final(self).cursors_in_text(),
    {
        let n = self.fields.len();
        let a = self.active_idx;
        if let Key::Esc = press.key {
            return FormStep::Cancel;
        }
        if ctrl_s_submits && press.ctrl {
            if let Key::Char(c) = press.key {
                if c == 's' {
                    return FormStep::Submit;
                }
            }
        }
        match press.key {
            Key::Up | Key::BackTab => {
                self.active_idx = if a == 0 {
                    n + 1
                } else {
                    a - 1
                };
                self.error_msg = None;
            },
            Key::Down | Key::Tab => {
                self.active_idx = if a == n + 1 {
                    0
                } else {
                    a + 1
                };
                self.error_msg = None;
            },
            Key::Enter => {
                if a < n {
                    self.active_idx = a + 1;
                } else if a == n {
                    return FormStep::Submit;
                } else {
                    return FormStep::Cancel;
                }
            },
            Key::Left | Key::Right => {
                if a < n {
                    self.edit_active(press.key);
                } else if a == n {
                    self.active_idx = n + 1;
                } else {
                    self.active_idx = n;
                }
            },
            Key::Home | Key::End => {
                if a < n {
                    self.edit_active(press.key);
                }
            },
            Key::Delete | Key::Backspace | Key::Char(_) => {
                if a < n {
                    self.edit_active(press.key);
                    self.error_msg = None;
                }
            },
            _ => {},
        }
        FormStep::Stay
    }

    /// Applies a text-editing key to the focused field.
    fn edit_active(&mut self, key: Key)
        requires
            old(self).active_idx < old(self).fields.len(),
        ensures
            final(self).active_idx == old(self).active_idx,
            final(self).error_msg == old(self).error_msg,
            final(self).fields.len() == old(self).fields.len(),
            field_edited(
                old(self).fields@[old(self).active_idx as int],
                final(self).fields@[old(self).active_idx as int],
                key,
            ),
            forall|j: int|
                0 <= j < old(self).fields.len() && j != old(self).active_idx
                    ==> #[trigger] final(self).fields@[j] == old(self).fields@[j],
    {
        let a = self.active_idx;
        let mut f = self.fields.remove(a);
        edit_field(&mut f, key);
        self.fields.insert(a, f);
        assert forall|j: int|
            0 <= j < old(self).fields.len() && j != a implies #[trigger] self.fields@[j]
                == old(self).fields@[j] by {
            if j < a {
                assert(self.fields@[j] == old(self).fields@.remove(a as int)[j]);
            } else {
                assert(self.fields@[j] == old(self).fields@.remove(a as int)[j - 1]);
            }
        }
    }
}

/// The first character to show so that the cursor stays in view, for a
/// field `width` characters wide (one of them kept for the cursor at the
/// end of the text).
pub open spec fn adjusted_scroll(cur: int, len: int, scroll: int, width: int) -> int {
    let c = if cur < len {
        cur
    } else {
        len
    };
    if c < scroll {
        c
    } else if c > scroll + width - 1 {
        c - (width - 1)
    } else {
        scroll
    }
}

/// The characters a field shows: its text, or as many dots as it has
/// characters when it holds a password.
pub open spec fn shown_text(f: FormField) -> Seq<char> {
    if f.is_password {
        Seq::new(f.value@.len(), |i: int| '\u{2022}')
    } else {
        f.value@
    }
}

/// The window of `s` that starts at `skip` and holds at most `take`
/// characters.
pub open spec fn window(s: Seq<char>, skip: int, take: int) -> Seq<char> {
    let start = if skip < s.len() {
        skip
    } else {
        s.len() as int
    };
    let end = if start + take < s.len() {
        start + take
    } else {
        s.len() as int
    };
    s.subrange(start, end)
}

impl FormField {
    /// Moves the scroll offset so that the cursor is in view, as the form
    /// does each time it draws a field that is not empty; an empty field
    /// keeps its offset.
    pub fn adjust_scroll(&mut self, display_width: usize)
        requires
            display_width >= 1,
        ensures
            final(self).value == old(self).value,
            final(self).cursor_pos == old(self).cursor_pos,
            final(self).label == old(self).label,
            final(self).is_password == old(self).is_password,
            final(self).placeholder == old(self).placeholder,
            final(self).scroll_offset == if old(self).value@.len() == 0 {
                old(self).scroll_offset as int
            } else {
                adjusted_scroll(
                    old(self).cursor_pos as int,
                    old(self).value@.len() as int,
                    old(self).scroll_offset as int,
                    display_width as int,
                )
            },
            old(self).value@.len() > 0 ==> {
                let c = if old(self).cursor_pos < old(self).value@.len() {
                    old(self).cursor_pos as int
                } else {
                    old(self).value@.len() as int
                };
                final(self).scroll_offset <= c <= final(self).scroll_offset + display_width - 1
            },
    {
        let len = self.value.as_str().unicode_len();
        if len == 0 {
            return ;
        }
        let c = if self.cursor_pos < len {
            self.cursor_pos
        } else {
            len
        };
        if c < self.scroll_offset {
            self.scroll_offset = c;
        } else if c - self.scroll_offset > display_width - 1 {
            self.scroll_offset = c - (display_width - 1);
        }
    }

    /// The characters the field shows from its scroll offset on, at most
    /// `display_width - 1` of them.
    pub fn visible_chars(&self, display_width: usize) -> (r: Vec<char>)
        requires
            display_width >= 1,
        ensures
            r@ == window(shown_text(*self), self.scroll_offset as int, display_width - 1),
    {
        let text = chars_of(self.value.as_str());
        let len = text.len();
        let start = if self.scroll_offset < len {
            self.scroll_offset
        } else {
            len
        };
        let end = if display_width - 1 < len - start {
            start + (display_width - 1)
        } else {
            len
        };
        let mut r: Vec<char> = Vec::new();
        let mut i = start;
        while i < end
            invariant
                text@ == self.value@,
                start <= i <= end <= len,
                len == text@.len(),
                r@ == shown_text(*self).subrange(start as int, i as int),
            decreases end - i,
        {
            if self.is_password {
                r.push('\u{2022}');
            } else {
                r.push(text[i]);
            }
            i = i + 1;
            assert(r@ =~= shown_text(*self).subrange(start as int, i as int));
        }
        r
    }

    /// The placeholder as the empty field shows it: a space, then the
    /// placeholder, cut to `display_width` characters.
    pub fn placeholder_chars(&self, display_width: usize) -> (r: Vec<char>)
        ensures
            r@ == seq![' '].add(self.placeholder@).take(
                if display_width < 1 + self.placeholder@.len() {
                    display_width as int
                } else {
                    1 + self.placeholder@.len() as int
                },
            ),
    {
        let mut full: Vec<char> = Vec::new();
        full.push(' ');
        let p = chars_of(self.placeholder);
        let mut i: usize = 0;
        while i < p.len()
            invariant
                i <= p.len(),
                p@ == self.placeholder@,
                full@ == seq![' '].add(p@.subrange(0, i as int)),
            decreases p.len() - i,
        {
            full.push(p[i]);
            i = i + 1;
            assert(full@ =~= seq![' '].add(p@.subrange(0, i as int)));
        }
        assert(p@.subrange(0, p.len() as int) =~= p@);
        let keep = if display_width < full.len() {
            display_width
        } else {
            full.len()
        };
        full.truncate(keep);
        assert(full@ =~= seq![' '].add(self.placeholder@).take(keep as int));
        full
    }

    /// The terminal column of the cursor for a field whose first shown
    /// character is at column `base`: `base` plus the cursor's distance
    /// from the scroll offset, counted modulo 65536 as terminal columns
    /// are. Once a long field is emptied its offset lies past the cursor,
    /// and the column falls left of `base` by the difference.
    pub fn cursor_column(&self, base: u16) -> (r: u16)
        ensures
            ({
                let c = if self.cursor_pos < self.value@.len() {
                    self.cursor_pos as int
                } else {
                    self.value@.len() as int
                };
                r as int == (base + c - self.scroll_offset) % 65536
            }),
    {
        let len = self.value.as_str().unicode_len();
        let c = if self.cursor_pos < len {
            self.cursor_pos
        } else {
            len
        };
        let s = self.scroll_offset;
        if c >= s {
            let d = (c - s) % 65536;
            let r = ((base as usize + d) % 65536) as u16;
            assert(r as int == (base + c - s) % 65536) by (nonlinear_arith)
                requires
                    d == (c - s) % 65536,
                    r == (base + d) % 65536,
                    c >= s,
                    0 <= base,
            {
                vstd::arithmetic::div_mod::lemma_add_mod_noop(base as int, c - s, 65536);
                vstd::arithmetic::div_mod::lemma_mod_twice((c - s) as int, 65536);
            }
            r
        } else {
            let d = (s - c) % 65536;
            let r = ((base as usize + 65536 - d) % 65536) as u16;
            assert(r as int == (base + c - s) % 65536) by (nonlinear_arith)
                requires
                    d == (s - c) % 65536,
                    r == (base + 65536 - d) % 65536,
                    c < s,
                    0 <= base,
            {
                vstd::arithmetic::div_mod::lemma_sub_mod_noop(base + 65536, s - c, 65536);
                vstd::arithmetic::div_mod::lemma_mod_twice((s - c) as int, 65536);
                vstd::arithmetic::div_mod::lemma_mod_add_multiples_vanish(base + c - s, 65536);
            }
            r
        }
    }
}

/// Typing a character and then erasing it with Backspace gives back the
/// text and the cursor.
pub proof fn law_insert_then_backspace(v: Seq<char>, cur: int, c: char)
    requires
        0 <= cur <= v.len(),
    ensures
        ({
            let (v1, c1) = edit_text(v, cur, Key::Char(c));
            edit_text(v1, c1, Key::Backspace)
        }) == (v, cur),
{
    let (v1, c1) = edit_text(v, cur, Key::Char(c));
    assert(v1.remove(c1 - 1) =~= v);
}

/// No editing key moves the cursor out of the text.
pub proof fn law_edit_keeps_cursor_in_text(v: Seq<char>, cur: int, key: Key)
    requires
        0 <= cur <= v.len(),
    ensures
        0 <= edit_text(v, cur, key).1 <= edit_text(v, cur, key).0.len(),
{
}

/// Inside the text, Right moves the insertion point one character on and
/// Left brings it back; Left then Right likewise comes back. Neither key
/// changes the text.
pub proof fn law_right_then_left(v: Seq<char>, cur: int)
    ensures
        0 <= cur < v.len() ==> edit_text(v, cur, Key::Right) == (v, cur + 1),
        0 <= cur < v.len() ==> edit_text(v, cur + 1, Key::Left) == (v, cur),
        0 < cur <= v.len() ==> edit_text(v, cur, Key::Left) == (v, cur - 1),
        0 < cur <= v.len() ==> ({
            let (v1, c1) = edit_text(v, cur, Key::Left);
            edit_text(v1, c1, Key::Right)
        }) == (v, cur),
        0 <= cur < v.len() ==> ({
            let (v1, c1) = edit_text(v, cur, Key::Right);
            edit_text(v1, c1, Key::Left)
        }) == (v, cur),
        edit_text(v, cur, Key::Home) == (v, 0int),
        edit_text(v, cur, Key::End) == (v, v.len() as int),
{
}

/// Moving the focus up and then down, or down and then up, comes back to
/// the same field or button.
pub proof fn law_focus_up_down(a: int, n: int)
    requires
        0 <= a <= n + 1,
    ensures
        next_active(next_active(a, n, Key::Up), n, Key::Down) == a,
        next_active(next_active(a, n, Key::Down), n, Key::Up) == a,
{
}

} // verus!
